//! Reading one line of text as an instruction.

use vstd::prelude::*;
use crate::argument::{result_view, Argument, ArgumentView};
use crate::decimal::{decimal_u16, parse_u16};
use crate::error::{IntegerError, ParseStatementError};
use crate::statement::{
    lemma_same_mnemonic, InvocView, ParserWoArg, StatementInvocBackend, StatementInvocBase,
};
use crate::text::{
    is_word, lemma_tokens_are_words, split_whitespace, to_chars, to_uppercase, tokens, uppercase,
};

verus! {

/// The result `r` with its value sent through `f`.
pub open spec fn map_ok<A, B, E>(r: Result<A, E>, f: spec_fn(A) -> B) -> Result<B, E> {
    match r {
        Ok(a) => Ok(f(a)),
        Err(e) => Err(e),
    }
}

/// The result `r` with its error wrapped as the failure to read a number.
pub open spec fn integer<A>(r: Result<A, IntegerError>) -> Result<A, ParseStatementError> {
    match r {
        Ok(a) => Ok(a),
        Err(e) => Err(ParseStatementError::Integer(e)),
    }
}

/// The operand that an ordinary instruction gets from the word behind its
/// mnemonic; there has to be one.
pub open spec fn operand_of(arg: Option<Seq<char>>) -> Result<ArgumentView, ParseStatementError> {
    match arg {
        None => Err(ParseStatementError::ArgumentNotFound),
        Some(t) => integer(ArgumentView::parse(t)),
    }
}

/// The number that `DEF` gets from the word behind it; there has to be one.
pub open spec fn number_of(arg: Option<Seq<char>>) -> Result<u16, ParseStatementError> {
    match arg {
        None => Err(ParseStatementError::ArgumentNotFound),
        Some(t) => integer(decimal_u16(t)),
    }
}

/// An instruction that carries nothing must have no word behind its mnemonic.
pub open spec fn nothing_of(arg: Option<Seq<char>>) -> Result<(), ParseStatementError> {
    match arg {
        None => Ok(()),
        Some(_) => Err(ParseStatementError::UnexpectedArgument),
    }
}

impl StatementInvocBase<ParserWoArg> {
    /// The instruction that `name` is the mnemonic of. `name` is in capitals;
    /// the definition of a label has no mnemonic.
    pub open spec fn spec_recognize(name: Seq<char>) -> Option<Self> {
        if name == "LDA"@ {
            Some(StatementInvocBase::LDA(ParserWoArg))
        } else if name == "LDB"@ {
            Some(StatementInvocBase::LDB(ParserWoArg))
        } else if name == "MOV"@ {
            Some(StatementInvocBase::MOV(ParserWoArg))
        } else if name == "MAB"@ {
            Some(StatementInvocBase::MAB)
        } else if name == "ADD"@ {
            Some(StatementInvocBase::ADD)
        } else if name == "SUB"@ {
            Some(StatementInvocBase::SUB)
        } else if name == "AND"@ {
            Some(StatementInvocBase::AND)
        } else if name == "NOT"@ {
            Some(StatementInvocBase::NOT)
        } else if name == "JMP"@ {
            Some(StatementInvocBase::JMP(ParserWoArg))
        } else if name == "JPS"@ {
            Some(StatementInvocBase::JPS(ParserWoArg))
        } else if name == "JPO"@ {
            Some(StatementInvocBase::JPO(ParserWoArg))
        } else if name == "CAL"@ {
            Some(StatementInvocBase::CAL(ParserWoArg))
        } else if name == "RET"@ {
            Some(StatementInvocBase::RET)
        } else if name == "RRA"@ {
            Some(StatementInvocBase::RRA(ParserWoArg))
        } else if name == "RLA"@ {
            Some(StatementInvocBase::RLA(ParserWoArg))
        } else if name == "HLT"@ {
            Some(StatementInvocBase::HLT)
        } else if name == "NOP"@ {
            Some(StatementInvocBase::NOP)
        } else if name == "DEF"@ {
            Some(StatementInvocBase::DEF(ParserWoArg))
        } else {
            None
        }
    }

    /// The instruction together with what the word `arg` behind the mnemonic
    /// gives it: an operand, the number of `DEF`, or nothing at all. A word
    /// that is missing, that is one too many or that cannot be read is an
    /// error.
    pub open spec fn resolve(self, arg: Option<Seq<char>>) -> Result<
        InvocView,
        ParseStatementError,
    > {
        match self {
            StatementInvocBase::LDA(_) => map_ok(operand_of(arg), |a: ArgumentView| StatementInvocBase::LDA(a)),
            StatementInvocBase::LDB(_) => map_ok(operand_of(arg), |a: ArgumentView| StatementInvocBase::LDB(a)),
            StatementInvocBase::MOV(_) => map_ok(operand_of(arg), |a: ArgumentView| StatementInvocBase::MOV(a)),
            StatementInvocBase::MAB => map_ok(nothing_of(arg), |u: ()| StatementInvocBase::MAB),
            StatementInvocBase::ADD => map_ok(nothing_of(arg), |u: ()| StatementInvocBase::ADD),
            StatementInvocBase::SUB => map_ok(nothing_of(arg), |u: ()| StatementInvocBase::SUB),
            StatementInvocBase::AND => map_ok(nothing_of(arg), |u: ()| StatementInvocBase::AND),
            StatementInvocBase::NOT => map_ok(nothing_of(arg), |u: ()| StatementInvocBase::NOT),
            StatementInvocBase::JMP(_) => map_ok(operand_of(arg), |a: ArgumentView| StatementInvocBase::JMP(a)),
            StatementInvocBase::JPS(_) => map_ok(operand_of(arg), |a: ArgumentView| StatementInvocBase::JPS(a)),
            StatementInvocBase::JPO(_) => map_ok(operand_of(arg), |a: ArgumentView| StatementInvocBase::JPO(a)),
            StatementInvocBase::CAL(_) => map_ok(operand_of(arg), |a: ArgumentView| StatementInvocBase::CAL(a)),
            StatementInvocBase::RET => map_ok(nothing_of(arg), |u: ()| StatementInvocBase::RET),
            StatementInvocBase::RRA(_) => map_ok(operand_of(arg), |a: ArgumentView| StatementInvocBase::RRA(a)),
            StatementInvocBase::RLA(_) => map_ok(operand_of(arg), |a: ArgumentView| StatementInvocBase::RLA(a)),
            StatementInvocBase::HLT => map_ok(nothing_of(arg), |u: ()| StatementInvocBase::HLT),
            StatementInvocBase::NOP => map_ok(nothing_of(arg), |u: ()| StatementInvocBase::NOP),
            StatementInvocBase::DEF(_) => map_ok(number_of(arg), |n: u16| StatementInvocBase::DEF(n)),
            StatementInvocBase::Label(name) => Ok(StatementInvocBase::Label(name@)),
        }
    }

    /// Looks up the mnemonic `name`, which is in capitals.
    pub fn recognize(name: &[char]) -> (r: Option<Self>)
        ensures
            r == Self::spec_recognize(name@),
    {
        proof {
            reveal_strlit("LDA");
            reveal_strlit("LDB");
            reveal_strlit("MOV");
            reveal_strlit("MAB");
            reveal_strlit("ADD");
            reveal_strlit("SUB");
            reveal_strlit("AND");
            reveal_strlit("NOT");
            reveal_strlit("JMP");
            reveal_strlit("JPS");
            reveal_strlit("JPO");
            reveal_strlit("CAL");
            reveal_strlit("RET");
            reveal_strlit("RRA");
            reveal_strlit("RLA");
            reveal_strlit("HLT");
            reveal_strlit("NOP");
            reveal_strlit("DEF");
        }
        if name.len() != 3 {
            return None;
        }
        let r = match (name[0], name[1], name[2]) {
            ('L', 'D', 'A') => {
                assert(name@ =~= "LDA"@);
                Some(StatementInvocBase::LDA(ParserWoArg))
            },
            ('L', 'D', 'B') => {
                assert(name@ =~= "LDB"@);
                Some(StatementInvocBase::LDB(ParserWoArg))
            },
            ('M', 'O', 'V') => {
                assert(name@ =~= "MOV"@);
                Some(StatementInvocBase::MOV(ParserWoArg))
            },
            ('M', 'A', 'B') => {
                assert(name@ =~= "MAB"@);
                Some(StatementInvocBase::MAB)
            },
            ('A', 'D', 'D') => {
                assert(name@ =~= "ADD"@);
                Some(StatementInvocBase::ADD)
            },
            ('S', 'U', 'B') => {
                assert(name@ =~= "SUB"@);
                Some(StatementInvocBase::SUB)
            },
            ('A', 'N', 'D') => {
                assert(name@ =~= "AND"@);
                Some(StatementInvocBase::AND)
            },
            ('N', 'O', 'T') => {
                assert(name@ =~= "NOT"@);
                Some(StatementInvocBase::NOT)
            },
            ('J', 'M', 'P') => {
                assert(name@ =~= "JMP"@);
                Some(StatementInvocBase::JMP(ParserWoArg))
            },
            ('J', 'P', 'S') => {
                assert(name@ =~= "JPS"@);
                Some(StatementInvocBase::JPS(ParserWoArg))
            },
            ('J', 'P', 'O') => {
                assert(name@ =~= "JPO"@);
                Some(StatementInvocBase::JPO(ParserWoArg))
            },
            ('C', 'A', 'L') => {
                assert(name@ =~= "CAL"@);
                Some(StatementInvocBase::CAL(ParserWoArg))
            },
            ('R', 'E', 'T') => {
                assert(name@ =~= "RET"@);
                Some(StatementInvocBase::RET)
            },
            ('R', 'R', 'A') => {
                assert(name@ =~= "RRA"@);
                Some(StatementInvocBase::RRA(ParserWoArg))
            },
            ('R', 'L', 'A') => {
                assert(name@ =~= "RLA"@);
                Some(StatementInvocBase::RLA(ParserWoArg))
            },
            ('H', 'L', 'T') => {
                assert(name@ =~= "HLT"@);
                Some(StatementInvocBase::HLT)
            },
            ('N', 'O', 'P') => {
                assert(name@ =~= "NOP"@);
                Some(StatementInvocBase::NOP)
            },
            ('D', 'E', 'F') => {
                assert(name@ =~= "DEF"@);
                Some(StatementInvocBase::DEF(ParserWoArg))
            },
            _ => None,
        };
        r
    }
}

impl StatementInvocBase<ArgumentView> {
    /// The instruction that `line` denotes.
    ///
    /// A line of fewer than two characters is too short. A line that ends in
    /// a colon defines the label named in front of the colon, whatever that
    /// is. Any other line is cut into words at whitespace: the first word is
    /// the mnemonic, in capitals or not, and the second, if there is one, its
    /// argument. A third word is an error, and so is a first word that is no
    /// mnemonic; where such a line looks like a label put in front of an
    /// instruction, the error says so.
    pub open spec fn parse(line: Seq<char>) -> Result<InvocView, ParseStatementError> {
        let toks = tokens(line);
        if line.len() < 2 {
            Err(ParseStatementError::TooShort)
        } else if line.last() == ':' {
            Ok(StatementInvocBase::Label(line.drop_last()))
        } else if toks.len() == 0 {
            Err(ParseStatementError::TooShort)
        } else if toks.len() > 2 {
            if toks[0].last() == ':' {
                Err(ParseStatementError::InlineLabel)
            } else {
                Err(ParseStatementError::TooManyTokens(toks.len() as usize))
            }
        } else {
            let arg = if toks.len() == 2 {
                Some(toks[1])
            } else {
                None
            };
            match StatementInvocBase::<ParserWoArg>::spec_recognize(uppercase(toks[0])) {
                Some(shape) => shape.resolve(arg),
                None => if toks[0].contains(':') {
                    Err(ParseStatementError::InlineLabel)
                } else {
                    Err(ParseStatementError::UnknownCommand)
                },
            }
        }
    }
}

/// Whether `c` occurs in `s`.
pub fn contains_char(s: &str, c: char) -> (r: bool)
    ensures
        r == s@.contains(c),
{
    let chars = to_chars(s);
    let n = chars.len();
    let mut i: usize = 0;
    while i < n
        invariant
            chars@ == s@,
            n == chars.len(),
            i <= n,
            forall|k: int| 0 <= k < i ==> s@[k] != c,
        decreases n - i,
    {
        if chars[i] == c {
            return true;
        }
        i = i + 1;
    }
    false
}

impl core::str::FromStr for StatementInvocBase<Argument> {
    type Err = ParseStatementError;

    /// Reads `line`, which holds no line terminator, as an instruction.
    fn from_str(line: &str) -> (r: Result<Self, ParseStatementError>)
        ensures
            result_view(r) == InvocView::parse(line@),
            line@.len() >= 2 && line@.last() == ':' ==> result_view(r) == Ok::<
                InvocView,
                ParseStatementError,
            >(StatementInvocBase::Label(line@.drop_last())),
            !(r matches Err(ParseStatementError::InvalidArgument)),
            r matches Ok(invoc) ==> !(invoc.spec_arg() matches Some(Argument::Placeholder)),
    {
        proof {
            lemma_never_invalid_argument(line@);
            lemma_never_placeholder(line@);
        }
        let n = line.unicode_len();
        if n < 2 {
            return Err(ParseStatementError::TooShort);
        }
        if line.get_char(n - 1) == ':' {
            let name = line.substring_char(0, n - 1);
            return Ok(StatementInvocBase::Label(name.to_owned()));
        }
        let parts = split_whitespace(line);
        let count = parts.len();
        proof {
            lemma_tokens_are_words(line@);
        }
        if count == 0 {
            return Err(ParseStatementError::TooShort);
        }
        let cmd = parts[0];
        if count > 2 {
            let k = cmd.unicode_len();
            return Err(
                if cmd.get_char(k - 1) == ':' {
                    ParseStatementError::InlineLabel
                } else {
                    ParseStatementError::TooManyTokens(count)
                },
            );
        }
        let arg: Option<&str> = if count == 2 {
            Some(parts[1])
        } else {
            None
        };
        let ghost word: Option<Seq<char>> = if count == 2 {
            Some(tokens(line@)[1])
        } else {
            None
        };
        let upper = to_uppercase(cmd);
        let shape = match StatementInvocBase::<ParserWoArg>::recognize(upper.as_slice()) {
            Some(shape) => shape,
            None => {
                return Err(
                    if contains_char(cmd, ':') {
                        ParseStatementError::InlineLabel
                    } else {
                        ParseStatementError::UnknownCommand
                    },
                );
            },
        };
        let operand = |x: ParserWoArg| -> (r: Result<Argument, ParseStatementError>)
            ensures result_view(r) == operand_of(word)
            {
                match arg {
                    None => Err(ParseStatementError::ArgumentNotFound),
                    Some(t) => match Argument::from_str(t) {
                        Ok(a) => Ok(a),
                        Err(e) => Err(ParseStatementError::Integer(e)),
                    },
                }
            };
        let number = |x: ParserWoArg| -> (r: Result<u16, ParseStatementError>)
            ensures r == number_of(word)
            {
                match arg {
                    None => Err(ParseStatementError::ArgumentNotFound),
                    Some(t) => match parse_u16(t) {
                        Ok(n) => Ok(n),
                        Err(e) => Err(ParseStatementError::Integer(e)),
                    },
                }
            };
        let label = |name: String| -> (r: Result<String, ParseStatementError>)
            ensures r == Ok::<String, ParseStatementError>(name)
            {
                Ok(name)
            };
        let nothing = || -> (r: Result<(), ParseStatementError>)
            ensures r == nothing_of(word)
            {
                match arg {
                    None => Ok(()),
                    Some(_) => Err(ParseStatementError::UnexpectedArgument),
                }
            };
        let res = shape.map_or_fail(operand, number, label, nothing);
        proof {
            if res is Ok {
                lemma_same_mnemonic(shape, res->Ok_0);
            }
        }
        res
    }
}

/// No line is refused for the shape of its argument: a bad argument is a bad
/// number, and is reported as one.
pub proof fn lemma_never_invalid_argument(line: Seq<char>)
    ensures
        !(InvocView::parse(line) matches Err(ParseStatementError::InvalidArgument)),
{
}

/// No line is read as an instruction whose operand is the placeholder.
pub proof fn lemma_never_placeholder(line: Seq<char>)
    ensures
        InvocView::parse(line) matches Ok(invoc) ==> !(invoc.spec_arg() matches Some(
            ArgumentView::Placeholder,
        )),
{
}

/// A word of three capital letters is plain: it holds no whitespace and no
/// colon, and putting it in capitals changes nothing.
pub proof fn lemma_capitals(m: Seq<char>)
    requires
        m.len() == 3,
        forall|i: int| 0 <= i < 3 ==> 'A' <= #[trigger] m[i] && m[i] <= 'Z',
    ensures
        is_word(m),
        !m.contains(':'),
        m.last() != ':',
        uppercase(m) == m,
{
}

/// The mnemonic of an instruction is a word of three capital letters, and it
/// is recognized as the mnemonic of that instruction. The definition of a
/// label, which has no mnemonic in a line, is left out.
pub proof fn lemma_mnemonic_is_recognized<T: StatementInvocBackend>(s: StatementInvocBase<T>)
    requires
        !(s is Label),
    ensures
        s.spec_mnemonic().len() == 3,
        forall|i: int|
            0 <= i < 3 ==> 'A' <= #[trigger] s.spec_mnemonic()[i] && s.spec_mnemonic()[i] <= 'Z',
        StatementInvocBase::<ParserWoArg>::spec_recognize(s.spec_mnemonic()) matches Some(shape)
            && shape.spec_mnemonic() == s.spec_mnemonic(),
{
    reveal_strlit("LDA");
    reveal_strlit("LDB");
    reveal_strlit("MOV");
    reveal_strlit("MAB");
    reveal_strlit("ADD");
    reveal_strlit("SUB");
    reveal_strlit("AND");
    reveal_strlit("NOT");
    reveal_strlit("JMP");
    reveal_strlit("JPS");
    reveal_strlit("JPO");
    reveal_strlit("CAL");
    reveal_strlit("RET");
    reveal_strlit("RRA");
    reveal_strlit("RLA");
    reveal_strlit("HLT");
    reveal_strlit("NOP");
    reveal_strlit("DEF");
}

} // verus!
