//! What holds of the grammar: which instructions survive being written and
//! read back, and how the number of words is held against the mnemonic.

use vstd::prelude::*;
use vstd::utf8::is_ascii_chars;
use crate::argument::ArgumentView;
use crate::decimal::{
    decimal_text, is_digit, lemma_decimal_round_trip, lemma_decimal_text_digits,
};
use crate::error::{IntegerError, ParseStatementError};
use crate::parser::{lemma_capitals, lemma_mnemonic_is_recognized};
use crate::statement::{
    lemma_same_mnemonic, InvocView, ParserWoArg, StatementInvocBackend, StatementInvocBase,
};
use crate::text::{
    ascii_upper, is_word, lemma_tokens_are_words, lemma_tokens_of_first_word,
    lemma_tokens_of_pair, lemma_tokens_of_word, tokens, uppercase, white_space,
};

verus! {

impl ArgumentView {
    /// Whether the operand, written as a word, is read back as itself: a
    /// number is; a label is if its name is not empty and does not begin with
    /// `@` or `$`; the placeholder is not.
    pub open spec fn is_readable(self) -> bool {
        match self {
            ArgumentView::Absolute(_) => true,
            ArgumentView::IdConst(_) => true,
            ArgumentView::Label(name) => name.len() > 0 && name[0] != '@' && name[0] != '$',
            ArgumentView::Placeholder => false,
        }
    }

    /// Whether the operand can stand in a line: it is read back as itself, it
    /// is one word, and it does not end in a colon.
    pub open spec fn fits_line(self) -> bool {
        &&& self.is_readable()
        &&& is_word(self.text())
        &&& self.text().last() != ':'
    }
}

impl StatementInvocBase<ArgumentView> {
    /// Whether the instruction, written as a line, is read back as itself.
    /// The definition of a label needs a name that is not empty; an operand
    /// has to fit in a line; any other instruction always is.
    pub open spec fn is_readable(self) -> bool {
        match self {
            StatementInvocBase::Label(name) => name.len() > 0,
            _ => match self.spec_arg() {
                Some(a) => a.fits_line(),
                None => true,
            },
        }
    }
}

/// A number written as an operand is one word of a sigil and digits.
pub proof fn lemma_number_text(sigil: char, n: u16)
    requires
        sigil == '@' || sigil == '$',
    ensures
        is_word(seq![sigil] + decimal_text(n as nat)),
        (seq![sigil] + decimal_text(n as nat)).last() != ':',
        (seq![sigil] + decimal_text(n as nat)).len() >= 2,
        (seq![sigil] + decimal_text(n as nat)).skip(1) == decimal_text(n as nat),
{
    let d = decimal_text(n as nat);
    let t = seq![sigil] + d;
    lemma_decimal_text_digits(n as nat);
    assert forall|i: int| 0 <= i < t.len() implies !white_space(#[trigger] t[i]) by {
        if i > 0 {
            assert(is_digit(d[i - 1]));
        }
    }
    assert(is_digit(d.last()));
}

/// An operand that is written and read back is the same operand, if and only
/// if it is readable.
pub proof fn lemma_argument_round_trip(a: ArgumentView)
    ensures
        a.text().len() > 0 ==> (ArgumentView::parse(a.text()) == Ok::<ArgumentView, IntegerError>(a)
            <==> a.is_readable()),
        a.is_readable() ==> a.text().len() > 0,
{
    match a {
        ArgumentView::Absolute(n) => {
            lemma_number_text('@', n);
            lemma_decimal_round_trip(n);
        },
        ArgumentView::IdConst(n) => {
            lemma_number_text('$', n);
            lemma_decimal_round_trip(n);
        },
        ArgumentView::Label(_) => {},
        ArgumentView::Placeholder => {
            assert(!is_digit(a.text().skip(1)[0]));
        },
    }
}

/// Writing an instruction and reading the line back gives the instruction
/// again, if and only if the instruction is readable.
pub proof fn theorem_round_trip(s: InvocView)
    ensures
        InvocView::parse(s.text()) == Ok::<InvocView, ParseStatementError>(s) <==> s.is_readable(),
{
    let line = s.text();
    match s {
        StatementInvocBase::Label(name) => {
            assert(line.drop_last() == name);
        },
        StatementInvocBase::DEF(n) => {
            let m = s.spec_mnemonic();
            let d = decimal_text(n as nat);
            lemma_mnemonic_is_recognized(s);
            lemma_capitals(m);
            lemma_decimal_text_digits(n as nat);
            lemma_decimal_round_trip(n);
            assert(is_word(d) && d.last() != ':') by {
                assert(is_digit(d.last()));
            }
            lemma_tokens_of_pair(m, d);
            let shape = StatementInvocBase::<ParserWoArg>::spec_recognize(m)->Some_0;
            lemma_same_mnemonic(shape, s);
        },
        _ => {
            let m = s.spec_mnemonic();
            lemma_mnemonic_is_recognized(s);
            lemma_capitals(m);
            let shape = StatementInvocBase::<ParserWoArg>::spec_recognize(m)->Some_0;
            lemma_same_mnemonic(shape, s);
            match s.spec_arg() {
                None => {
                    lemma_tokens_of_word(m);
                },
                Some(a) => {
                    let t = a.text();
                    lemma_argument_round_trip(a);
                    if a.fits_line() {
                        lemma_tokens_of_pair(m, t);
                    } else {
                        lemma_unfit_operand(s, a);
                    }
                },
            }
        },
    }
}

/// An instruction whose operand does not fit in a line is not read back.
proof fn lemma_unfit_operand(s: InvocView, a: ArgumentView)
    requires
        s.spec_arg() == Some(a),
        !a.fits_line(),
    ensures
        InvocView::parse(s.text()) != Ok::<InvocView, ParseStatementError>(s),
{
    let line = s.text();
    let toks = tokens(line);
    lemma_tokens_are_words(line);
    lemma_argument_round_trip(a);
    if InvocView::parse(line) == Ok::<InvocView, ParseStatementError>(s) {
        // The line does not end in a colon, and its second word reads as `a`.
        let shape = StatementInvocBase::<ParserWoArg>::spec_recognize(
            uppercase(toks[0]),
        )->Some_0;
        assert(shape.resolve(if toks.len() == 2 {
            Some(toks[1])
        } else {
            None
        }) == Ok::<InvocView, ParseStatementError>(s));
        assert(ArgumentView::parse(toks[1]) == Ok::<ArgumentView, IntegerError>(a));
        match a {
            ArgumentView::Label(name) => {
                // A label is read from the word as it stands, so `a` fits.
                assert(name == toks[1]);
                assert(name.last() == line.last());
            },
            ArgumentView::Absolute(n) => {
                lemma_number_text('@', n);
            },
            ArgumentView::IdConst(n) => {
                lemma_number_text('$', n);
            },
            ArgumentView::Placeholder => {},
        }
        assert(false);
    }
}

/// `a` and `b` are the same ASCII text but for the case of their letters.
pub open spec fn same_but_case(a: Seq<char>, b: Seq<char>) -> bool {
    &&& a.len() == b.len()
    &&& is_ascii_chars(a)
    &&& forall|i: int| 0 <= i < a.len() ==> ascii_upper(#[trigger] a[i]) == ascii_upper(b[i])
}

/// The case of the letters of the first word does not matter: two lines that
/// differ in nothing else are read as the same instruction, or refused with
/// the same error. Lines that define a label are left out, for there the
/// first word is part of the name.
pub proof fn theorem_case_insensitive(
    lead: Seq<char>,
    first: Seq<char>,
    other: Seq<char>,
    rest: Seq<char>,
)
    requires
        forall|i: int| 0 <= i < lead.len() ==> white_space(#[trigger] lead[i]),
        first.len() > 0,
        is_word(first),
        same_but_case(first, other),
        rest.len() == 0 || white_space(rest[0]),
        !((lead + first + rest).len() >= 2 && (lead + first + rest).last() == ':'),
    ensures
        InvocView::parse(lead + first + rest) == InvocView::parse(lead + other + rest),
{
    let l1 = lead + first + rest;
    let l2 = lead + other + rest;
    let n = first.len() as int;
    // Where the two words differ, both hold a letter: colons, whitespace and
    // characters beyond ASCII stand at the same places in both.
    assert forall|i: int| 0 <= i < n implies (first[i] == ':' <==> #[trigger] other[i] == ':')
        && (white_space(first[i]) <==> white_space(other[i])) && other[i] <= '\u{7f}' by {
        assert(ascii_upper(first[i]) == ascii_upper(other[i]));
    }
    assert(uppercase(first) == uppercase(other));
    assert(first.contains(':') <==> other.contains(':')) by {
        if first.contains(':') {
            let i = choose|i: int| 0 <= i < n && first[i] == ':';
            assert(other[i] == ':');
        }
        if other.contains(':') {
            let i = choose|i: int| 0 <= i < n && other[i] == ':';
            assert(first[i] == ':');
        }
    }
    // The two lines have the same words but for the first, the same length,
    // and both end in a colon or neither does.
    lemma_tokens_of_first_word(lead, first, rest);
    lemma_tokens_of_first_word(lead, other, rest);
    assert(l1.len() == l2.len());
    assert(l1.last() == ':' <==> l2.last() == ':');
}

/// An instruction that takes no argument is refused with one: its mnemonic
/// followed by a blank and a word `x` that does not end in a colon is an
/// unexpected argument.
pub proof fn theorem_unexpected_argument<T: StatementInvocBackend>(
    s: StatementInvocBase<T>,
    x: Seq<char>,
)
    requires
        !s.spec_cmd().has_arg,
        x.len() > 0,
        is_word(x),
        x.last() != ':',
    ensures
        InvocView::parse(s.spec_cmd().mnemonic + seq![' '] + x) == Err::<
            InvocView,
            ParseStatementError,
        >(ParseStatementError::UnexpectedArgument),
{
    let m = s.spec_mnemonic();
    let line = m + seq![' '] + x;
    lemma_mnemonic_is_recognized(s);
    lemma_capitals(m);
    lemma_tokens_of_pair(m, x);
    let shape = StatementInvocBase::<ParserWoArg>::spec_recognize(m)->Some_0;
    lemma_same_mnemonic(shape, s);
}

/// An instruction that takes an argument is refused without one: its
/// mnemonic alone is a missing argument. The definition of a label is left
/// out, for it is not written with a mnemonic.
pub proof fn theorem_argument_not_found<T: StatementInvocBackend>(s: StatementInvocBase<T>)
    requires
        s.spec_cmd().has_arg,
        !(s is Label),
    ensures
        InvocView::parse(s.spec_cmd().mnemonic) == Err::<InvocView, ParseStatementError>(
            ParseStatementError::ArgumentNotFound,
        ),
{
    let m = s.spec_mnemonic();
    lemma_mnemonic_is_recognized(s);
    lemma_capitals(m);
    lemma_tokens_of_word(m);
    let shape = StatementInvocBase::<ParserWoArg>::spec_recognize(m)->Some_0;
    lemma_same_mnemonic(shape, s);
}

} // verus!
