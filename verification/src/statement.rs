//! Instructions: the mnemonics, what each of them carries, and the statement
//! built from one.

use vstd::prelude::*;
use vstd::string::StringExecFns;
use crate::argument::{Argument, ArgumentView};
use crate::decimal::{append_decimal, decimal_text};

verus! {

/// How the payloads of an instruction are represented. The type itself is the
/// operand of an ordinary instruction.
pub trait StatementInvocBackend {
    /// What `DEF` carries.
    type DefCode;

    /// What the definition of a label carries.
    type Label;
}

/// An instruction or pseudo-operation over the representation `T`.
///
/// Nine instructions take an operand and eight take none. `DEF` and `Label`
/// are pseudo-operations: a number in place of an instruction, and the
/// definition of a label.
#[derive(Clone, Debug, PartialEq, Eq)]
pub enum StatementInvocBase<T: StatementInvocBackend> {
    LDA(T),
    LDB(T),
    MOV(T),
    MAB,
    ADD,
    SUB,
    AND,
    NOT,
    JMP(T),
    JPS(T),
    JPO(T),
    CAL(T),
    RET,
    RRA(T),
    RLA(T),
    HLT,
    NOP,
    DEF(T::DefCode),
    Label(T::Label),
}

/// Resolved instructions: operands are arguments, `DEF` carries a number and
/// a label its name.
impl StatementInvocBackend for Argument {
    type DefCode = u16;

    type Label = String;
}

/// Resolved instructions as mathematical values.
impl StatementInvocBackend for ArgumentView {
    type DefCode = u16;

    type Label = Seq<char>;
}

/// The operand of an instruction whose mnemonic is known and whose argument
/// has not been read yet.
#[derive(Clone, Copy, Debug, PartialEq, Eq)]
pub struct ParserWoArg;

/// Recognized instructions: operands and the payload of `DEF` are still to
/// be read, a label has its name.
impl StatementInvocBackend for ParserWoArg {
    type DefCode = ParserWoArg;

    type Label = String;
}

/// A resolved instruction.
pub type StatementInvoc = StatementInvocBase<Argument>;

/// A resolved instruction as a mathematical value.
pub type InvocView = StatementInvocBase<ArgumentView>;

/// An instruction together with the mark that tells an optimizer whether it
/// may touch it.
#[derive(Clone, Debug, PartialEq, Eq)]
pub struct Statement {
    pub invoc: StatementInvoc,
    pub optimizable: bool,
}

/// What is fixed for a mnemonic.
#[derive(Copy, Clone, Debug, PartialEq, Eq)]
pub struct Command {
    /// The mnemonic; for the definition of a label, the word `Label`.
    pub mnemonic: &'static str,
    /// Whether the machine executes it; false for pseudo-operations.
    pub is_real: bool,
    /// Whether it carries anything.
    pub has_arg: bool,
}

/// A `Command` as a mathematical value.
pub ghost struct CommandView {
    pub mnemonic: Seq<char>,
    pub is_real: bool,
    pub has_arg: bool,
}

impl View for Command {
    type V = CommandView;

    open spec fn view(&self) -> CommandView {
        CommandView { mnemonic: self.mnemonic@, is_real: self.is_real, has_arg: self.has_arg }
    }
}

impl View for StatementInvocBase<Argument> {
    type V = InvocView;

    open spec fn view(&self) -> InvocView {
        self.spec_map(|a: Argument| a@, |n: u16| n, |name: String| name@)
    }
}

impl StatementInvoc {
    /// Marks the instruction as open to optimization or closed to it.
    pub fn into_statement(self, optimizable: bool) -> (r: Statement)
        ensures
            r.invoc == self,
            r.optimizable == optimizable,
    {
        Statement { invoc: self, optimizable }
    }

    /// The instruction as it is written in a line.
    pub fn to_string(&self) -> (s: String)
        ensures
            s@ == self@.text(),
    {
        proof {
            reveal_strlit("DEF ");
            reveal_strlit("DEF");
            reveal_strlit(":");
            reveal_strlit(" ");
        }
        match self {
            StatementInvocBase::DEF(n) => {
                let mut s = String::from_str("DEF ");
                append_decimal(&mut s, *n);
                s
            },
            StatementInvocBase::Label(name) => {
                let mut s = name.clone();
                s.append(":");
                s
            },
            _ => {
                let mut s = String::from_str(self.cmd2str());
                match self.arg() {
                    Some(a) => {
                        s.append(" ");
                        s.append(a.to_string().as_str());
                    },
                    None => {},
                }
                s
            },
        }
    }
}

impl StatementInvocBase<ArgumentView> {
    /// The instruction as it is written in a line: `DEF` and its number, a
    /// label and a colon, or the mnemonic and, where there is one, the
    /// operand behind a blank.
    pub open spec fn text(self) -> Seq<char> {
        match self {
            StatementInvocBase::DEF(n) => self.spec_cmd().mnemonic + seq![' '] + decimal_text(n as nat),
            StatementInvocBase::Label(name) => name + seq![':'],
            _ => match self.spec_arg() {
                Some(a) => self.spec_cmd().mnemonic + seq![' '] + a.text(),
                None => self.spec_cmd().mnemonic,
            },
        }
    }
}

/// Calls `ef` and returns the error, if it returned one.
fn failure_of<E, EF: FnOnce() -> Result<(), E>>(ef: EF) -> (r: Option<E>)
    requires
        ef.requires(()),
    ensures
        match r {
            None => ef.ensures((), Ok(())),
            Some(e) => ef.ensures((), Err(e)),
        },
{
    let res = ef();
    match res {
        Ok(unit) => {
            assert(unit == ());
            None
        },
        Err(e) => Some(e),
    }
}

impl<T: StatementInvocBackend> StatementInvocBase<T> {
    /// The operand, where the instruction is an ordinary one that has one.
    pub open spec fn spec_arg(self) -> Option<T> {
        match self {
            Self::LDA(x) => Some(x),
            Self::LDB(x) => Some(x),
            Self::MOV(x) => Some(x),
            Self::JMP(x) => Some(x),
            Self::JPS(x) => Some(x),
            Self::JPO(x) => Some(x),
            Self::CAL(x) => Some(x),
            Self::RRA(x) => Some(x),
            Self::RLA(x) => Some(x),
            _ => None,
        }
    }

    /// The payload of `DEF`.
    pub open spec fn spec_def(self) -> Option<T::DefCode> {
        match self {
            Self::DEF(x) => Some(x),
            _ => None,
        }
    }

    /// The payload of the definition of a label.
    pub open spec fn spec_label(self) -> Option<T::Label> {
        match self {
            Self::Label(x) => Some(x),
            _ => None,
        }
    }

    /// The instruction of the same mnemonic over another representation, its
    /// payload sent through the function that is meant for it.
    pub open spec fn spec_map<U: StatementInvocBackend>(
        self,
        f: spec_fn(T) -> U,
        df: spec_fn(T::DefCode) -> U::DefCode,
        lf: spec_fn(T::Label) -> U::Label,
    ) -> StatementInvocBase<U> {
        match self {
            Self::LDA(x) => StatementInvocBase::LDA(f(x)),
            Self::LDB(x) => StatementInvocBase::LDB(f(x)),
            Self::MOV(x) => StatementInvocBase::MOV(f(x)),
            Self::MAB => StatementInvocBase::MAB,
            Self::ADD => StatementInvocBase::ADD,
            Self::SUB => StatementInvocBase::SUB,
            Self::AND => StatementInvocBase::AND,
            Self::NOT => StatementInvocBase::NOT,
            Self::JMP(x) => StatementInvocBase::JMP(f(x)),
            Self::JPS(x) => StatementInvocBase::JPS(f(x)),
            Self::JPO(x) => StatementInvocBase::JPO(f(x)),
            Self::CAL(x) => StatementInvocBase::CAL(f(x)),
            Self::RET => StatementInvocBase::RET,
            Self::RRA(x) => StatementInvocBase::RRA(f(x)),
            Self::RLA(x) => StatementInvocBase::RLA(f(x)),
            Self::HLT => StatementInvocBase::HLT,
            Self::NOP => StatementInvocBase::NOP,
            Self::DEF(x) => StatementInvocBase::DEF(df(x)),
            Self::Label(x) => StatementInvocBase::Label(lf(x)),
        }
    }

    /// The same instruction with the operand replaced by `a`; the
    /// instruction itself where it has no operand.
    pub open spec fn with_arg(self, a: T) -> Self {
        self.spec_map(|x: T| a, |d: T::DefCode| d, |l: T::Label| l)
    }

    /// The mnemonic of the instruction.
    pub open spec fn spec_mnemonic(self) -> Seq<char> {
        match self {
            Self::LDA(_) => "LDA"@,
            Self::LDB(_) => "LDB"@,
            Self::MOV(_) => "MOV"@,
            Self::MAB => "MAB"@,
            Self::ADD => "ADD"@,
            Self::SUB => "SUB"@,
            Self::AND => "AND"@,
            Self::NOT => "NOT"@,
            Self::JMP(_) => "JMP"@,
            Self::JPS(_) => "JPS"@,
            Self::JPO(_) => "JPO"@,
            Self::CAL(_) => "CAL"@,
            Self::RET => "RET"@,
            Self::RRA(_) => "RRA"@,
            Self::RLA(_) => "RLA"@,
            Self::HLT => "HLT"@,
            Self::NOP => "NOP"@,
            Self::DEF(_) => "DEF"@,
            Self::Label(_) => "Label"@,
        }
    }

    /// What is fixed for the mnemonic of the instruction. `DEF` and the
    /// definition of a label are the two pseudo-operations; an instruction
    /// has an argument where it carries an operand, a number or a name.
    pub open spec fn spec_cmd(self) -> CommandView {
        CommandView {
            mnemonic: self.spec_mnemonic(),
            is_real: !(self is DEF || self is Label),
            has_arg: self.spec_arg() is Some || self is DEF || self is Label,
        }
    }

    /// Sends the payload through the function that is meant for it and keeps
    /// the mnemonic: `f` for an operand, `df` for the number of `DEF`, `lf`
    /// for the name of a label, and `ef` where the instruction carries
    /// nothing. The one error that the function returned is handed on.
    pub fn map_or_fail<U, E, F, DF, LF, EF>(self, f: F, df: DF, lf: LF, ef: EF) -> (res: Result<
        StatementInvocBase<U>,
        E,
    >) where
        U: StatementInvocBackend,
        F: FnOnce(T) -> Result<U, E>,
        DF: FnOnce(T::DefCode) -> Result<U::DefCode, E>,
        LF: FnOnce(T::Label) -> Result<U::Label, E>,
        EF: FnOnce() -> Result<(), E>,

        requires
            self.spec_arg() matches Some(x) ==> f.requires((x,)),
            self.spec_def() matches Some(x) ==> df.requires((x,)),
            self.spec_label() matches Some(x) ==> lf.requires((x,)),
            !self.spec_cmd().has_arg ==> ef.requires(()),
        ensures
            res matches Ok(out) ==> {
                &&& out.spec_cmd() == self.spec_cmd()
                &&& self.spec_arg() matches Some(x) ==> out.spec_arg() matches Some(y)
                    && f.ensures((x,), Ok(y))
                &&& self.spec_def() matches Some(x) ==> out.spec_def() matches Some(y)
                    && df.ensures((x,), Ok(y))
                &&& self.spec_label() matches Some(x) ==> out.spec_label() matches Some(y)
                    && lf.ensures((x,), Ok(y))
                &&& !self.spec_cmd().has_arg ==> ef.ensures((), Ok(()))
            },
            res matches Err(e) ==> {
                &&& self.spec_arg() matches Some(x) ==> f.ensures((x,), Err(e))
                &&& self.spec_def() matches Some(x) ==> df.ensures((x,), Err(e))
                &&& self.spec_label() matches Some(x) ==> lf.ensures((x,), Err(e))
                &&& !self.spec_cmd().has_arg ==> ef.ensures((), Err(e))
            },
    {
        match self {
            Self::LDA(x) => match f(x) {
                Ok(y) => Ok(StatementInvocBase::LDA(y)),
                Err(e) => Err(e),
            },
            Self::LDB(x) => match f(x) {
                Ok(y) => Ok(StatementInvocBase::LDB(y)),
                Err(e) => Err(e),
            },
            Self::MOV(x) => match f(x) {
                Ok(y) => Ok(StatementInvocBase::MOV(y)),
                Err(e) => Err(e),
            },
            Self::MAB => match failure_of(ef) {
                None => Ok(StatementInvocBase::MAB),
                Some(e) => Err(e),
            },
            Self::ADD => match failure_of(ef) {
                None => Ok(StatementInvocBase::ADD),
                Some(e) => Err(e),
            },
            Self::SUB => match failure_of(ef) {
                None => Ok(StatementInvocBase::SUB),
                Some(e) => Err(e),
            },
            Self::AND => match failure_of(ef) {
                None => Ok(StatementInvocBase::AND),
                Some(e) => Err(e),
            },
            Self::NOT => match failure_of(ef) {
                None => Ok(StatementInvocBase::NOT),
                Some(e) => Err(e),
            },
            Self::JMP(x) => match f(x) {
                Ok(y) => Ok(StatementInvocBase::JMP(y)),
                Err(e) => Err(e),
            },
            Self::JPS(x) => match f(x) {
                Ok(y) => Ok(StatementInvocBase::JPS(y)),
                Err(e) => Err(e),
            },
            Self::JPO(x) => match f(x) {
                Ok(y) => Ok(StatementInvocBase::JPO(y)),
                Err(e) => Err(e),
            },
            Self::CAL(x) => match f(x) {
                Ok(y) => Ok(StatementInvocBase::CAL(y)),
                Err(e) => Err(e),
            },
            Self::RET => match failure_of(ef) {
                None => Ok(StatementInvocBase::RET),
                Some(e) => Err(e),
            },
            Self::RRA(x) => match f(x) {
                Ok(y) => Ok(StatementInvocBase::RRA(y)),
                Err(e) => Err(e),
            },
            Self::RLA(x) => match f(x) {
                Ok(y) => Ok(StatementInvocBase::RLA(y)),
                Err(e) => Err(e),
            },
            Self::HLT => match failure_of(ef) {
                None => Ok(StatementInvocBase::HLT),
                Some(e) => Err(e),
            },
            Self::NOP => match failure_of(ef) {
                None => Ok(StatementInvocBase::NOP),
                Some(e) => Err(e),
            },
            Self::DEF(x) => match df(x) {
                Ok(y) => Ok(StatementInvocBase::DEF(y)),
                Err(e) => Err(e),
            },
            Self::Label(x) => match lf(x) {
                Ok(y) => Ok(StatementInvocBase::Label(y)),
                Err(e) => Err(e),
            },
        }
    }

    /// The operand, where the instruction is an ordinary one that has one.
    pub fn arg(&self) -> (r: Option<&T>)
        ensures
            match r {
                Some(x) => self.spec_arg() == Some(*x),
                None => self.spec_arg() is None,
            },
    {
        match self {
            Self::LDA(x)
            | StatementInvocBase::LDB(x)
            | StatementInvocBase::MOV(x)
            | StatementInvocBase::JMP(x)
            | StatementInvocBase::JPS(x)
            | StatementInvocBase::JPO(x)
            | StatementInvocBase::CAL(x)
            | StatementInvocBase::RRA(x)
            | StatementInvocBase::RLA(x) => Some(x),
            _ => None,
        }
    }

    /// The operand, to be changed in place. Whatever the caller leaves in it
    /// is the operand of the instruction afterwards; nothing else changes.
    pub fn arg_mut(&mut self) -> (r: Option<&mut T>)
        ensures
            match r {
                Some(x) => old(self).spec_arg() == Some(*x) && *final(self) == old(self).with_arg(
                    *final(x),
                ),
                None => old(self).spec_arg() is None && *final(self) == *old(self),
            },
    {
        match self {
            Self::LDA(x) => Some(x),
            Self::LDB(x) => Some(x),
            Self::MOV(x) => Some(x),
            Self::JMP(x) => Some(x),
            Self::JPS(x) => Some(x),
            Self::JPO(x) => Some(x),
            Self::CAL(x) => Some(x),
            Self::RRA(x) => Some(x),
            Self::RLA(x) => Some(x),
            _ => None,
        }
    }

    /// What is fixed for the mnemonic of the instruction.
    pub fn get_cmd(&self) -> (c: Command)
        ensures
            c@ == self.spec_cmd(),
    {
        match self {
            Self::LDA(_) => Command { mnemonic: "LDA", is_real: true, has_arg: true },
            Self::LDB(_) => Command { mnemonic: "LDB", is_real: true, has_arg: true },
            Self::MOV(_) => Command { mnemonic: "MOV", is_real: true, has_arg: true },
            Self::MAB => Command { mnemonic: "MAB", is_real: true, has_arg: false },
            Self::ADD => Command { mnemonic: "ADD", is_real: true, has_arg: false },
            Self::SUB => Command { mnemonic: "SUB", is_real: true, has_arg: false },
            Self::AND => Command { mnemonic: "AND", is_real: true, has_arg: false },
            Self::NOT => Command { mnemonic: "NOT", is_real: true, has_arg: false },
            Self::JMP(_) => Command { mnemonic: "JMP", is_real: true, has_arg: true },
            Self::JPS(_) => Command { mnemonic: "JPS", is_real: true, has_arg: true },
            Self::JPO(_) => Command { mnemonic: "JPO", is_real: true, has_arg: true },
            Self::CAL(_) => Command { mnemonic: "CAL", is_real: true, has_arg: true },
            Self::RET => Command { mnemonic: "RET", is_real: true, has_arg: false },
            Self::RRA(_) => Command { mnemonic: "RRA", is_real: true, has_arg: true },
            Self::RLA(_) => Command { mnemonic: "RLA", is_real: true, has_arg: true },
            Self::HLT => Command { mnemonic: "HLT", is_real: true, has_arg: false },
            Self::NOP => Command { mnemonic: "NOP", is_real: true, has_arg: false },
            Self::DEF(_) => Command { mnemonic: "DEF", is_real: false, has_arg: true },
            Self::Label(_) => Command { mnemonic: "Label", is_real: false, has_arg: true },
        }
    }

    /// The mnemonic of the instruction.
    pub fn cmd2str(&self) -> (r: &'static str)
        ensures
            r@ == self.spec_cmd().mnemonic,
    {
        self.get_cmd().mnemonic
    }

    /// Whether the machine executes the instruction.
    pub fn is_cmd_real(&self) -> (r: bool)
        ensures
            r == self.spec_cmd().is_real,
    {
        self.get_cmd().is_real
    }

    /// Whether the instruction carries anything.
    pub fn has_arg(self) -> (r: bool)
        ensures
            r == self.spec_cmd().has_arg,
    {
        self.get_cmd().has_arg
    }

    /// Moves the instruction out and leaves `NOP` in its place.
    pub fn take(&mut self) -> (r: Self)
        ensures
            r == *old(self),
            *final(self) is NOP,
    {
        let mut out = Self::NOP;
        core::mem::swap(self, &mut out);
        out
    }
}

/// Two instructions that have the same mnemonic are of the same kind,
/// whatever their representations.
pub proof fn lemma_same_mnemonic<T: StatementInvocBackend, U: StatementInvocBackend>(
    a: StatementInvocBase<T>,
    b: StatementInvocBase<U>,
)
    requires
        a.spec_mnemonic() == b.spec_mnemonic(),
    ensures
        a is LDA <==> b is LDA,
        a is LDB <==> b is LDB,
        a is MOV <==> b is MOV,
        a is MAB <==> b is MAB,
        a is ADD <==> b is ADD,
        a is SUB <==> b is SUB,
        a is AND <==> b is AND,
        a is NOT <==> b is NOT,
        a is JMP <==> b is JMP,
        a is JPS <==> b is JPS,
        a is JPO <==> b is JPO,
        a is CAL <==> b is CAL,
        a is RET <==> b is RET,
        a is RRA <==> b is RRA,
        a is RLA <==> b is RLA,
        a is HLT <==> b is HLT,
        a is NOP <==> b is NOP,
        a is DEF <==> b is DEF,
        a is Label <==> b is Label,
{
    // Any two mnemonics differ in one of their first three characters.
    reveal_strlit("LDA");
    assert("LDA"@[0] == 'L' && "LDA"@[1] == 'D' && "LDA"@[2] == 'A');
    reveal_strlit("LDB");
    assert("LDB"@[0] == 'L' && "LDB"@[1] == 'D' && "LDB"@[2] == 'B');
    reveal_strlit("MOV");
    assert("MOV"@[0] == 'M' && "MOV"@[1] == 'O' && "MOV"@[2] == 'V');
    reveal_strlit("MAB");
    assert("MAB"@[0] == 'M' && "MAB"@[1] == 'A' && "MAB"@[2] == 'B');
    reveal_strlit("ADD");
    assert("ADD"@[0] == 'A' && "ADD"@[1] == 'D' && "ADD"@[2] == 'D');
    reveal_strlit("SUB");
    assert("SUB"@[0] == 'S' && "SUB"@[1] == 'U' && "SUB"@[2] == 'B');
    reveal_strlit("AND");
    assert("AND"@[0] == 'A' && "AND"@[1] == 'N' && "AND"@[2] == 'D');
    reveal_strlit("NOT");
    assert("NOT"@[0] == 'N' && "NOT"@[1] == 'O' && "NOT"@[2] == 'T');
    reveal_strlit("JMP");
    assert("JMP"@[0] == 'J' && "JMP"@[1] == 'M' && "JMP"@[2] == 'P');
    reveal_strlit("JPS");
    assert("JPS"@[0] == 'J' && "JPS"@[1] == 'P' && "JPS"@[2] == 'S');
    reveal_strlit("JPO");
    assert("JPO"@[0] == 'J' && "JPO"@[1] == 'P' && "JPO"@[2] == 'O');
    reveal_strlit("CAL");
    assert("CAL"@[0] == 'C' && "CAL"@[1] == 'A' && "CAL"@[2] == 'L');
    reveal_strlit("RET");
    assert("RET"@[0] == 'R' && "RET"@[1] == 'E' && "RET"@[2] == 'T');
    reveal_strlit("RRA");
    assert("RRA"@[0] == 'R' && "RRA"@[1] == 'R' && "RRA"@[2] == 'A');
    reveal_strlit("RLA");
    assert("RLA"@[0] == 'R' && "RLA"@[1] == 'L' && "RLA"@[2] == 'A');
    reveal_strlit("HLT");
    assert("HLT"@[0] == 'H' && "HLT"@[1] == 'L' && "HLT"@[2] == 'T');
    reveal_strlit("NOP");
    assert("NOP"@[0] == 'N' && "NOP"@[1] == 'O' && "NOP"@[2] == 'P');
    reveal_strlit("DEF");
    assert("DEF"@[0] == 'D' && "DEF"@[1] == 'E' && "DEF"@[2] == 'F');
    reveal_strlit("Label");
    assert("Label"@[0] == 'L' && "Label"@[1] == 'a' && "Label"@[2] == 'b');
}

} // verus!
