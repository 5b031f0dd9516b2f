//! The operand of an instruction.

use vstd::prelude::*;
use vstd::string::StringExecFns;
use crate::decimal::{append_decimal, decimal_text, decimal_u16, parse_u16};
use crate::error::IntegerError;

verus! {

/// An operand, as written behind a mnemonic.
#[derive(Clone, Debug, PartialEq, Eq)]
pub enum Argument {
    /// An absolute address, written `@n`.
    Absolute(u16),
    /// An indirect constant, written `$n`.
    IdConst(u16),
    /// A reference to a label, written as the bare name.
    Label(String),
    /// What `take` leaves behind. It is written `@_`, which nothing parses to.
    Placeholder,
}

/// An operand as a mathematical value: the name of a label is a sequence of
/// characters.
pub ghost enum ArgumentView {
    Absolute(u16),
    IdConst(u16),
    Label(Seq<char>),
    Placeholder,
}

impl View for Argument {
    type V = ArgumentView;

    open spec fn view(&self) -> ArgumentView {
        match self {
            Argument::Absolute(n) => ArgumentView::Absolute(*n),
            Argument::IdConst(n) => ArgumentView::IdConst(*n),
            Argument::Label(name) => ArgumentView::Label(name@),
            Argument::Placeholder => ArgumentView::Placeholder,
        }
    }
}

impl ArgumentView {
    /// The character that marks the kind of the operand.
    pub open spec fn sigil(self) -> char {
        match self {
            ArgumentView::Absolute(_) => '@',
            ArgumentView::IdConst(_) => '$',
            ArgumentView::Label(_) => ':',
            ArgumentView::Placeholder => '_',
        }
    }

    /// The name of the kind of the operand.
    pub open spec fn category(self) -> Seq<char> {
        match self {
            ArgumentView::Absolute(_) => "absolute"@,
            ArgumentView::IdConst(_) => "ind.const"@,
            ArgumentView::Label(_) => "label"@,
            ArgumentView::Placeholder => "place.holder"@,
        }
    }

    /// The operand as it is written in a line.
    pub open spec fn text(self) -> Seq<char> {
        match self {
            ArgumentView::Absolute(n) => seq!['@'] + decimal_text(n as nat),
            ArgumentView::IdConst(n) => seq!['$'] + decimal_text(n as nat),
            ArgumentView::Label(name) => name,
            ArgumentView::Placeholder => seq!['@', '_'],
        }
    }

    /// The operand that the word `token` denotes. A leading `@` or `$` makes
    /// the rest a number; any other word is the name of a label.
    pub open spec fn parse(token: Seq<char>) -> Result<ArgumentView, IntegerError>
        recommends
            token.len() > 0,
    {
        if token[0] == '@' {
            match decimal_u16(token.skip(1)) {
                Ok(n) => Ok(ArgumentView::Absolute(n)),
                Err(e) => Err(e),
            }
        } else if token[0] == '$' {
            match decimal_u16(token.skip(1)) {
                Ok(n) => Ok(ArgumentView::IdConst(n)),
                Err(e) => Err(e),
            }
        } else {
            Ok(ArgumentView::Label(token))
        }
    }
}

/// The view of what a fallible function returns: the view of the value, or
/// the error as it is.
pub open spec fn result_view<T: View, E>(r: Result<T, E>) -> Result<T::V, E> {
    match r {
        Ok(v) => Ok(v@),
        Err(e) => Err(e),
    }
}

impl Argument {
    /// The sigil of the operand and the name of its kind.
    pub fn get_type(&self) -> (r: (char, &'static str))
        ensures
            r.0 == self@.sigil(),
            r.1@ == self@.category(),
    {
        match self {
            Argument::Absolute(_) => ('@', "absolute"),
            Argument::IdConst(_) => ('$', "ind.const"),
            Argument::Label(_) => (':', "label"),
            Argument::Placeholder => ('_', "place.holder"),
        }
    }

    /// Moves the operand out and leaves `Placeholder` in its place.
    pub fn take(&mut self) -> (r: Self)
        ensures
            r == *old(self),
            *final(self) == Argument::Placeholder,
    {
        let mut out = Argument::Placeholder;
        core::mem::swap(self, &mut out);
        out
    }

    /// The operand as it is written in a line.
    pub fn to_string(&self) -> (s: String)
        ensures
            s@ == self@.text(),
    {
        proof {
            reveal_strlit("@");
            reveal_strlit("$");
            reveal_strlit("@_");
        }
        match self {
            Argument::Absolute(n) => {
                let mut s = String::from_str("@");
                append_decimal(&mut s, *n);
                s
            },
            Argument::IdConst(n) => {
                let mut s = String::from_str("$");
                append_decimal(&mut s, *n);
                s
            },
            Argument::Label(name) => name.clone(),
            Argument::Placeholder => String::from_str("@_"),
        }
    }

    /// Reads the operand that the word `token` denotes. The first character
    /// alone decides the kind: `@` gives an absolute address or an error, `$`
    /// an indirect constant or an error, and any other a label. No word
    /// gives the placeholder.
    pub fn from_str(token: &str) -> (r: Result<Argument, IntegerError>)
        requires
            token@.len() > 0,
        ensures
            result_view(r) == ArgumentView::parse(token@),
            token@[0] == '@' ==> r is Err || r->Ok_0 is Absolute,
            token@[0] == '$' ==> r is Err || r->Ok_0 is IdConst,
            token@[0] != '@' && token@[0] != '$' ==> r is Ok && r->Ok_0 is Label,
            !(r matches Ok(Argument::Placeholder)),
    {
        let n = token.unicode_len();
        let first = token.get_char(0);
        if first == '@' {
            let digits = token.substring_char(1, n);
            match parse_u16(digits) {
                Ok(v) => Ok(Argument::Absolute(v)),
                Err(e) => Err(e),
            }
        } else if first == '$' {
            let digits = token.substring_char(1, n);
            match parse_u16(digits) {
                Ok(v) => Ok(Argument::IdConst(v)),
                Err(e) => Err(e),
            }
        } else {
            Ok(Argument::Label(token.to_owned()))
        }
    }
}

} // verus!
