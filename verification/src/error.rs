//! What can go wrong when a line is parsed.

use vstd::prelude::*;

verus! {

/// Why a piece of text is not a 16-bit unsigned decimal number.
#[derive(Clone, Copy, Debug, PartialEq, Eq)]
pub enum IntegerError {
    /// The text is empty.
    Empty,
    /// A character is not a decimal digit, or a sign stands alone.
    InvalidDigit,
    /// The number does not fit in 16 bits.
    PosOverflow,
}

/// Why a line is not a statement.
#[derive(Clone, Debug, PartialEq, Eq)]
pub enum ParseStatementError {
    /// The line is too short to be any statement.
    TooShort,
    /// A mnemonic that takes no argument was given one.
    UnexpectedArgument,
    /// A mnemonic that takes an argument was given none.
    ArgumentNotFound,
    /// The argument has the wrong shape. No line is rejected with this today.
    InvalidArgument,
    /// The line has more than two words; the number of words is attached.
    TooManyTokens(usize),
    /// The first word is no known mnemonic.
    UnknownCommand,
    /// A label stands where none is allowed.
    InlineLabel,
    /// A number in the argument could not be read.
    Integer(IntegerError),
}

} // verus!
