//! Single lines of LC1 assembly: the instructions and their operands as
//! typed values, read from text and written back to it.

pub mod argument;
pub mod decimal;
pub mod error;
pub mod grammar;
pub mod parser;
pub mod statement;
pub mod text;

pub use argument::Argument;
pub use error::{IntegerError, ParseStatementError};
pub use statement::{
    Command, ParserWoArg, Statement, StatementInvoc, StatementInvocBackend, StatementInvocBase,
};
