//! The agent's error type, shared by its tools.

use vstd::prelude::*;
use crate::text::owned;

verus! {

/// `std::io::Error`, carried through unchanged.
#[verifier::external_type_specification]
#[verifier::external_body]
pub struct ExIoError(std::io::Error);

/// Calls `ToString::to_string` on an `std::io::Error`.  The text comes from
/// the operating system and is not stated.
#[verifier::external_body]
pub(crate) fn io_error_text(e: &std::io::Error) -> String {
    e.to_string()
}

/// The prefix of the text of an I/O failure.
pub const IO_ERROR_PREFIX: &'static str = "IO 错误: ";

/// The text of an I/O failure whose own text is `detail`.
pub fn io_message(detail: &str) -> (r: String)
    ensures
        r@ == IO_ERROR_PREFIX@ + detail@,
{
    let mut r = owned(IO_ERROR_PREFIX);
    r.append(detail);
    r
}

/// A failure of one of the agent's tools.
pub enum AgentError {
    Io(std::io::Error),
    Other(String),
}

impl AgentError {
    /// The text of the error: `IO 错误: ` and the I/O error's text (made
    /// by `io_message`), or the message itself.  The I/O error's text comes
    /// from the operating system and is not stated.
    pub fn message(&self) -> (r: String)
        ensures
            match self {
                AgentError::Io(_) => exists|detail: Seq<char>| r@ == IO_ERROR_PREFIX@ + detail,
                AgentError::Other(m) => r@ == m@,
            },
    {
        match self {
            AgentError::Io(e) => io_message(io_error_text(e).as_str()),
            AgentError::Other(m) => owned(m.as_str()),
        }
    }
}

} // verus!
