//! Errors of the file transfer module.

use vstd::prelude::*;

verus! {

broadcast use vstd::string::to_string_from_display_ensures_for_str;

/// Errors of a file transfer.
#[derive(Debug)]
pub enum Error {
    Io(String),
    Connection(String),
    Protocol(String),
    Serialization(String),
    Rejected(String),
    ChecksumMismatch,
    TaskNotFound(String),
    InvalidState(String),
}

/// The message of an error.
pub open spec fn error_message(e: Error) -> Seq<char> {
    match e {
        Error::Io(m) => "IO error: "@ + m@,
        Error::Connection(m) => "Connection error: "@ + m@,
        Error::Protocol(m) => "Protocol error: "@ + m@,
        Error::Serialization(m) => "Serialization error: "@ + m@,
        Error::Rejected(m) => "File rejected: "@ + m@,
        Error::ChecksumMismatch => "Checksum mismatch"@,
        Error::TaskNotFound(m) => "Task not found: "@ + m@,
        Error::InvalidState(m) => "Invalid state: "@ + m@,
    }
}

impl Error {
    /// The error's message.
    pub fn to_string(&self) -> (r: String)
        ensures
            r@ == error_message(*self),
    {
        match self {
            Error::Io(m) => crate::text::prefixed("IO error: ", m),
            Error::Connection(m) => crate::text::prefixed("Connection error: ", m),
            Error::Protocol(m) => crate::text::prefixed("Protocol error: ", m),
            Error::Serialization(m) => crate::text::prefixed("Serialization error: ", m),
            Error::Rejected(m) => crate::text::prefixed("File rejected: ", m),
            Error::ChecksumMismatch => "Checksum mismatch".to_string(),
            Error::TaskNotFound(m) => crate::text::prefixed("Task not found: ", m),
            Error::InvalidState(m) => crate::text::prefixed("Invalid state: ", m),
        }
    }
}

} // verus!
