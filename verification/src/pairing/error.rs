//! Errors of the pairing module.

use vstd::prelude::*;

verus! {

broadcast use vstd::string::to_string_from_display_ensures_for_str;

/// Errors of pairing.
#[derive(Debug)]
pub enum Error {
    ConnectionFailed(String),
    NotInitialized,
    Protocol(String),
    Serialization(String),
    Rejected(String),
    Timeout,
    Security(String),
    NotFound,
}

/// The message of an error.
pub open spec fn error_message(e: Error) -> Seq<char> {
    match e {
        Error::ConnectionFailed(m) => "Connection failed: "@ + m@,
        Error::NotInitialized => "Not initialized"@,
        Error::Protocol(m) => "Protocol error: "@ + m@,
        Error::Serialization(m) => "Serialization error: "@ + m@,
        Error::Rejected(m) => "Pairing rejected: "@ + m@,
        Error::Timeout => "Timeout"@,
        Error::Security(m) => "Security error: "@ + m@,
        Error::NotFound => "Not found"@,
    }
}

impl Error {
    /// The error's message.
    pub fn to_string(&self) -> (r: String)
        ensures
            r@ == error_message(*self),
    {
        match self {
            Error::ConnectionFailed(m) => crate::text::prefixed("Connection failed: ", m),
            Error::NotInitialized => "Not initialized".to_string(),
            Error::Protocol(m) => crate::text::prefixed("Protocol error: ", m),
            Error::Serialization(m) => crate::text::prefixed("Serialization error: ", m),
            Error::Rejected(m) => crate::text::prefixed("Pairing rejected: ", m),
            Error::Timeout => "Timeout".to_string(),
            Error::Security(m) => crate::text::prefixed("Security error: ", m),
            Error::NotFound => "Not found".to_string(),
        }
    }
}

} // verus!
