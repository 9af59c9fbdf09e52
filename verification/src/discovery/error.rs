//! Errors of the discovery module.

use vstd::prelude::*;

verus! {

broadcast use vstd::string::to_string_from_display_ensures_for_str;

/// Errors of discovery.
#[derive(Debug)]
pub enum Error {
    Mdns(String),
    NotStarted,
    InvalidService(String),
    RegistrationFailed(String),
}

/// The message of an error.
pub open spec fn error_message(e: Error) -> Seq<char> {
    match e {
        Error::Mdns(m) => "mDNS error: "@ + m@,
        Error::NotStarted => "Service not started"@,
        Error::InvalidService(m) => "Invalid service info: "@ + m@,
        Error::RegistrationFailed(m) => "Service registration failed: "@ + m@,
    }
}

impl Error {
    /// The error's message.
    pub fn to_string(&self) -> (r: String)
        ensures
            r@ == error_message(*self),
    {
        match self {
            Error::Mdns(m) => crate::text::prefixed("mDNS error: ", m),
            Error::NotStarted => "Service not started".to_string(),
            Error::InvalidService(m) => crate::text::prefixed("Invalid service info: ", m),
            Error::RegistrationFailed(m) => crate::text::prefixed("Service registration failed: ", m),
        }
    }
}

} // verus!
