//! Errors of the unified API.

use vstd::prelude::*;
use crate::text::io_error_text;

verus! {

broadcast use vstd::string::to_string_from_display_ensures_for_str;

/// Errors of the unified API.
#[derive(Debug)]
pub enum CoreError {
    NotInitialized,
    AlreadyInitialized,
    InitFailed(String),
    Io(String),
    Network(String),
    Protocol(String),
    Security(String),
    StorageFailed(String),
    TransferFailed(String),
    DiscoveryFailed(String),
    PairingFailed(String),
    InvalidState(String),
    Timeout,
    Cancelled,
    Unknown(String),
}

/// The message of an error: a fixed text, or a prefix naming the kind of
/// error followed by the detail it carries.
pub open spec fn error_message(e: CoreError) -> Seq<char> {
    match e {
        CoreError::NotInitialized => "Not initialized"@,
        CoreError::AlreadyInitialized => "Already initialized"@,
        CoreError::InitFailed(m) => "Initialization failed: "@ + m@,
        CoreError::Io(m) => "IO error: "@ + m@,
        CoreError::Network(m) => "Network error: "@ + m@,
        CoreError::Protocol(m) => "Protocol error: "@ + m@,
        CoreError::Security(m) => "Security error: "@ + m@,
        CoreError::StorageFailed(m) => "Storage error: "@ + m@,
        CoreError::TransferFailed(m) => "Transfer error: "@ + m@,
        CoreError::DiscoveryFailed(m) => "Discovery error: "@ + m@,
        CoreError::PairingFailed(m) => "Pairing error: "@ + m@,
        CoreError::InvalidState(m) => "Invalid state: "@ + m@,
        CoreError::Timeout => "Timeout"@,
        CoreError::Cancelled => "Cancelled"@,
        CoreError::Unknown(m) => "Unknown error: "@ + m@,
    }
}

impl CoreError {
    /// The error's message.
    pub fn to_string(&self) -> (r: String)
        ensures
            r@ == error_message(*self),
    {
        let (prefix, m) = match self {
            CoreError::NotInitialized => { return "Not initialized".to_string(); },
            CoreError::AlreadyInitialized => { return "Already initialized".to_string(); },
            CoreError::Timeout => { return "Timeout".to_string(); },
            CoreError::Cancelled => { return "Cancelled".to_string(); },
            CoreError::InitFailed(m) => ("Initialization failed: ", m),
            CoreError::Io(m) => ("IO error: ", m),
            CoreError::Network(m) => ("Network error: ", m),
            CoreError::Protocol(m) => ("Protocol error: ", m),
            CoreError::Security(m) => ("Security error: ", m),
            CoreError::StorageFailed(m) => ("Storage error: ", m),
            CoreError::TransferFailed(m) => ("Transfer error: ", m),
            CoreError::DiscoveryFailed(m) => ("Discovery error: ", m),
            CoreError::PairingFailed(m) => ("Pairing error: ", m),
            CoreError::InvalidState(m) => ("Invalid state: ", m),
            CoreError::Unknown(m) => ("Unknown error: ", m),
        };
        let mut r = prefix.to_string();
        r.append(m.as_str());
        r
    }
}

impl vstd::std_specs::convert::FromSpecImpl<std::io::Error> for CoreError {
    /// The conversion is described by the `ensures` of `from`: the text it
    /// carries comes from the I/O error at run time.
    open spec fn obeys_from_spec() -> bool {
        false
    }

    open spec fn from_spec(v: std::io::Error) -> CoreError {
        CoreError::Timeout
    }
}

impl From<std::io::Error> for CoreError {
    /// An `Io` error carrying the I/O error's text.
    fn from(e: std::io::Error) -> (r: CoreError)
        ensures
            r is Io,
    {
        CoreError::Io(io_error_text(&e))
    }
}

} // verus!
