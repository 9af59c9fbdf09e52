//! Errors of the desktop application, and how the services' errors become
//! them: each keeps its kind and carries the service error's message.

use vstd::prelude::*;
use crate::clipboard::error::{error_message as clipboard_message, ClipboardError};
use crate::discovery::error::{error_message as discovery_message, Error as DiscoveryError};
use crate::file_transfer::error::{error_message as transfer_message, Error as TransferError};
use crate::media::error::{error_message as media_message, MediaError};
use crate::pairing::error::{error_message as pairing_message, Error as PairingError};
use crate::storage::error::{error_message as storage_message, Error as StorageError};
use crate::text::{io_error_text, prefixed};

verus! {

/// Errors of the desktop application.
#[derive(Debug)]
pub enum DesktopError {
    Clipboard(String),
    DeviceNotFound(String),
    Transfer(String),
    Mirror(String),
    Io(std::io::Error),
    Protocol(String),
    Storage(String),
    Discovery(String),
    Pairing(String),
    NotInitialized,
    InvalidCommand(String),
    Unknown(String),
}

/// The message of an error other than an I/O error: its kind, then its
/// detail.
pub open spec fn error_message(e: DesktopError) -> Seq<char> {
    match e {
        DesktopError::Clipboard(m) => "Clipboard error: "@ + m@,
        DesktopError::DeviceNotFound(m) => "Device not found: "@ + m@,
        DesktopError::Transfer(m) => "Transfer error: "@ + m@,
        DesktopError::Mirror(m) => "Mirror error: "@ + m@,
        DesktopError::Io(_) => "IO error: "@,
        DesktopError::Protocol(m) => "Protocol error: "@ + m@,
        DesktopError::Storage(m) => "Storage error: "@ + m@,
        DesktopError::Discovery(m) => "Discovery error: "@ + m@,
        DesktopError::Pairing(m) => "Pairing error: "@ + m@,
        DesktopError::NotInitialized => "Not initialized"@,
        DesktopError::InvalidCommand(m) => "Invalid command: "@ + m@,
        DesktopError::Unknown(m) => "Unknown error: "@ + m@,
    }
}

impl DesktopError {
    /// The error's message; an I/O error's text follows its prefix.
    pub fn to_string(&self) -> (r: String)
        ensures
            !(self is Io) ==> r@ == error_message(*self),
            self is Io ==> error_message(*self).is_prefix_of(r@),
    {
        let (prefix, m) = match self {
            DesktopError::NotInitialized => {
                return "Not initialized".to_string();
            },
            DesktopError::Io(e) => {
                let text = io_error_text(e);
                let r = prefixed("IO error: ", &text);
                assert(r@.subrange(0, "IO error: "@.len() as int) =~= "IO error: "@);
                return r;
            },
            DesktopError::Clipboard(m) => ("Clipboard error: ", m),
            DesktopError::DeviceNotFound(m) => ("Device not found: ", m),
            DesktopError::Transfer(m) => ("Transfer error: ", m),
            DesktopError::Mirror(m) => ("Mirror error: ", m),
            DesktopError::Protocol(m) => ("Protocol error: ", m),
            DesktopError::Storage(m) => ("Storage error: ", m),
            DesktopError::Discovery(m) => ("Discovery error: ", m),
            DesktopError::Pairing(m) => ("Pairing error: ", m),
            DesktopError::InvalidCommand(m) => ("Invalid command: ", m),
            DesktopError::Unknown(m) => ("Unknown error: ", m),
        };
        prefixed(prefix, m)
    }
}

impl vstd::std_specs::convert::FromSpecImpl<ClipboardError> for DesktopError {
    /// The conversion is described by the `ensures` of `from`: the message
    /// it carries is a string built at run time.
    open spec fn obeys_from_spec() -> bool {
        false
    }

    open spec fn from_spec(v: ClipboardError) -> DesktopError {
        DesktopError::NotInitialized
    }
}

impl From<ClipboardError> for DesktopError {
    /// A `Clipboard` error with the clipboard error's message.
    fn from(e: ClipboardError) -> (r: DesktopError)
        ensures
            r matches DesktopError::Clipboard(m) && clipboard_message(e).is_prefix_of(m@),
            !(e is Io) ==> (r matches DesktopError::Clipboard(m) && m@ == clipboard_message(e)),
    {
        DesktopError::Clipboard(e.to_string())
    }
}

impl vstd::std_specs::convert::FromSpecImpl<TransferError> for DesktopError {
    /// The conversion is described by the `ensures` of `from`: the message
    /// it carries is a string built at run time.
    open spec fn obeys_from_spec() -> bool {
        false
    }

    open spec fn from_spec(v: TransferError) -> DesktopError {
        DesktopError::NotInitialized
    }
}

impl From<TransferError> for DesktopError {
    /// A `Transfer` error with the transfer error's message.
    fn from(e: TransferError) -> (r: DesktopError)
        ensures
            r matches DesktopError::Transfer(m) && m@ == transfer_message(e),
    {
        DesktopError::Transfer(e.to_string())
    }
}

impl vstd::std_specs::convert::FromSpecImpl<MediaError> for DesktopError {
    /// The conversion is described by the `ensures` of `from`: the message
    /// it carries is a string built at run time.
    open spec fn obeys_from_spec() -> bool {
        false
    }

    open spec fn from_spec(v: MediaError) -> DesktopError {
        DesktopError::NotInitialized
    }
}

impl From<MediaError> for DesktopError {
    /// A `Mirror` error with the media error's message.
    fn from(e: MediaError) -> (r: DesktopError)
        ensures
            r matches DesktopError::Mirror(m) && media_message(e).is_prefix_of(m@),
            !(e is Io) ==> (r matches DesktopError::Mirror(m) && m@ == media_message(e)),
    {
        DesktopError::Mirror(e.to_string())
    }
}

impl vstd::std_specs::convert::FromSpecImpl<StorageError> for DesktopError {
    /// The conversion is described by the `ensures` of `from`: the message
    /// it carries is a string built at run time.
    open spec fn obeys_from_spec() -> bool {
        false
    }

    open spec fn from_spec(v: StorageError) -> DesktopError {
        DesktopError::NotInitialized
    }
}

impl From<StorageError> for DesktopError {
    /// A `Storage` error with the storage error's message.
    fn from(e: StorageError) -> (r: DesktopError)
        ensures
            r matches DesktopError::Storage(m) && m@ == storage_message(e),
    {
        DesktopError::Storage(e.to_string())
    }
}

impl vstd::std_specs::convert::FromSpecImpl<DiscoveryError> for DesktopError {
    /// The conversion is described by the `ensures` of `from`: the message
    /// it carries is a string built at run time.
    open spec fn obeys_from_spec() -> bool {
        false
    }

    open spec fn from_spec(v: DiscoveryError) -> DesktopError {
        DesktopError::NotInitialized
    }
}

impl From<DiscoveryError> for DesktopError {
    /// A `Discovery` error with the discovery error's message.
    fn from(e: DiscoveryError) -> (r: DesktopError)
        ensures
            r matches DesktopError::Discovery(m) && m@ == discovery_message(e),
    {
        DesktopError::Discovery(e.to_string())
    }
}

impl vstd::std_specs::convert::FromSpecImpl<PairingError> for DesktopError {
    /// The conversion is described by the `ensures` of `from`: the message
    /// it carries is a string built at run time.
    open spec fn obeys_from_spec() -> bool {
        false
    }

    open spec fn from_spec(v: PairingError) -> DesktopError {
        DesktopError::NotInitialized
    }
}

impl From<PairingError> for DesktopError {
    /// A `Pairing` error with the pairing error's message.
    fn from(e: PairingError) -> (r: DesktopError)
        ensures
            r matches DesktopError::Pairing(m) && m@ == pairing_message(e),
    {
        DesktopError::Pairing(e.to_string())
    }
}

impl vstd::std_specs::convert::FromSpecImpl<std::io::Error> for DesktopError {
    open spec fn obeys_from_spec() -> bool {
        true
    }

    open spec fn from_spec(v: std::io::Error) -> DesktopError {
        DesktopError::Io(v)
    }
}

impl From<std::io::Error> for DesktopError {
    /// An `Io` error holding the I/O error.
    fn from(e: std::io::Error) -> (r: DesktopError)
        ensures
            r matches DesktopError::Io(x) && x == e,
    {
        DesktopError::Io(e)
    }
}

} // verus!
