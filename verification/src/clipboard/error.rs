//! Errors of the clipboard module.

use vstd::prelude::*;

verus! {

broadcast use vstd::string::to_string_from_display_ensures_for_str;

/// Errors of clipboard handling.
#[derive(Debug)]
pub enum ClipboardError {
    Io(std::io::Error),
    Serialization(String),
    Protocol(String),
    Transport(String),
    NotConnected,
    /// The content's size and the limit it exceeds, in bytes.
    ContentTooLarge(usize, usize),
    InvalidContent(String),
    NoContent,
    Empty,
    SyncFailed(String),
}

/// The message of an error (for an I/O error, its start: the
/// operating system's text follows).
pub open spec fn error_message(e: ClipboardError) -> Seq<char> {
    match e {
        ClipboardError::Io(_) => "IO error: "@,
        ClipboardError::Serialization(m) => "Serialization error: "@ + m@,
        ClipboardError::Protocol(m) => "Protocol error: "@ + m@,
        ClipboardError::Transport(m) => "Transport error: "@ + m@,
        ClipboardError::NotConnected => "Not connected"@,
        ClipboardError::ContentTooLarge(size, max) => "Content too large: "@ + crate::text::decimal(size as nat) + " bytes (max: "@ + crate::text::decimal(max as nat) + ")"@,
        ClipboardError::InvalidContent(m) => "Invalid content: "@ + m@,
        ClipboardError::NoContent => "No content to sync"@,
        ClipboardError::Empty => "Clipboard is empty"@,
        ClipboardError::SyncFailed(m) => "Sync error: "@ + m@,
    }
}

impl ClipboardError {
    /// The error's message.
    pub fn to_string(&self) -> (r: String)
        ensures
            error_message(*self).is_prefix_of(r@),
            !(*self is Io) ==> r@ == error_message(*self),
    {
        match self {
            ClipboardError::Io(e) => {
                let t = crate::text::io_error_text(e);
                crate::text::prefixed("IO error: ", &t)
            },
            ClipboardError::Serialization(m) => crate::text::prefixed("Serialization error: ", m),
            ClipboardError::Protocol(m) => crate::text::prefixed("Protocol error: ", m),
            ClipboardError::Transport(m) => crate::text::prefixed("Transport error: ", m),
            ClipboardError::NotConnected => "Not connected".to_string(),
            ClipboardError::ContentTooLarge(size, max) => {
                let mut r = "Content too large: ".to_string();
                r.append(crate::text::decimal_string(*size as u64).as_str());
                r.append(" bytes (max: ");
                r.append(crate::text::decimal_string(*max as u64).as_str());
                r.append(")");
                r
            },
            ClipboardError::InvalidContent(m) => crate::text::prefixed("Invalid content: ", m),
            ClipboardError::NoContent => "No content to sync".to_string(),
            ClipboardError::Empty => "Clipboard is empty".to_string(),
            ClipboardError::SyncFailed(m) => crate::text::prefixed("Sync error: ", m),
        }
    }
}

} // verus!
