//! Error types of the media service.

use vstd::prelude::*;

verus! {

broadcast use vstd::string::to_string_from_display_ensures_for_str;

/// Errors of the media service.
#[derive(Debug)]
pub enum MediaError {
    Io(std::io::Error),
    Protocol(String),
    InvalidConfig(String),
    Session(String),
    FrameProcessing(String),
    InputDispatch(String),
    NotInitialized,
    Unknown(String),
}

/// The message of an error (for an I/O error, its start: the
/// operating system's text follows).
pub open spec fn error_message(e: MediaError) -> Seq<char> {
    match e {
        MediaError::Io(_) => "IO error: "@,
        MediaError::Protocol(m) => "Protocol error: "@ + m@,
        MediaError::InvalidConfig(m) => "Invalid configuration: "@ + m@,
        MediaError::Session(m) => "Session error: "@ + m@,
        MediaError::FrameProcessing(m) => "Frame processing error: "@ + m@,
        MediaError::InputDispatch(m) => "Input dispatch error: "@ + m@,
        MediaError::NotInitialized => "Not initialized"@,
        MediaError::Unknown(m) => "Unknown error: "@ + m@,
    }
}

impl MediaError {
    /// The error's message.
    pub fn to_string(&self) -> (r: String)
        ensures
            error_message(*self).is_prefix_of(r@),
            !(*self is Io) ==> r@ == error_message(*self),
    {
        match self {
            MediaError::Io(e) => {
                let t = crate::text::io_error_text(e);
                crate::text::prefixed("IO error: ", &t)
            },
            MediaError::Protocol(m) => crate::text::prefixed("Protocol error: ", m),
            MediaError::InvalidConfig(m) => crate::text::prefixed("Invalid configuration: ", m),
            MediaError::Session(m) => crate::text::prefixed("Session error: ", m),
            MediaError::FrameProcessing(m) => crate::text::prefixed("Frame processing error: ", m),
            MediaError::InputDispatch(m) => crate::text::prefixed("Input dispatch error: ", m),
            MediaError::NotInitialized => "Not initialized".to_string(),
            MediaError::Unknown(m) => crate::text::prefixed("Unknown error: ", m),
        }
    }
}

} // verus!
