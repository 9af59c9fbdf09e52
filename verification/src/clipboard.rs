//! Cross-device clipboard: content frames, the local clipboard state with
//! its bounded history, and the decisions of the synchroniser.

pub mod error;
pub mod frame_transport;
pub mod manager;
pub mod sync;
pub mod json_string;
