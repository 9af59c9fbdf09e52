//! The unified, FFI-facing API: its status codes, errors and plain types,
//! with the conversions from the services' own types.

pub mod api;
pub mod error;
pub mod types;
