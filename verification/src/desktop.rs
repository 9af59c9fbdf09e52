//! The desktop application: its commands, errors, interactive mode and
//! state.

pub mod clipboard;
pub mod commands;
pub mod error;
pub mod interactive;
pub mod state;
