//! Device pairing: the pairing messages and results, and the service that
//! keeps the requests awaiting the user's confirmation.

pub mod error;
pub mod service;
