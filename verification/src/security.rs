//! Device security: key pairs and hashing, identity certificates, and the
//! state machine of the TLS 1.3 style handshake between devices.

pub mod cert;
pub mod crypto;
pub mod error;
pub mod tls;
