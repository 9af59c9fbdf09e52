//! Chunked file transfer: the manifest of a file's chunks with their BLAKE3
//! hashes, transfer progress, and the table of transfer tasks. The network
//! and file I/O that drive a transfer run around this module and report to
//! it.

pub mod error;
pub mod transfer;
