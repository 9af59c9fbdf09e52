//! Device discovery on the local network: what an mDNS record says of a
//! device, the table of devices seen and when they expire, and the state of
//! a connection to a device. The mDNS daemon and the sockets run around
//! this module and report to it.

pub mod discovery;
pub mod error;
pub mod network;
