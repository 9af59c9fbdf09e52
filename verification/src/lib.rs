//! Verified core of the MMC multi-device toolkit: the TCP frame protocol,
//! media codecs and mirroring sessions, clipboard state and sync, the
//! handshake state machine, the bookkeeping around discovery, transfers and
//! pairing, the unified API's state, and the desktop application's state
//! and commands.

pub mod bytes_util;
pub mod text;
pub mod keyed;
pub mod channels;
pub mod clock;
pub mod protocol;
pub mod media;
pub mod clipboard;
pub mod security;
pub mod file_transfer;
pub mod pairing;
pub mod protobuf;
pub mod storage;
pub mod discovery;
pub mod core_api;
pub mod desktop;
pub mod gui;
