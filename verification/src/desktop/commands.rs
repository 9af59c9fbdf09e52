//! Commands of the desktop application's command line.

use vstd::prelude::*;

verus! {

/// Device discovery and pairing commands.
#[derive(Debug)]
pub enum DeviceCommand {
    /// Discover nearby devices using mDNS.
    Discover,
    /// Pair with a device.
    Pair { device_id: String },
    /// List paired devices.
    List,
    /// Unpair a device.
    Unpair { device_id: String },
}

/// File transfer commands.
#[derive(Debug)]
pub enum TransferCommand {
    /// Send a file to a device.
    Send { device_id: String, file: String },
    /// List active transfers.
    List,
    /// Cancel a transfer.
    Cancel { task_id: String },
}

/// Clipboard synchronization commands.
#[derive(Debug)]
pub enum ClipboardCommand {
    /// Get current clipboard content.
    Get,
    /// Set clipboard content (the `set` command).
    SetText { text: String },
    /// Sync clipboard with a device.
    Sync { device_id: String },
    /// Monitor clipboard for changes, for a number of seconds.
    Monitor { duration_secs: u64 },
}

/// Seconds the clipboard is monitored for when no duration is given.
pub const DEFAULT_MONITOR_SECS: u64 = 30;

/// Screen mirroring commands.
#[derive(Debug)]
pub enum MirrorCommand {
    /// Start screen mirroring with a device.
    Start { device_id: String },
    /// Stop screen mirroring.
    Stop,
    /// Show mirroring status.
    Status,
}

} // verus!
