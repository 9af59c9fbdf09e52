//! Records kept about paired devices.

pub mod error;

use vstd::prelude::*;

verus! {

/// Device type enumeration.
#[derive(Debug, Clone, Copy, PartialEq, Eq, Structural)]
pub enum DeviceType {
    Unknown,
    Phone,
    Tablet,
    Pc,
    Tv,
    Wearable,
}

impl Default for DeviceType {
    fn default() -> (r: DeviceType)
        ensures
            r == DeviceType::Unknown,
    {
        DeviceType::Unknown
    }
}

/// Paired device record.
#[derive(Debug, Clone)]
pub struct PairedDevice {
    pub device_id: String,
    pub device_name: String,
    pub device_type: DeviceType,
    pub os_version: String,
    pub app_version: String,
    pub ip_address: String,
    pub port: u16,
    pub public_key_fingerprint: String,
    pub paired_at: i64,
    pub last_connected_at: Option<i64>,
    pub trust_level: i32,
}

/// The storage service; it holds nothing yet.
pub struct StorageService;

impl StorageService {
    pub fn new() -> (r: StorageService) {
        StorageService
    }
}

impl Default for StorageService {
    fn default() -> (r: StorageService) {
        StorageService::new()
    }
}

} // verus!
