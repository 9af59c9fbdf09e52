//! Plain types of the unified API.

use vstd::prelude::*;
use crate::discovery::discovery::DeviceType as DiscoveryDeviceType;
use crate::file_transfer::transfer::TransferState as FtTransferState;
use crate::storage::DeviceType as StorageDeviceType;
use crate::file_transfer::transfer::new_uuid_v4;

verus! {

/// Device type.
#[derive(Debug, Clone, Copy, PartialEq, Eq, Structural)]
pub enum DeviceType {
    Unknown,
    Phone,
    Tablet,
    Pc,
    Tv,
    Wearable,
}

/// The API device type of a discovered device's type: the same variant.
pub open spec fn from_discovery_type(dt: DiscoveryDeviceType) -> DeviceType {
    match dt {
        DiscoveryDeviceType::Unknown => DeviceType::Unknown,
        DiscoveryDeviceType::Phone => DeviceType::Phone,
        DiscoveryDeviceType::Tablet => DeviceType::Tablet,
        DiscoveryDeviceType::Pc => DeviceType::Pc,
        DiscoveryDeviceType::Tv => DeviceType::Tv,
        DiscoveryDeviceType::Wearable => DeviceType::Wearable,
    }
}

/// The API device type of a stored device's type: the same variant.
pub open spec fn from_storage_type(dt: StorageDeviceType) -> DeviceType {
    match dt {
        StorageDeviceType::Unknown => DeviceType::Unknown,
        StorageDeviceType::Phone => DeviceType::Phone,
        StorageDeviceType::Tablet => DeviceType::Tablet,
        StorageDeviceType::Pc => DeviceType::Pc,
        StorageDeviceType::Tv => DeviceType::Tv,
        StorageDeviceType::Wearable => DeviceType::Wearable,
    }
}

impl From<DiscoveryDeviceType> for DeviceType {
    fn from(dt: DiscoveryDeviceType) -> (r: DeviceType)
        ensures
            r == from_discovery_type(dt),
    {
        match dt {
            DiscoveryDeviceType::Unknown => DeviceType::Unknown,
            DiscoveryDeviceType::Phone => DeviceType::Phone,
            DiscoveryDeviceType::Tablet => DeviceType::Tablet,
            DiscoveryDeviceType::Pc => DeviceType::Pc,
            DiscoveryDeviceType::Tv => DeviceType::Tv,
            DiscoveryDeviceType::Wearable => DeviceType::Wearable,
        }
    }
}

impl vstd::std_specs::convert::FromSpecImpl<DiscoveryDeviceType> for DeviceType {
    open spec fn obeys_from_spec() -> bool {
        true
    }

    open spec fn from_spec(v: DiscoveryDeviceType) -> DeviceType {
        from_discovery_type(v)
    }
}

impl From<StorageDeviceType> for DeviceType {
    fn from(dt: StorageDeviceType) -> (r: DeviceType)
        ensures
            r == from_storage_type(dt),
    {
        match dt {
            StorageDeviceType::Unknown => DeviceType::Unknown,
            StorageDeviceType::Phone => DeviceType::Phone,
            StorageDeviceType::Tablet => DeviceType::Tablet,
            StorageDeviceType::Pc => DeviceType::Pc,
            StorageDeviceType::Tv => DeviceType::Tv,
            StorageDeviceType::Wearable => DeviceType::Wearable,
        }
    }
}

impl vstd::std_specs::convert::FromSpecImpl<StorageDeviceType> for DeviceType {
    open spec fn obeys_from_spec() -> bool {
        true
    }

    open spec fn from_spec(v: StorageDeviceType) -> DeviceType {
        from_storage_type(v)
    }
}

/// Device information.
#[derive(Debug, Clone)]
pub struct DeviceInfo {
    pub id: String,
    pub name: String,
    pub device_type: DeviceType,
    pub os_version: String,
    pub app_version: String,
    pub ip: String,
    pub port: u16,
    pub last_seen: i64,
}

/// Transfer state.
#[derive(Debug, Clone, Copy, PartialEq, Eq, Structural)]
pub enum TransferState {
    Idle,
    Preparing,
    Transferring,
    Paused,
    Completed,
    Failed,
    Canceled,
}

/// The API state of a transfer state: the same variant.
pub open spec fn from_transfer_state(s: FtTransferState) -> TransferState {
    match s {
        FtTransferState::Idle => TransferState::Idle,
        FtTransferState::Preparing => TransferState::Preparing,
        FtTransferState::Transferring => TransferState::Transferring,
        FtTransferState::Paused => TransferState::Paused,
        FtTransferState::Completed => TransferState::Completed,
        FtTransferState::Failed => TransferState::Failed,
        FtTransferState::Canceled => TransferState::Canceled,
    }
}

impl From<FtTransferState> for TransferState {
    fn from(state: FtTransferState) -> (r: TransferState)
        ensures
            r == from_transfer_state(state),
    {
        match state {
            FtTransferState::Idle => TransferState::Idle,
            FtTransferState::Preparing => TransferState::Preparing,
            FtTransferState::Transferring => TransferState::Transferring,
            FtTransferState::Paused => TransferState::Paused,
            FtTransferState::Completed => TransferState::Completed,
            FtTransferState::Failed => TransferState::Failed,
            FtTransferState::Canceled => TransferState::Canceled,
        }
    }
}

impl vstd::std_specs::convert::FromSpecImpl<FtTransferState> for TransferState {
    open spec fn obeys_from_spec() -> bool {
        true
    }

    open spec fn from_spec(v: FtTransferState) -> TransferState {
        from_transfer_state(v)
    }
}

/// Core configuration.
#[derive(Debug, Clone)]
pub struct CoreConfig {
    pub device_id: String,
    pub device_name: String,
    pub device_type: DeviceType,
    pub app_version: String,
    pub log_dir: Option<String>,
}

impl CoreConfig {
    /// The default configuration of a device: a fresh random ID, named
    /// after the host (`host_name`, when it could be read, else "Unknown
    /// Device"), a phone, of the given application version, without a log
    /// directory.
    pub fn for_host(host_name: Option<String>, app_version: String) -> (r: CoreConfig)
        ensures
            r.device_id@.len() == 36,
            r.device_name@ == match host_name {
                Some(h) => h@,
                None => "Unknown Device"@,
            },
            r.device_type == DeviceType::Phone,
            r.app_version == app_version,
            r.log_dir is None,
    {
        CoreConfig {
            device_id: new_uuid_v4(),
            device_name: match host_name {
                Some(h) => h,
                None => "Unknown Device".to_string(),
            },
            device_type: DeviceType::Phone,
            app_version,
            log_dir: None,
        }
    }

    /// A copy of the configuration.
    pub fn duplicate(&self) -> (r: CoreConfig)
        ensures
            r == *self,
    {
        CoreConfig {
            device_id: self.device_id.clone(),
            device_name: self.device_name.clone(),
            device_type: self.device_type,
            app_version: self.app_version.clone(),
            log_dir: match &self.log_dir {
                Some(d) => Some(d.clone()),
                None => None,
            },
        }
    }
}

} // verus!
