//! Status codes and request / result types of the unified API, and the
//! conversions into them.

use vstd::prelude::*;
use crate::core_api::error::CoreError;
use crate::core_api::types::{from_discovery_type, from_storage_type, CoreConfig, DeviceInfo, DeviceType};
use crate::bytes_util::str_eq;
use crate::discovery::discovery::{DeviceInfo as DiscoveryDeviceInfo, DiscoveryService};
use crate::file_transfer::transfer::{chunk_count, new_uuid_v4, TransferService, TransferTask as FtTransferTask};
use crate::keyed::{by_key, unique_keys};
use crate::media::session::{bitrates_fit, MirroringSession, SessionConfig as InnerSessionConfig, SessionState};
use crate::pairing::service::{PairingResult as InnerPairingResult, PairingService};
use crate::protocol::{PixelFormat, SampleFormat};
use crate::storage::{PairedDevice, StorageService};

verus! {

/// Status code of an API call (one per kind of `CoreError`, and Ok).
#[derive(Debug, Clone, Copy, PartialEq, Eq, Structural)]
pub enum CoreStatus {
    /// The call succeeded (code 0).
    Success,
    NotInitialized,
    AlreadyInitialized,
    InitFailed,
    Io,
    Network,
    Protocol,
    Security,
    StorageFailed,
    TransferFailed,
    DiscoveryFailed,
    PairingFailed,
    InvalidState,
    Timeout,
    Cancelled,
    Unknown,
}

impl CoreStatus {
    /// The status's FFI code.
    pub open spec fn code(self) -> u32 {
        match self {
            CoreStatus::Success => 0,
            CoreStatus::NotInitialized => 1,
            CoreStatus::AlreadyInitialized => 2,
            CoreStatus::InitFailed => 3,
            CoreStatus::Io => 4,
            CoreStatus::Network => 5,
            CoreStatus::Protocol => 6,
            CoreStatus::Security => 7,
            CoreStatus::StorageFailed => 8,
            CoreStatus::TransferFailed => 9,
            CoreStatus::DiscoveryFailed => 10,
            CoreStatus::PairingFailed => 11,
            CoreStatus::InvalidState => 12,
            CoreStatus::Timeout => 13,
            CoreStatus::Cancelled => 14,
            CoreStatus::Unknown => 99,
        }
    }

    /// The status's FFI code.
    pub fn to_u32(&self) -> (r: u32)
        ensures
            r == self.code(),
    {
        match self {
            CoreStatus::Success => 0,
            CoreStatus::NotInitialized => 1,
            CoreStatus::AlreadyInitialized => 2,
            CoreStatus::InitFailed => 3,
            CoreStatus::Io => 4,
            CoreStatus::Network => 5,
            CoreStatus::Protocol => 6,
            CoreStatus::Security => 7,
            CoreStatus::StorageFailed => 8,
            CoreStatus::TransferFailed => 9,
            CoreStatus::DiscoveryFailed => 10,
            CoreStatus::PairingFailed => 11,
            CoreStatus::InvalidState => 12,
            CoreStatus::Timeout => 13,
            CoreStatus::Cancelled => 14,
            CoreStatus::Unknown => 99,
        }
    }
}

/// The status of an error: the one of the same name.
pub open spec fn status_of(err: &CoreError) -> CoreStatus {
    match *err {
        CoreError::NotInitialized => CoreStatus::NotInitialized,
        CoreError::AlreadyInitialized => CoreStatus::AlreadyInitialized,
        CoreError::InitFailed(_) => CoreStatus::InitFailed,
        CoreError::Io(_) => CoreStatus::Io,
        CoreError::Network(_) => CoreStatus::Network,
        CoreError::Protocol(_) => CoreStatus::Protocol,
        CoreError::Security(_) => CoreStatus::Security,
        CoreError::StorageFailed(_) => CoreStatus::StorageFailed,
        CoreError::TransferFailed(_) => CoreStatus::TransferFailed,
        CoreError::DiscoveryFailed(_) => CoreStatus::DiscoveryFailed,
        CoreError::PairingFailed(_) => CoreStatus::PairingFailed,
        CoreError::InvalidState(_) => CoreStatus::InvalidState,
        CoreError::Timeout => CoreStatus::Timeout,
        CoreError::Cancelled => CoreStatus::Cancelled,
        CoreError::Unknown(_) => CoreStatus::Unknown,
    }
}

impl<'a> From<&'a CoreError> for CoreStatus {
    fn from(err: &'a CoreError) -> (r: CoreStatus)
        ensures
            r == status_of(err),
    {
        match err {
            CoreError::NotInitialized => CoreStatus::NotInitialized,
            CoreError::AlreadyInitialized => CoreStatus::AlreadyInitialized,
            CoreError::InitFailed(_) => CoreStatus::InitFailed,
            CoreError::Io(_) => CoreStatus::Io,
            CoreError::Network(_) => CoreStatus::Network,
            CoreError::Protocol(_) => CoreStatus::Protocol,
            CoreError::Security(_) => CoreStatus::Security,
            CoreError::StorageFailed(_) => CoreStatus::StorageFailed,
            CoreError::TransferFailed(_) => CoreStatus::TransferFailed,
            CoreError::DiscoveryFailed(_) => CoreStatus::DiscoveryFailed,
            CoreError::PairingFailed(_) => CoreStatus::PairingFailed,
            CoreError::InvalidState(_) => CoreStatus::InvalidState,
            CoreError::Timeout => CoreStatus::Timeout,
            CoreError::Cancelled => CoreStatus::Cancelled,
            CoreError::Unknown(_) => CoreStatus::Unknown,
        }
    }
}

impl<'a> vstd::std_specs::convert::FromSpecImpl<&'a CoreError> for CoreStatus {
    open spec fn obeys_from_spec() -> bool {
        true
    }

    open spec fn from_spec(v: &'a CoreError) -> CoreStatus {
        status_of(v)
    }
}

/// Pairing request from FFI.
#[derive(Debug, Clone)]
pub struct PairingRequest {
    pub device_id: String,
    pub device_name: String,
    pub ip: String,
    pub port: u16,
    pub file_transfer: bool,
    pub screen_mirror: bool,
    pub remote_control: bool,
    pub clipboard_sync: bool,
}

/// Pairing result for FFI.
#[derive(Debug, Clone)]
pub struct PairingResult {
    pub success: bool,
    pub pairing_id: String,
    pub error_message: Option<String>,
}

/// The FFI result of a pairing result: success carries the device's ID as
/// its pairing ID; a rejection or error carries its pairing ID and its
/// reason or error as message.
pub open spec fn pairing_result_of(result: InnerPairingResult) -> PairingResult {
    match result {
        InnerPairingResult::Success { device_id, .. } => PairingResult {
            success: true,
            pairing_id: device_id,
            error_message: None,
        },
        InnerPairingResult::Rejected { pairing_id, reason } => PairingResult {
            success: false,
            pairing_id,
            error_message: Some(reason),
        },
        InnerPairingResult::Error { pairing_id, error } => PairingResult {
            success: false,
            pairing_id,
            error_message: Some(error),
        },
    }
}

impl From<InnerPairingResult> for PairingResult {
    fn from(result: InnerPairingResult) -> (r: PairingResult)
        ensures
            r == pairing_result_of(result),
    {
        match result {
            InnerPairingResult::Success { device_id, .. } => PairingResult {
                success: true,
                pairing_id: device_id,
                error_message: None,
            },
            InnerPairingResult::Rejected { pairing_id, reason } => PairingResult {
                success: false,
                pairing_id,
                error_message: Some(reason),
            },
            InnerPairingResult::Error { pairing_id, error } => PairingResult {
                success: false,
                pairing_id,
                error_message: Some(error),
            },
        }
    }
}

impl vstd::std_specs::convert::FromSpecImpl<InnerPairingResult> for PairingResult {
    open spec fn obeys_from_spec() -> bool {
        true
    }

    open spec fn from_spec(v: InnerPairingResult) -> PairingResult {
        pairing_result_of(v)
    }
}

/// Session configuration from FFI.
#[derive(Debug, Clone)]
pub struct SessionConfig {
    pub video_width: u32,
    pub video_height: u32,
    pub video_format: String,
    pub frame_rate: u32,
    pub audio_sample_rate: u32,
    pub audio_channels: u32,
    pub audio_format: String,
}

/// The API information of a discovered device: the same fields, the type
/// converted.
pub open spec fn device_info_of(info: DiscoveryDeviceInfo) -> DeviceInfo {
    DeviceInfo {
        id: info.id,
        name: info.name,
        device_type: from_discovery_type(info.device_type),
        os_version: info.os_version,
        app_version: info.app_version,
        ip: info.ip,
        port: info.port,
        last_seen: info.last_seen,
    }
}

impl From<DiscoveryDeviceInfo> for DeviceInfo {
    fn from(info: DiscoveryDeviceInfo) -> (r: DeviceInfo)
        ensures
            r == device_info_of(info),
    {
        DeviceInfo {
            id: info.id,
            name: info.name,
            device_type: DeviceType::from(info.device_type),
            os_version: info.os_version,
            app_version: info.app_version,
            ip: info.ip,
            port: info.port,
            last_seen: info.last_seen,
        }
    }
}

impl vstd::std_specs::convert::FromSpecImpl<DiscoveryDeviceInfo> for DeviceInfo {
    open spec fn obeys_from_spec() -> bool {
        true
    }

    open spec fn from_spec(v: DiscoveryDeviceInfo) -> DeviceInfo {
        device_info_of(v)
    }
}

impl DeviceInfo {
    /// The information of a paired device: its stored fields, last seen
    /// when it last connected (0 if never).
    pub fn from_paired_device(device: &PairedDevice) -> (r: DeviceInfo)
        ensures
            r.id == device.device_id,
            r.name == device.device_name,
            r.device_type == from_storage_type(device.device_type),
            r.os_version == device.os_version,
            r.app_version == device.app_version,
            r.ip == device.ip_address,
            r.port == device.port,
            r.last_seen == match device.last_connected_at {
                Some(t) => t,
                None => 0,
            },
    {
        DeviceInfo {
            id: device.device_id.clone(),
            name: device.device_name.clone(),
            device_type: DeviceType::from(device.device_type),
            os_version: device.os_version.clone(),
            app_version: device.app_version.clone(),
            ip: device.ip_address.clone(),
            port: device.port,
            last_seen: match device.last_connected_at {
                Some(t) => t,
                None => 0,
            },
        }
    }
}

/// The pixel format an FFI name stands for; an unknown name stands for
/// RGBA8888.
pub open spec fn pixel_format_named(name: Seq<char>) -> PixelFormat {
    if name == "RGBA8888"@ {
        PixelFormat::Rgba8888
    } else if name == "BGRA8888"@ {
        PixelFormat::Bgra8888
    } else if name == "RGB565"@ {
        PixelFormat::Rgb565
    } else if name == "YUV420P"@ {
        PixelFormat::Yuv420p
    } else if name == "NV12"@ {
        PixelFormat::Nv12
    } else {
        PixelFormat::Rgba8888
    }
}

/// The sample format an FFI name stands for; an unknown name stands for
/// signed 16-bit samples.
pub open spec fn sample_format_named(name: Seq<char>) -> SampleFormat {
    if name == "U8"@ {
        SampleFormat::U8
    } else if name == "S16"@ {
        SampleFormat::S16
    } else if name == "S32"@ {
        SampleFormat::S32
    } else if name == "F32"@ {
        SampleFormat::F32
    } else {
        SampleFormat::S16
    }
}

/// The pixel format an FFI name stands for.
pub fn parse_pixel_format(name: &str) -> (r: PixelFormat)
    ensures
        r == pixel_format_named(name@),
{
    if str_eq(name, "RGBA8888") {
        PixelFormat::Rgba8888
    } else if str_eq(name, "BGRA8888") {
        PixelFormat::Bgra8888
    } else if str_eq(name, "RGB565") {
        PixelFormat::Rgb565
    } else if str_eq(name, "YUV420P") {
        PixelFormat::Yuv420p
    } else if str_eq(name, "NV12") {
        PixelFormat::Nv12
    } else {
        PixelFormat::Rgba8888
    }
}

/// The sample format an FFI name stands for.
pub fn parse_sample_format(name: &str) -> (r: SampleFormat)
    ensures
        r == sample_format_named(name@),
{
    if str_eq(name, "U8") {
        SampleFormat::U8
    } else if str_eq(name, "S16") {
        SampleFormat::S16
    } else if str_eq(name, "S32") {
        SampleFormat::S32
    } else if str_eq(name, "F32") {
        SampleFormat::F32
    } else {
        SampleFormat::S16
    }
}

/// The media session configuration an FFI configuration stands for: the
/// same numbers, the formats looked up by name.
pub open spec fn session_config_of(config: SessionConfig) -> InnerSessionConfig {
    InnerSessionConfig {
        video_width: config.video_width,
        video_height: config.video_height,
        video_format: pixel_format_named(config.video_format@),
        frame_rate: config.frame_rate,
        audio_sample_rate: config.audio_sample_rate,
        audio_channels: config.audio_channels,
        audio_format: sample_format_named(config.audio_format@),
    }
}

/// A mirroring configuration that a session accepts: non-zero video size,
/// sample rate and channel count.
pub open spec fn session_config_accepted(config: SessionConfig) -> bool {
    &&& config.video_width != 0
    &&& config.video_height != 0
    &&& config.audio_sample_rate != 0
    &&& config.audio_channels != 0
}

/// Size of the chunks in which the unified API cuts a file it sends: 1 MiB.
pub const SEND_CHUNK_SIZE: u32 = 1048576;

/// The unified API: one object that owns the services of an initialized
/// device and the mirroring session.
pub struct MmcCore {
    config: Option<CoreConfig>,
    initialized: bool,
    discovery: Option<DiscoveryService>,
    pairing: Option<PairingService>,
    file_transfer: Option<TransferService>,
    storage: Option<StorageService>,
    mirror_session: Option<MirroringSession>,
}

impl MmcCore {
    pub closed spec fn spec_initialized(&self) -> bool {
        self.initialized
    }

    pub closed spec fn spec_config(&self) -> Option<CoreConfig> {
        self.config
    }

    /// The discovery service, once the core was initialized.
    pub closed spec fn spec_discovery(&self) -> Option<DiscoveryService> {
        self.discovery
    }

    /// The file transfer service, once the core was initialized.
    pub closed spec fn spec_file_transfer(&self) -> Option<TransferService> {
        self.file_transfer
    }

    /// The pairing service, once the core was initialized.
    pub closed spec fn spec_pairing(&self) -> Option<PairingService> {
        self.pairing
    }

    pub closed spec fn spec_mirror_session(&self) -> Option<MirroringSession> {
        self.mirror_session
    }

    /// Its invariant: the services it holds are well formed, and an
    /// initialized core holds a configuration and every service.
    pub closed spec fn wf(&self) -> bool {
        &&& self.discovery matches Some(d) ==> d.wf()
        &&& self.file_transfer matches Some(t) ==> t.wf()
        &&& self.pairing matches Some(p) ==> p.wf()
        &&& self.initialized ==> {
            &&& self.config is Some
            &&& self.discovery is Some
            &&& self.pairing is Some
            &&& self.file_transfer is Some
            &&& self.storage is Some
        }
    }

    /// A core that holds nothing yet.
    pub fn new() -> (r: MmcCore)
        ensures
            r.wf(),
            !r.spec_initialized(),
            r.spec_config() is None,
            r.spec_discovery() is None,
            r.spec_pairing() is None,
            r.spec_file_transfer() is None,
            r.spec_mirror_session() is None,
    {
        MmcCore {
            config: None,
            initialized: false,
            discovery: None,
            pairing: None,
            file_transfer: None,
            storage: None,
            mirror_session: None,
        }
    }

    /// Initializes the core with a configuration and fresh services; refused
    /// when it is initialized already, with nothing changed.
    pub fn init(&mut self, config: CoreConfig) -> (r: CoreStatus)
        requires
            old(self).wf(),
        ensures
            final(self).wf(),
            r == if old(self).spec_initialized() {
                CoreStatus::AlreadyInitialized
            } else {
                CoreStatus::Success
            },
            final(self).spec_initialized(),
            old(self).spec_initialized() ==> final(self).spec_config() == old(self).spec_config()
                && final(self).spec_discovery() == old(self).spec_discovery()
                && final(self).spec_pairing() == old(self).spec_pairing()
                && final(self).spec_file_transfer() == old(self).spec_file_transfer(),
            !old(self).spec_initialized() ==> final(self).spec_config() == Some(config),
            !old(self).spec_initialized() ==> (final(self).spec_discovery() matches Some(d)
                && d.devices().is_empty()),
            !old(self).spec_initialized() ==> (final(self).spec_file_transfer() matches Some(t)
                && t.tasks().is_empty()),
            !old(self).spec_initialized() ==> (final(self).spec_pairing() matches Some(p)
                && p.pending().is_empty()),
            final(self).spec_mirror_session() == old(self).spec_mirror_session(),
    {
        if self.initialized {
            return CoreStatus::AlreadyInitialized;
        }
        let discovery = DiscoveryService::new();
        let storage = StorageService::new();
        self.config = Some(config);
        self.discovery = Some(discovery);
        self.pairing = Some(PairingService::new());
        self.file_transfer = Some(TransferService::new());
        self.storage = Some(storage);
        self.initialized = true;
        CoreStatus::Success
    }

    pub fn is_initialized(&self) -> (r: bool)
        ensures
            r == self.spec_initialized(),
    {
        self.initialized
    }

    /// A copy of the configuration, if the core was ever initialized.
    pub fn get_config(&self) -> (r: Option<CoreConfig>)
        ensures
            r == self.spec_config(),
    {
        match &self.config {
            Some(c) => Some(c.duplicate()),
            None => None,
        }
    }

    /// The pairing service, once the core was initialized.
    pub fn pairing(&self) -> (r: Option<&PairingService>)
        ensures
            r matches Some(p) ==> self.spec_pairing() == Some(*p),
            r is None <==> self.spec_pairing() is None,
    {
        self.pairing.as_ref()
    }

    /// Shuts the core down: stops and drops the mirroring session and
    /// marks the core uninitialized; the configuration and services stay.
    pub fn shutdown(&mut self) -> (r: CoreStatus)
        requires
            old(self).wf(),
        ensures
            final(self).wf(),
            r == CoreStatus::Success,
            !final(self).spec_initialized(),
            final(self).spec_mirror_session() is None,
            final(self).spec_config() == old(self).spec_config(),
            final(self).spec_discovery() == old(self).spec_discovery(),
            final(self).spec_file_transfer() == old(self).spec_file_transfer(),
    {
        if let Some(s) = &mut self.mirror_session {
            let _ = s.stop();
        }
        self.mirror_session = None;
        self.initialized = false;
        CoreStatus::Success
    }

    /// The devices discovered so far, in the API's terms; none before
    /// initialization.
    pub fn get_discovered_devices(&self) -> (r: Vec<DeviceInfo>)
        requires
            self.wf(),
        ensures
            !self.spec_initialized() ==> r@.len() == 0,
            self.spec_initialized() ==> (self.spec_discovery() matches Some(d) && {
                &&& forall|k: Seq<char>| d.devices().contains_key(k) ==> exists|i: int|
                    0 <= i < r@.len() && #[trigger] r@[i].id@ == k
                &&& forall|i: int| 0 <= i < r@.len() ==> d.devices().contains_key(#[trigger] r@[i].id@)
                    && r@[i] == device_info_of(d.devices()[r@[i].id@].info)
            }),
    {
        if !self.initialized {
            return Vec::new();
        }
        match &self.discovery {
            Some(d) => {
                let found = d.get_discovered();
                let mut r: Vec<DeviceInfo> = Vec::new();
                let mut i: usize = 0;
                while i < found.len()
                    invariant
                        i <= found@.len(),
                        r@.len() == i,
                        forall|j: int| 0 <= j < i ==> #[trigger] r@[j] == device_info_of(found@[j]),
                    decreases found@.len() - i,
                {
                    r.push(DeviceInfo::from(found[i].duplicate()));
                    i = i + 1;
                }
                proof {
                    assert forall|k: Seq<char>| d.devices().contains_key(k) implies exists|i: int|
                        0 <= i < r@.len() && #[trigger] r@[i].id@ == k by {
                        let j = choose|j: int| 0 <= j < found@.len() && #[trigger] found@[j].id@ == k;
                        assert(r@[j].id@ == k);
                    }
                    assert forall|i: int| 0 <= i < r@.len() implies d.devices().contains_key(#[trigger] r@[i].id@)
                        && r@[i] == device_info_of(d.devices()[r@[i].id@].info) by {
                        assert(r@[i] == device_info_of(found@[i]));
                        assert(found@[i].id@ == r@[i].id@);
                    }
                }
                r
            },
            None => Vec::new(),
        }
    }

    /// Prepares sending a file whose content was read: once initialized,
    /// cuts it into 1 MiB chunks and names the transfer with a fresh ID.
    pub fn send_file(&self, device_id: &str, data: &[u8], file_name: String) -> (r: Option<String>)
        requires
            self.wf(),
            data@.len() + SEND_CHUNK_SIZE <= u64::MAX,
            chunk_count(data@.len(), SEND_CHUNK_SIZE as nat) <= u32::MAX,
        ensures
            r is Some <==> self.spec_initialized(),
    {
        if !self.initialized {
            return None;
        }
        match &self.file_transfer {
            Some(ft) => match ft.compute_manifest(data, file_name, SEND_CHUNK_SIZE) {
                Ok(_manifest) => Some(new_uuid_v4()),
                Err(_) => None,
            },
            None => None,
        }
    }

    /// The mirroring session, if one runs.
    pub fn mirror_session(&self) -> (r: Option<&MirroringSession>)
        ensures
            r matches Some(s) ==> self.spec_mirror_session() == Some(*s),
            r is None <==> self.spec_mirror_session() is None,
    {
        self.mirror_session.as_ref()
    }

    /// The file transfer tasks, one per ID; none before initialization.
    pub fn transfer_tasks(&self) -> (r: Vec<FtTransferTask>)
        requires
            self.wf(),
        ensures
            !self.spec_initialized() ==> r@.len() == 0,
            self.spec_initialized() ==> (self.spec_file_transfer() matches Some(t) && unique_keys(r@)
                && by_key(r@) == t.tasks()),
    {
        if !self.initialized {
            return Vec::new();
        }
        match &self.file_transfer {
            Some(t) => t.get_tasks(),
            None => Vec::new(),
        }
    }

    /// Cancelling a transfer is accepted and does nothing yet.
    pub fn cancel_transfer(&self, task_id: &str) -> (r: CoreStatus)
        ensures
            r == CoreStatus::Success,
    {
        CoreStatus::Success
    }

    /// Starts a mirroring session with the given configuration, in place of
    /// any session there was. Refused before initialization, and for a
    /// configuration that a session does not accept; then nothing changes.
    pub fn start_mirror_session(&mut self, config: SessionConfig) -> (r: CoreStatus)
        requires
            (config.video_width != 0 && config.video_height != 0 && config.audio_sample_rate != 0)
                ==> bitrates_fit(session_config_of(config)),
        ensures
            r == if !old(self).spec_initialized() {
                CoreStatus::NotInitialized
            } else if !session_config_accepted(config) {
                CoreStatus::InitFailed
            } else {
                CoreStatus::Success
            },
            r == CoreStatus::Success ==> (final(self).spec_mirror_session() matches Some(s)
                && s.spec_state() == SessionState::Active
                && s.spec_config() == Some(session_config_of(config))
                && s.spec_total_video_frames() == 0 && s.spec_total_audio_frames() == 0
                && s.spec_total_input_events() == 0),
            r != CoreStatus::Success ==> final(self).spec_mirror_session() == old(self).spec_mirror_session(),
            final(self).spec_initialized() == old(self).spec_initialized(),
            final(self).spec_config() == old(self).spec_config(),
            final(self).spec_discovery() == old(self).spec_discovery(),
            final(self).spec_pairing() == old(self).spec_pairing(),
            final(self).spec_file_transfer() == old(self).spec_file_transfer(),
            old(self).wf() ==> final(self).wf(),
    {
        if !self.initialized {
            return CoreStatus::NotInitialized;
        }
        let video_format = parse_pixel_format(config.video_format.as_str());
        let audio_format = parse_sample_format(config.audio_format.as_str());
        let inner_config = InnerSessionConfig {
            video_width: config.video_width,
            video_height: config.video_height,
            video_format,
            frame_rate: config.frame_rate,
            audio_sample_rate: config.audio_sample_rate,
            audio_channels: config.audio_channels,
            audio_format,
        };
        let mut session = MirroringSession::new();
        if session.configure(inner_config).is_err() {
            return CoreStatus::InitFailed;
        }
        if session.start().is_err() {
            return CoreStatus::InvalidState;
        }
        self.mirror_session = Some(session);
        CoreStatus::Success
    }

    /// Stops and drops the mirroring session, if there is one.
    pub fn stop_mirror_session(&mut self) -> (r: CoreStatus)
        ensures
            r == CoreStatus::Success,
            final(self).spec_mirror_session() is None,
            final(self).spec_initialized() == old(self).spec_initialized(),
            final(self).spec_config() == old(self).spec_config(),
            final(self).spec_discovery() == old(self).spec_discovery(),
            final(self).spec_pairing() == old(self).spec_pairing(),
            final(self).spec_file_transfer() == old(self).spec_file_transfer(),
            old(self).wf() ==> final(self).wf(),
    {
        if let Some(s) = &mut self.mirror_session {
            let _ = s.stop();
        }
        self.mirror_session = None;
        CoreStatus::Success
    }
}

impl Default for MmcCore {
    fn default() -> (r: MmcCore)
        ensures
            r.wf(),
            !r.spec_initialized(),
            r.spec_config() is None,
            r.spec_mirror_session() is None,
    {
        MmcCore::new()
    }
}

} // verus!
