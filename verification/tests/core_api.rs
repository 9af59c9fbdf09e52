use mmc::core_api::api::{parse_pixel_format, parse_sample_format, CoreStatus, MmcCore, PairingResult, SessionConfig};
use mmc::core_api::error::CoreError;
use mmc::core_api::types::{CoreConfig, DeviceInfo, DeviceType, TransferState};
use mmc::protocol::{PixelFormat, SampleFormat};
use tempfile::tempdir;
use mmc::pairing::service::PairingResult as InnerPairingResult;
use mmc::storage::PairedDevice;

#[test]
fn test_core_status_conversion() {
    let err = CoreError::NotInitialized;
    assert_eq!(CoreStatus::from(&err), CoreStatus::NotInitialized);
    let err = CoreError::DiscoveryFailed("test".to_string());
    assert_eq!(CoreStatus::from(&err), CoreStatus::DiscoveryFailed);
}

#[test]
fn core_status_codes() {
    assert_eq!(CoreStatus::Success.to_u32(), 0);
    assert_eq!(CoreStatus::PairingFailed.to_u32(), 11);
    assert_eq!(CoreStatus::Unknown.to_u32(), 99);
}

#[test]
fn test_pairing_result_from_inner() {
    let inner = InnerPairingResult::Success {
        device_id: "device-123".to_string(),
        device_name: "Test Device".to_string(),
        shared_secret: [0u8; 32],
    };
    let result = PairingResult::from(inner);
    assert!(result.success);
    assert_eq!(result.pairing_id, "device-123");
    assert!(result.error_message.is_none());

    let inner = InnerPairingResult::Rejected { pairing_id: "pair-123".to_string(), reason: "User rejected".to_string() };
    let result = PairingResult::from(inner);
    assert!(!result.success);
    assert_eq!(result.error_message, Some("User rejected".to_string()));
}

#[test]
fn device_info_from_paired_device() {
    let device = PairedDevice {
        device_id: "d".to_string(),
        device_name: "Phone".to_string(),
        device_type: mmc::storage::DeviceType::Phone,
        os_version: "14".to_string(),
        app_version: "1.0".to_string(),
        ip_address: "10.0.0.1".to_string(),
        port: 9000,
        public_key_fingerprint: "fp".to_string(),
        paired_at: 5,
        last_connected_at: None,
        trust_level: 1,
    };
    let info = DeviceInfo::from_paired_device(&device);
    assert_eq!(info.id, "d");
    assert_eq!(info.device_type, DeviceType::Phone);
    assert_eq!(info.ip, "10.0.0.1");
    assert_eq!(info.last_seen, 0);
}

#[test]
fn transfer_state_conversion() {
    assert_eq!(TransferState::from(mmc::file_transfer::transfer::TransferState::Canceled), TransferState::Canceled);
    assert_eq!(DeviceType::from(mmc::discovery::discovery::DeviceType::Tv), DeviceType::Tv);
}

#[test]
fn session_config_fields() {
    let config = SessionConfig {
        video_width: 1280,
        video_height: 720,
        video_format: "rgba".to_string(),
        frame_rate: 30,
        audio_sample_rate: 48000,
        audio_channels: 2,
        audio_format: "s16".to_string(),
    };
    assert_eq!(config.frame_rate, 30);
}

fn test_config(log_dir: Option<String>) -> CoreConfig {
    CoreConfig {
        device_id: "test-device".to_string(),
        device_name: "Test Device".to_string(),
        device_type: DeviceType::Pc,
        app_version: "1.0.0".to_string(),
        log_dir,
    }
}

#[test]
fn test_core_lifecycle() {
    let mut core = MmcCore::new();
    assert!(!core.is_initialized());
    let dir = tempdir().unwrap();
    let config = test_config(Some(dir.path().to_string_lossy().to_string()));
    let status = core.init(config);
    assert_eq!(status, CoreStatus::Success);
    assert!(core.is_initialized());
    let status = core.shutdown();
    assert_eq!(status, CoreStatus::Success);
    assert!(!core.is_initialized());
}

#[test]
fn test_double_init() {
    let mut core = MmcCore::new();
    let dir = tempdir().unwrap();
    let config = test_config(Some(dir.path().to_string_lossy().to_string()));
    let status1 = core.init(config.clone());
    assert_eq!(status1, CoreStatus::Success);
    let status2 = core.init(config);
    assert_eq!(status2, CoreStatus::AlreadyInitialized);
    let _ = core.shutdown();
}

#[test]
fn test_device_type_all_variants() {
    let types = [
        DeviceType::Unknown,
        DeviceType::Phone,
        DeviceType::Tablet,
        DeviceType::Pc,
        DeviceType::Tv,
        DeviceType::Wearable,
    ];
    for t in types {
        let debug_str = format!("{:?}", t);
        assert!(!debug_str.is_empty());
    }
}

#[test]
fn test_transfer_state_all_variants() {
    let states = [
        TransferState::Idle,
        TransferState::Preparing,
        TransferState::Transferring,
        TransferState::Paused,
        TransferState::Completed,
        TransferState::Failed,
        TransferState::Canceled,
    ];
    for s in states {
        let debug_str = format!("{:?}", s);
        assert!(!debug_str.is_empty());
    }
}

#[test]
fn test_transfer_state_equality() {
    assert_eq!(TransferState::Idle, TransferState::Idle);
    assert_eq!(TransferState::Completed, TransferState::Completed);
    assert_ne!(TransferState::Idle, TransferState::Transferring);
}

#[test]
fn test_core_config_from_values() {
    let config = CoreConfig {
        device_id: "test-device".to_string(),
        device_name: "Test Device".to_string(),
        device_type: DeviceType::Tablet,
        app_version: "2.0.0".to_string(),
        log_dir: Some("/tmp/mmc".to_string()),
    };
    assert_eq!(config.device_id, "test-device");
    assert_eq!(config.device_name, "Test Device");
    assert_eq!(config.device_type, DeviceType::Tablet);
    assert_eq!(config.app_version, "2.0.0");
    assert_eq!(config.log_dir, Some("/tmp/mmc".to_string()));
}

#[test]
fn test_core_error_display() {
    let errors = [
        (CoreError::NotInitialized, "Not initialized"),
        (CoreError::AlreadyInitialized, "Already initialized"),
        (CoreError::Timeout, "Timeout"),
        (CoreError::Cancelled, "Cancelled"),
    ];
    for (err, expected) in errors {
        let display = err.to_string();
        assert!(display.contains(expected), "Error '{}' should contain '{}'", display, expected);
    }
}

#[test]
fn test_core_error_with_message() {
    let err = CoreError::Io("file not found".to_string());
    assert!(err.to_string().contains("file not found"));
    let err = CoreError::InitFailed("config invalid".to_string());
    assert!(err.to_string().contains("config invalid"));
}

#[test]
fn test_core_error_from_io() {
    let io_err = std::io::Error::new(std::io::ErrorKind::NotFound, "test error");
    let core_err: CoreError = io_err.into();
    match core_err {
        CoreError::Io(msg) => assert!(msg.contains("test error")),
        _ => panic!("Expected Io error"),
    }
}

#[test]
fn core_error_messages_carry_prefixes() {
    assert_eq!(CoreError::StorageFailed("disk".to_string()).to_string(), "Storage error: disk");
    assert_eq!(CoreError::PairingFailed("x".to_string()).to_string(), "Pairing error: x");
    assert_eq!(CoreError::InitFailed("y".to_string()).to_string(), "Initialization failed: y");
}

#[test]
fn format_names_are_parsed() {
    assert_eq!(parse_pixel_format("BGRA8888"), PixelFormat::Bgra8888);
    assert_eq!(parse_pixel_format("NV12"), PixelFormat::Nv12);
    assert_eq!(parse_pixel_format("nv12"), PixelFormat::Rgba8888);
    assert_eq!(parse_sample_format("F32"), SampleFormat::F32);
    assert_eq!(parse_sample_format("U8"), SampleFormat::U8);
    assert_eq!(parse_sample_format("pcm"), SampleFormat::S16);
}

fn mirror_config(width: u32, channels: u32) -> SessionConfig {
    SessionConfig {
        video_width: width,
        video_height: 720,
        video_format: "RGB565".to_string(),
        frame_rate: 30,
        audio_sample_rate: 48000,
        audio_channels: channels,
        audio_format: "S32".to_string(),
    }
}

#[test]
fn mirror_session_needs_initialized_core() {
    let mut core = MmcCore::new();
    assert_eq!(core.start_mirror_session(mirror_config(1280, 2)), CoreStatus::NotInitialized);
    core.init(test_config(None));
    assert_eq!(core.start_mirror_session(mirror_config(0, 2)), CoreStatus::InitFailed);
    assert_eq!(core.start_mirror_session(mirror_config(1280, 0)), CoreStatus::InitFailed);
    assert_eq!(core.start_mirror_session(mirror_config(1280, 2)), CoreStatus::Success);
    assert_eq!(core.stop_mirror_session(), CoreStatus::Success);
    assert_eq!(core.stop_mirror_session(), CoreStatus::Success);
}

#[test]
fn core_send_file_and_discovery_need_init() {
    let mut core = MmcCore::new();
    assert!(core.send_file("peer", b"hello", "a.txt".to_string()).is_none());
    assert!(core.get_discovered_devices().is_empty());
    assert!(core.get_config().is_none());
    core.init(test_config(Some("/tmp/mmc".to_string())));
    let id = core.send_file("peer", b"hello", "a.txt".to_string()).unwrap();
    assert!(!id.is_empty());
    assert!(core.get_discovered_devices().is_empty());
    assert_eq!(core.get_config().unwrap().log_dir, Some("/tmp/mmc".to_string()));
    assert_eq!(core.cancel_transfer("t"), CoreStatus::Success);
    assert!(core.pairing().is_some());
}

#[test]
fn test_core_config_default() {
    let config = CoreConfig::for_host(Some("host".to_string()), "0.1.0".to_string());
    assert!(!config.device_id.is_empty());
    assert!(!config.device_name.is_empty());
    assert_eq!(config.device_type, DeviceType::Phone);
    assert!(!config.app_version.is_empty());
    assert!(config.log_dir.is_none());
    let config = CoreConfig::for_host(None, "0.1.0".to_string());
    assert_eq!(config.device_name, "Unknown Device");
    assert_eq!(config.device_id.len(), 36);
}
