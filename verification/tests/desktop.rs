use mmc::clipboard::error::ClipboardError;
use mmc::clipboard::manager::ClipboardManager;
use mmc::desktop::clipboard::PcClipboardMonitor;
use mmc::desktop::commands::{ClipboardCommand, DeviceCommand, MirrorCommand, TransferCommand, DEFAULT_MONITOR_SECS};
use mmc::desktop::error::DesktopError;
use mmc::desktop::interactive::{parse_interactive_line, InteractiveCommand};
use mmc::desktop::state::{AppState, DesktopTransferProgress, DesktopTransferTask, PairedDevice};
use mmc::media::platform::PlatformType;

#[test]
fn test_device_command_variants() {
    let _discover = DeviceCommand::Discover;
    let _pair = DeviceCommand::Pair { device_id: "test".to_string() };
    let _list = DeviceCommand::List;
    let _unpair = DeviceCommand::Unpair { device_id: "test".to_string() };
}

#[test]
fn test_transfer_command_variants() {
    let _send = TransferCommand::Send { device_id: "test".to_string(), file: "/path/to/file".to_string() };
    let _list = TransferCommand::List;
    let _cancel = TransferCommand::Cancel { task_id: "task-1".to_string() };
}

#[test]
fn test_clipboard_command_variants() {
    let _get = ClipboardCommand::Get;
    let _set = ClipboardCommand::SetText { text: "hello".to_string() };
    let _sync = ClipboardCommand::Sync { device_id: "device-1".to_string() };
    let _monitor = ClipboardCommand::Monitor { duration_secs: 60 };
}

#[test]
fn test_mirror_command_variants() {
    let _start = MirrorCommand::Start { device_id: "device-1".to_string() };
    let _stop = MirrorCommand::Stop;
    let _status = MirrorCommand::Status;
}

#[test]
fn test_clipboard_monitor_default_duration() {
    let cmd = ClipboardCommand::Monitor { duration_secs: DEFAULT_MONITOR_SECS };
    match cmd {
        ClipboardCommand::Monitor { duration_secs } => assert_eq!(duration_secs, 30),
        _ => panic!("Expected Monitor command"),
    }
}

#[test]
fn desktop_errors_from_services() {
    let e = DesktopError::from(ClipboardError::ContentTooLarge(20, 10));
    assert!(matches!(e, DesktopError::Clipboard(ref m) if m == "Content too large: 20 bytes (max: 10)"));
    let e = DesktopError::from(mmc::pairing::error::Error::NotFound);
    assert!(matches!(e, DesktopError::Pairing(ref m) if m == "Not found"));
    let e = DesktopError::from(mmc::storage::error::Error::Query("bad".to_string()));
    assert!(matches!(e, DesktopError::Storage(ref m) if m == "Query error: bad"));
    let e = DesktopError::from(mmc::media::error::MediaError::NotInitialized);
    assert!(matches!(e, DesktopError::Mirror(ref m) if m == "Not initialized"));
    let e = DesktopError::from(std::io::Error::new(std::io::ErrorKind::Other, "disk"));
    assert!(matches!(e, DesktopError::Io(_)));
}

#[test]
fn desktop_records() {
    let device = PairedDevice { id: "a".to_string(), name: "A".to_string(), ip: "1.2.3.4".to_string(), port: 8080, paired_at: 1 };
    assert_eq!(device.port, 8080);
    let task = DesktopTransferTask {
        task_id: "t".to_string(),
        file_name: "f".to_string(),
        state: "Idle".to_string(),
        progress: DesktopTransferProgress { bytes_transferred: 1, total_bytes: 2, percent: 50 },
    };
    assert_eq!(task.progress.percent, 50);
}

fn app_state() -> AppState {
    AppState::new(Some("test-host".to_string()), PlatformType::Linux)
}

#[test]
fn test_app_state_new() {
    let state = app_state();
    assert!(!state.device_id().is_empty());
    assert!(!state.device_name().is_empty());
    assert!(!state.is_initialized());
}

#[test]
fn test_app_state_init() {
    let mut state = app_state();
    state.init().unwrap();
    assert!(state.is_initialized());
}

#[test]
fn test_get_paired_devices_empty() {
    let state = app_state();
    assert!(state.get_paired_devices().is_empty());
}

#[test]
fn test_get_transfer_tasks_empty() {
    let state = app_state();
    assert!(state.get_transfer_tasks().is_empty());
}

#[test]
fn test_platform_type() {
    let state = app_state();
    match state.platform_type() {
        PlatformType::Windows | PlatformType::Macos | PlatformType::Linux | PlatformType::Android
        | PlatformType::Ios | PlatformType::Unknown => {}
    }
}

#[test]
fn test_set_clipboard_content() {
    let mut state = app_state();
    state.set_clipboard_content("test text").unwrap();
    let content = state.get_clipboard_content().unwrap();
    assert_eq!(content, Some("test text".to_string()));
}

#[test]
fn test_get_clipboard_content_empty() {
    let state = app_state();
    assert!(state.get_clipboard_content().unwrap().is_none());
}

#[test]
fn test_discover_devices() {
    let state = app_state();
    let devices = state.discover_devices().unwrap();
    assert!(!devices.is_empty());
    assert_eq!(devices.len(), 2);
}

#[test]
fn test_pair_device() {
    let mut state = app_state();
    let result = state.pair_device("test-device").unwrap();
    assert!(result);
    assert!(!state.get_paired_devices().is_empty());
}

#[test]
fn test_send_file_stub() {
    let state = app_state();
    let task_id = state.send_file("test-device", "/path/to/file").unwrap();
    assert!(!task_id.is_empty());
}

#[test]
fn app_state_without_host_name_uses_fallback() {
    let state = AppState::new(None, PlatformType::Windows);
    assert_eq!(state.device_name(), "Desktop Device");
    assert_eq!(state.platform_type(), PlatformType::Windows);
}

#[test]
fn pairing_twice_keeps_one_record_and_unpair_removes_it() {
    let mut state = app_state();
    state.pair_device("phone").unwrap();
    state.pair_device("phone").unwrap();
    state.pair_device("tablet").unwrap();
    let paired = state.get_paired_devices();
    assert_eq!(paired.len(), 2);
    let phone = paired.iter().find(|d| d.id == "phone").unwrap();
    assert_eq!(phone.name, "phone");
    assert_eq!(phone.ip, "192.168.1.100");
    assert_eq!(phone.port, 8080);
    state.unpair_device("phone").unwrap();
    state.unpair_device("unknown").unwrap();
    let paired = state.get_paired_devices();
    assert_eq!(paired.len(), 1);
    assert_eq!(paired[0].id, "tablet");
    state.cancel_transfer("none").unwrap();
    assert!(state.get_transfer_tasks().is_empty());
}

#[test]
fn simulated_discovery_lists_two_android_devices() {
    let devices = app_state().discover_devices().unwrap();
    assert_eq!(devices[0].id, "android-phone-001");
    assert_eq!(devices[0].name, "Android Phone");
    assert_eq!(devices[1].id, "android-tablet-002");
    assert_eq!(devices[1].ip, "192.168.1.101");
    assert_eq!(devices[1].port, 8080);
}

#[test]
fn clipboard_too_large_and_mirror_without_config_fail() {
    let mut state = app_state();
    let big = "x".repeat(10 * 1024 * 1024 + 1);
    assert!(matches!(state.set_clipboard_content(&big), Err(DesktopError::Clipboard(_))));
    assert!(state.get_clipboard_content().unwrap().is_none());
    assert!(matches!(state.start_mirror("phone"), Err(DesktopError::Mirror(_))));
    assert!(state.mirror_session().is_none());
    state.stop_mirror().unwrap();
    state.sync_clipboard("phone").unwrap();
}

#[test]
fn interactive_lines_are_parsed() {
    assert!(matches!(parse_interactive_line("   "), InteractiveCommand::Empty));
    assert!(matches!(parse_interactive_line(" quit \n"), InteractiveCommand::Quit));
    assert!(matches!(parse_interactive_line("exit"), InteractiveCommand::Quit));
    assert!(matches!(parse_interactive_line("help"), InteractiveCommand::Help));
    assert!(matches!(parse_interactive_line("discover"), InteractiveCommand::Discover));
    assert!(matches!(parse_interactive_line("devices"), InteractiveCommand::Devices));
    assert!(matches!(parse_interactive_line("info"), InteractiveCommand::Info));
    match parse_interactive_line("pair phone-1\n") {
        InteractiveCommand::Pair(d) => assert_eq!(d, "phone-1"),
        other => panic!("unexpected {:?}", other),
    }
    match parse_interactive_line("unpair phone-1") {
        InteractiveCommand::Unpair(d) => assert_eq!(d, "phone-1"),
        other => panic!("unexpected {:?}", other),
    }
    match parse_interactive_line("send dev   /tmp/a.txt extra") {
        InteractiveCommand::Send(d, f) => {
            assert_eq!(d, "dev");
            assert_eq!(f, "/tmp/a.txt");
        },
        other => panic!("unexpected {:?}", other),
    }
    assert!(matches!(parse_interactive_line("send dev"), InteractiveCommand::SendUsage));
    match parse_interactive_line("clipboard set hello  world") {
        InteractiveCommand::ClipboardSet(t) => assert_eq!(t, "hello  world"),
        other => panic!("unexpected {:?}", other),
    }
    assert!(matches!(parse_interactive_line("clipboard get"), InteractiveCommand::ClipboardGet));
    match parse_interactive_line("mirror tv") {
        InteractiveCommand::Mirror(d) => assert_eq!(d, "tv"),
        other => panic!("unexpected {:?}", other),
    }
    assert!(matches!(parse_interactive_line("mirror stop"), InteractiveCommand::MirrorStop));
    assert!(matches!(parse_interactive_line("transfers"), InteractiveCommand::Transfers));
    match parse_interactive_line(" frobnicate ") {
        InteractiveCommand::Unknown(l) => assert_eq!(l, "frobnicate"),
        other => panic!("unexpected {:?}", other),
    }
    assert!(matches!(parse_interactive_line("pair"), InteractiveCommand::Unknown(_)));
}

#[test]
fn test_clipboard_monitor_new() {
    let monitor = PcClipboardMonitor::new(ClipboardManager::new());
    assert!(monitor.is_ok());
    let monitor = monitor.unwrap();
    assert!(!monitor.is_running());
}

#[test]
fn test_clipboard_monitor_start_stop() {
    let mut monitor = PcClipboardMonitor::new(ClipboardManager::new()).unwrap();
    monitor.start().unwrap();
    assert!(monitor.is_running());
    monitor.stop().unwrap();
    assert!(!monitor.is_running());
}

#[test]
fn test_set_system_clipboard_stub() {
    let mut monitor = PcClipboardMonitor::new(ClipboardManager::new()).unwrap();
    monitor.set_system_clipboard("test").unwrap();
    assert_eq!(monitor.last_content(), Some(&"test".to_string()));
}

#[test]
fn test_check_and_sync_not_running() {
    let mut monitor = PcClipboardMonitor::new(ClipboardManager::new()).unwrap();
    let result = monitor.check_and_sync(Some("copied".to_string())).unwrap();
    assert!(result.is_none());
    assert!(monitor.last_content().is_none());
}

#[test]
fn test_sync_to_system_empty() {
    let monitor = PcClipboardMonitor::new(ClipboardManager::new()).unwrap();
    assert!(monitor.sync_to_system().unwrap().is_none());
}

#[test]
fn monitor_takes_new_system_text_once() {
    let mut monitor = PcClipboardMonitor::new(ClipboardManager::new()).unwrap();
    monitor.start().unwrap();
    assert!(monitor.check_and_sync(None).unwrap().is_none());
    assert!(monitor.check_and_sync(Some(String::new())).unwrap().is_none());
    let content = monitor.check_and_sync(Some("copied".to_string())).unwrap().unwrap();
    match content.content {
        mmc::protocol::ClipboardData::Text { text } => assert_eq!(text, "copied"),
        _ => panic!("expected text"),
    }
    assert_eq!(monitor.last_content(), Some(&"copied".to_string()));
    assert_eq!(monitor.manager().history_size(), 1);
    assert!(monitor.check_and_sync(Some("copied".to_string())).unwrap().is_none());
    assert_eq!(monitor.manager().history_size(), 1);
    // The manager's own text matches the last text: nothing to write back.
    assert!(monitor.sync_to_system().unwrap().is_none());
    monitor.set_system_clipboard("other").unwrap();
    assert_eq!(monitor.sync_to_system().unwrap(), Some("copied".to_string()));
}

#[test]
fn monitor_passes_on_urls_and_keeps_images() {
    let mut manager = ClipboardManager::new();
    manager
        .set_remote(mmc::protocol::ClipboardContent {
            timestamp_ms: 1,
            content: mmc::protocol::ClipboardData::Url { url: "https://a.com".to_string() },
        })
        .unwrap();
    let monitor = PcClipboardMonitor::new(manager).unwrap();
    assert_eq!(monitor.sync_to_system().unwrap(), Some("https://a.com".to_string()));
    let mut manager = ClipboardManager::new();
    manager
        .set_remote(mmc::protocol::ClipboardContent {
            timestamp_ms: 1,
            content: mmc::protocol::ClipboardData::Image { image_png: vec![1, 2] },
        })
        .unwrap();
    let monitor = PcClipboardMonitor::new(manager).unwrap();
    assert!(monitor.sync_to_system().unwrap().is_none());
}

#[test]
fn monitor_reports_oversized_text() {
    let mut monitor = PcClipboardMonitor::new(ClipboardManager::with_limits(5, 3)).unwrap();
    monitor.start().unwrap();
    assert!(matches!(monitor.check_and_sync(Some("toolong".to_string())), Err(DesktopError::Clipboard(_))));
    assert_eq!(monitor.last_content(), Some(&"toolong".to_string()));
    assert!(monitor.manager().is_empty());
}

#[test]
fn desktop_error_messages() {
    assert_eq!(DesktopError::Mirror("m".to_string()).to_string(), "Mirror error: m");
    assert_eq!(DesktopError::NotInitialized.to_string(), "Not initialized");
    assert_eq!(DesktopError::InvalidCommand("x".to_string()).to_string(), "Invalid command: x");
    let io = DesktopError::Io(std::io::Error::new(std::io::ErrorKind::Other, "gone"));
    assert_eq!(io.to_string(), "IO error: gone");
}
