use mmc::gui::app::{GuiDevice, Tab};
use mmc::gui::http_server::{route_of, HttpRoute};
use mmc::gui::platform::{get_screen_size, platform_info_from};
use mmc::protobuf::{ProtoDeviceType, ProtoKeyEventType, ProtoTouchType, ProtoTransferErrorReason};
use mmc::storage::{DeviceType, StorageService};
use mmc::text::decimal_string;

#[test]
fn screen_size_off_windows() {
    assert_eq!(get_screen_size(), (1920, 1080));
}

#[test]
fn platform_info_names() {
    let info = platform_info_from("macos", "aarch64", "my-host_1".to_string(), "0123abcd-ffff-4000-8000-000000000000");
    assert_eq!(info.os, "macOS");
    assert_eq!(info.arch, "arm64");
    assert_eq!(info.hostname, "my-host_1");
    assert_eq!(info.device_id, "myhost1-0123abcd");
    let other = platform_info_from("freebsd", "riscv64", "h".to_string(), "abcdefgh");
    assert_eq!(other.os, "freebsd");
    assert_eq!(other.arch, "riscv64");
}

#[test]
fn gui_device_from_discovery() {
    let info = mmc::discovery::discovery::DeviceInfo::new("tv._mmc._tcp.local.", "h", 3, &[("type".to_string(), "tv".to_string())]);
    let device = GuiDevice::from(info);
    assert_eq!(device.device_type, "tv");
    assert!(device.online);
    assert_eq!(device.name, "tv");
    assert_ne!(Tab::Dashboard, Tab::Logs);
}

#[test]
fn protobuf_codes() {
    assert_eq!(ProtoDeviceType::Wearable.to_i32(), 5);
    assert_eq!(ProtoDeviceType::from_i32(3), Some(ProtoDeviceType::Pc));
    assert_eq!(ProtoDeviceType::from_i32(6), None);
    assert_eq!(ProtoTransferErrorReason::default().to_i32(), 0);
    assert_eq!(ProtoTouchType::from_i32(4), Some(ProtoTouchType::Cancel));
    assert_eq!(ProtoKeyEventType::Text.to_i32(), 3);
}

#[test]
fn storage_defaults() {
    assert_eq!(DeviceType::default(), DeviceType::Unknown);
    let _service = StorageService::new();
}

#[test]
fn decimal_text() {
    assert_eq!(decimal_string(0), "0");
    assert_eq!(decimal_string(1234567890), "1234567890");
    assert_eq!(decimal_string(u64::MAX), "18446744073709551615");
}

#[test]
fn http_routes() {
    assert_eq!(route_of("/"), HttpRoute::Index);
    assert_eq!(route_of("/index.html"), HttpRoute::Index);
    assert_eq!(route_of("/api/status"), HttpRoute::Status);
    assert_eq!(route_of("/api/devices"), HttpRoute::Devices);
    assert_eq!(route_of("/api/other"), HttpRoute::NotFound);
    assert_eq!(route_of("/api/status").status_code(), 200);
    assert_eq!(route_of("/nope").status_code(), 404);
    assert_eq!(HttpRoute::Index.content_type(), Some("text/html; charset=utf-8"));
    assert_eq!(HttpRoute::Devices.content_type(), Some("application/json"));
    assert_eq!(HttpRoute::NotFound.content_type(), None);
}

#[test]
fn text_trimming_and_words() {
    assert_eq!(mmc::text::trim("  a b \t\n"), "a b");
    assert_eq!(mmc::text::trim("   "), "");
    assert!(mmc::text::starts_with("pair x", "pair "));
    assert!(!mmc::text::starts_with("pai", "pair "));
    assert_eq!(mmc::text::split_word("  one two"), ("one", " two"));
    assert_eq!(mmc::text::split_word("   "), ("", ""));
}

#[test]
fn platform_info_of_this_machine() {
    let info = mmc::gui::platform::get_platform_info("linux", "x86_64", Some("my-host_1".to_string()));
    assert_eq!(info.os, "Linux");
    assert_eq!(info.arch, "x64");
    assert_eq!(info.hostname, "my-host_1");
    assert!(info.device_id.starts_with("myhost1-"));
    assert_eq!(info.device_id.len(), "myhost1-".len() + 8);
    let info = mmc::gui::platform::get_platform_info("plan9", "mips", None);
    assert_eq!(info.os, "plan9");
    assert_eq!(info.hostname, "Unknown");
    assert!(info.device_id.starts_with("Unknown-"));
}

#[test]
fn gui_log_keeps_newest_lines() {
    let mut log = mmc::gui::app::GuiLog::new(2);
    log.add_log("10:00:00".to_string(), "info", "first");
    log.add_log("10:00:01".to_string(), "warn", "second");
    log.add_log("10:00:02".to_string(), "error", "third");
    let lines = log.entries();
    assert_eq!(lines.len(), 2);
    assert_eq!(lines[0], ("10:00:02".to_string(), "[ERROR] third".to_string()));
    assert_eq!(lines[1], ("10:00:01".to_string(), "[WARN] second".to_string()));
    let mut empty = mmc::gui::app::GuiLog::new(0);
    empty.push_front("t".to_string(), "x".to_string());
    assert!(empty.entries().is_empty());
}

#[test]
fn gui_startup_log_and_buttons() {
    let mut log = mmc::gui::app::GuiLog::startup("12:00:00".to_string(), "0.1.0", "Linux", "x86_64", 8080, true);
    let lines = log.entries();
    assert_eq!(lines.len(), 6);
    assert_eq!(lines[0].1, "Clipboard service initialized");
    assert_eq!(lines[1].1, "Transfer service initialized");
    assert_eq!(lines[2].1, "Discovery service ready (mDNS)");
    assert_eq!(lines[3].1, "GUI server running on http://localhost:8080");
    assert_eq!(lines[4].1, "Platform: Linux (x86_64)");
    assert_eq!(lines[5].1, "MMC Control Center v0.1.0 initialized");
    assert_eq!(lines[5].0, "12:00:00");
    assert!(!log.start_mirroring("12:00:01".to_string(), 0));
    assert_eq!(log.entries()[0].1, "[WARN] Please pair with a device first in Devices tab");
    assert!(log.start_mirroring("12:00:02".to_string(), 1));
    assert_eq!(log.entries()[0].1, "[INFO] Starting screen mirror session...");
    assert!(!log.stop_mirroring("12:00:03".to_string()));
    assert_eq!(log.entries()[0].1, "[INFO] Stopping screen mirror session...");
    log.clear_logs("12:00:04".to_string());
    let lines = log.entries();
    assert_eq!(lines.len(), 1);
    assert_eq!(lines[0].1, "[INFO] Logs cleared");
    let off = mmc::gui::app::GuiLog::startup("t".to_string(), "1", "a", "b", 1, false);
    assert_eq!(off.entries()[2].1, "Discovery service unavailable");
}
