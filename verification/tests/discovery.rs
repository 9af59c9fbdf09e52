use mmc::discovery::discovery::{Device, DeviceInfo, DeviceType, DiscoveryEvent, DiscoveryService, SERVICE_TYPE};
use mmc::discovery::error::Error;
use mmc::discovery::network::{ConnectionState, NetworkConnection, NetworkEvent};
use mmc::protocol::{Frame, FrameType};

#[test]
fn test_device_type_from_str() {
    assert_eq!(DeviceType::from("phone"), DeviceType::Phone);
    assert_eq!(DeviceType::from("PC"), DeviceType::Pc);
    assert_eq!(DeviceType::from("unknown_type"), DeviceType::Unknown);
}

#[test]
fn device_type_names() {
    assert_eq!(DeviceType::from("Desktop"), DeviceType::Pc);
    assert_eq!(DeviceType::from("TV"), DeviceType::Tv);
    assert_eq!(DeviceType::default(), DeviceType::Unknown);
    assert_eq!(DeviceType::Wearable.txt_name(), "wearable");
}

#[test]
fn test_service_type() {
    assert_eq!(DiscoveryService::service_type(), "_mmc._tcp.local.");
    assert_eq!(SERVICE_TYPE, "_mmc._tcp.local.");
}

fn txt(pairs: &[(&str, &str)]) -> Vec<(String, String)> {
    pairs.iter().map(|(k, v)| (k.to_string(), v.to_string())).collect()
}

#[test]
fn device_info_from_record() {
    let records = txt(&[("type", "Tablet"), ("os", "Android 14"), ("ver", "1.2.0")]);
    let info = DeviceInfo::new("Living Room._mmc._tcp.local.", "192.168.1.7", 8080, &records);
    assert_eq!(info.id, "Living Room._mmc._tcp.local.");
    assert_eq!(info.name, "Living Room");
    assert_eq!(info.device_type, DeviceType::Tablet);
    assert_eq!(info.os_version, "Android 14");
    assert_eq!(info.app_version, "1.2.0");
    assert_eq!(info.ip, "192.168.1.7");
    assert_eq!(info.port, 8080);
}

#[test]
fn device_info_without_records() {
    let info = DeviceInfo::new("plain-name", "h", 1, &[]);
    assert_eq!(info.name, "plain-name");
    assert_eq!(info.device_type, DeviceType::Unknown);
    assert_eq!(info.os_version, "");
    assert_eq!(info.app_version, "");
}

#[test]
fn device_expiry() {
    assert!(!Device::expired_after(20_000_000_000, 10));
    assert!(Device::expired_after(20_000_000_001, 10));
    let info = DeviceInfo::new("d._mmc._tcp.local.", "h", 1, &[]);
    let device = Device { info, last_seen_instant: std::time::Instant::now() };
    assert!(!device.is_expired(60));
}

#[test]
fn discovery_table() {
    let mut service = DiscoveryService::new();
    let mut events = service.events();
    assert!(service.record_resolved("a._mmc._tcp.local.", "10.0.0.1", 1, &[]));
    assert!(!service.record_resolved("a._mmc._tcp.local.", "10.0.0.2", 1, &[]));
    assert!(service.record_resolved("b._mmc._tcp.local.", "10.0.0.3", 1, &[]));
    let devices = service.get_discovered();
    assert_eq!(devices.len(), 2);
    assert!(devices.iter().any(|d| d.ip == "10.0.0.2"));
    assert!(matches!(events.try_recv().unwrap(), DiscoveryEvent::DeviceFound(_)));
    assert!(matches!(events.try_recv().unwrap(), DiscoveryEvent::DeviceUpdated(_)));
    service.cleanup_expired(60);
    assert_eq!(service.get_discovered().len(), 2);
}

#[test]
fn txt_properties() {
    let props = DiscoveryService::txt_properties(DeviceType::Phone, "iOS 17", "2.0");
    assert_eq!(props[0], ("type".to_string(), "phone".to_string()));
    assert_eq!(props[1], ("os".to_string(), "iOS 17".to_string()));
    assert_eq!(props[2], ("ver".to_string(), "2.0".to_string()));
}

#[test]
fn discovery_error_messages() {
    assert_eq!(Error::NotStarted.to_string(), "Service not started");
    assert_eq!(Error::Mdns("x".to_string()).to_string(), "mDNS error: x");
}

#[test]
fn connection_states() {
    let mut conn = NetworkConnection::new("dev-1");
    assert_eq!(conn.device_id(), "dev-1");
    assert_eq!(conn.state(), ConnectionState::Disconnected);
    conn.begin_connect();
    assert_eq!(conn.state(), ConnectionState::Connecting);
    conn.connected();
    assert_eq!(conn.state(), ConnectionState::Connected);
    assert!(!conn.is_heartbeat_timeout());
    conn.frame_received(FrameType::Heartbeat);
    conn.heartbeat_sent();
    conn.close();
    assert_eq!(conn.state(), ConnectionState::Disconnected);
}

#[test]
fn heartbeat_timeout_bound() {
    assert!(!NetworkConnection::timed_out(15_000_000_000, 15));
    assert!(NetworkConnection::timed_out(15_000_000_001, 15));
}

#[test]
fn test_connection_state_transitions() {
    let conn = NetworkConnection::new("test-device");
    assert_eq!(conn.state(), ConnectionState::Disconnected);
}

#[test]
fn test_heartbeat_interval() {
    let conn = NetworkConnection::new("test-device");
    assert_eq!(conn.heartbeat_interval_secs(), 5);
    assert_eq!(conn.heartbeat_timeout_secs(), 15);
}

#[test]
fn test_network_event_types() {
    let events = vec![
        NetworkEvent::ConnectionEstablished("device1".to_string()),
        NetworkEvent::ConnectionLost("device1".to_string()),
        NetworkEvent::HeartbeatTimeout("device1".to_string()),
        NetworkEvent::MessageReceived("device1".to_string(), Frame::new(FrameType::Heartbeat, vec![])),
    ];
    assert!(matches!(events[0], NetworkEvent::ConnectionEstablished(_)));
    assert!(matches!(events[1], NetworkEvent::ConnectionLost(_)));
    assert!(matches!(events[2], NetworkEvent::HeartbeatTimeout(_)));
    assert!(matches!(events[3], NetworkEvent::MessageReceived(_, _)));
}

#[test]
fn test_connection_state_enum() {
    let states = vec![
        ConnectionState::Disconnected,
        ConnectionState::Connecting,
        ConnectionState::Connected,
        ConnectionState::Handshaking,
        ConnectionState::Ready,
        ConnectionState::Failed,
    ];
    assert_eq!(states.len(), 6);
}

#[test]
fn discovery_test_discovery_service_creation() {
    let service = DiscoveryService::new();
    assert!(service.get_discovered().is_empty());
}

#[test]
fn lib_test_discovery_service_creation() {
    let service = DiscoveryService::new();
    assert!(service.get_discovered().is_empty());
    assert_eq!(DiscoveryService::service_type(), SERVICE_TYPE);
}

#[test]
fn test_heartbeat_received_at_restarts_timeout() {
    let mut conn = NetworkConnection::new("dev-2");
    let now = std::time::Instant::now();
    conn.frame_received_at(FrameType::Ping, now);
    conn.frame_received_at(FrameType::Heartbeat, now);
    conn.heartbeat_sent_at(now);
    assert!(!conn.is_heartbeat_timeout());
    assert_eq!(conn.state(), ConnectionState::Disconnected);
}

#[test]
fn record_resolved_reads_txt_records() {
    let mut service = DiscoveryService::new();
    let mut events = service.events();
    let txt = vec![
        ("type".to_string(), "Tablet".to_string()),
        ("os".to_string(), "Android 14".to_string()),
        ("ver".to_string(), "1.2.3".to_string()),
    ];
    assert!(service.record_resolved("Kitchen._mmc._tcp.local.", "10.0.0.9", 4242, &txt));
    let devices = service.get_discovered();
    assert_eq!(devices.len(), 1);
    let d = &devices[0];
    assert_eq!(d.id, "Kitchen._mmc._tcp.local.");
    assert_eq!(d.name, "Kitchen");
    assert_eq!(d.device_type, DeviceType::Tablet);
    assert_eq!(d.os_version, "Android 14");
    assert_eq!(d.app_version, "1.2.3");
    assert_eq!(d.ip, "10.0.0.9");
    assert_eq!(d.port, 4242);
    match events.try_recv().unwrap() {
        DiscoveryEvent::DeviceFound(info) => assert_eq!(info.name, "Kitchen"),
        _ => panic!("expected DeviceFound"),
    }
    assert!(!service.record_resolved("Kitchen._mmc._tcp.local.", "10.0.0.9", 4242, &[]));
    match events.try_recv().unwrap() {
        DiscoveryEvent::DeviceUpdated(info) => {
            assert_eq!(info.device_type, DeviceType::Unknown);
            assert_eq!(info.os_version, "");
        }
        _ => panic!("expected DeviceUpdated"),
    }
}
