use mmc::clipboard::error::ClipboardError;
use mmc::clipboard::frame_transport::{clipboard_data_size, ClipboardFrame, CLIPBOARD_MAGIC};
use mmc::clipboard::manager::{ClipboardEntry, ClipboardManager, ClipboardManagerEvent, ClipboardSource};
use mmc::clipboard::sync::{ClipboardConfig, ClipboardSyncer, SyncDirection, SyncEvent};
use mmc::protocol::{ClipboardContent, ClipboardData, Frame, FrameType};

fn now_ms() -> u64 {
    std::time::SystemTime::now()
        .duration_since(std::time::UNIX_EPOCH)
        .map(|d| d.as_millis() as u64)
        .unwrap_or(0)
}

fn text_content(ts: u64, text: &str) -> ClipboardContent {
    ClipboardContent { timestamp_ms: ts, content: ClipboardData::Text { text: text.to_string() } }
}

/// The JSON encoding of clipboard content (its data untagged: an object
/// with the one field of its variant).
fn encode_json(content: &ClipboardContent) -> Vec<u8> {
    let (field, value) = match &content.content {
        ClipboardData::Text { text } => ("text", serde_json::Value::String(text.clone())),
        ClipboardData::Url { url } => ("url", serde_json::Value::String(url.clone())),
        ClipboardData::Image { image_png } => (
            "image_png",
            serde_json::Value::Array(image_png.iter().map(|b| serde_json::Value::from(*b)).collect()),
        ),
    };
    let mut data = serde_json::Map::new();
    data.insert(field.to_string(), value);
    let mut root = serde_json::Map::new();
    root.insert("timestamp_ms".to_string(), serde_json::Value::from(content.timestamp_ms));
    root.insert("content".to_string(), serde_json::Value::Object(data));
    serde_json::to_vec(&serde_json::Value::Object(root)).unwrap()
}

#[test]
fn test_clipboard_frame_new() {
    let content = text_content(now_ms(), "Hello");
    let frame = ClipboardFrame::new(content, "device-1".to_string());
    assert_eq!(frame.source_device_id, "device-1");
    assert!(frame.content.timestamp_ms > 0);
}

#[test]
fn test_clipboard_frame_text() {
    let frame = ClipboardFrame::text("Hello World", "device-1");
    assert!(frame.content.timestamp_ms > 0);
    assert!(matches!(frame.content.content, ClipboardData::Text { text: ref t } if t == "Hello World"));
    assert_eq!(frame.source_device_id, "device-1");
}

#[test]
fn test_clipboard_frame_url() {
    let frame = ClipboardFrame::url("https://example.com", "device-2");
    assert!(matches!(frame.content.content, ClipboardData::Url { url: ref u } if u == "https://example.com"));
}

#[test]
fn test_clipboard_frame_image() {
    let image_data = vec![0x89, 0x50, 0x4E, 0x47];
    let frame = ClipboardFrame::image(image_data.clone(), "device-3");
    assert!(matches!(frame.content.content, ClipboardData::Image { image_png: ref img } if img == &image_data));
}

#[test]
fn test_clipboard_frame_roundtrip_text() {
    let frame = ClipboardFrame::text("Test clipboard", "source-1");
    assert_eq!(clipboard_data_size(&frame.content.content), 14);
}

#[test]
fn test_clipboard_frame_roundtrip_url() {
    let frame = ClipboardFrame::url("https://test.org", "source-2");
    assert!(matches!(frame.content.content, ClipboardData::Url { url: ref u } if u == "https://test.org"));
}

#[test]
fn test_clipboard_frame_image_data() {
    let image = vec![1, 2, 3, 4, 5];
    let frame = ClipboardFrame::image(image.clone(), "src-3");
    assert!(matches!(frame.content.content, ClipboardData::Image { image_png: ref img } if img == &image));
}

#[test]
fn test_clipboard_data_size() {
    let text_data = ClipboardData::Text { text: "Hello".to_string() };
    assert_eq!(clipboard_data_size(&text_data), 5);
    let url_data = ClipboardData::Url { url: "https://a.com".to_string() };
    assert_eq!(clipboard_data_size(&url_data), 13);
    let image_data = ClipboardData::Image { image_png: vec![0u8; 100] };
    assert_eq!(clipboard_data_size(&image_data), 100);
}

#[test]
fn clipboard_data_size_counts_utf8_bytes() {
    let data = ClipboardData::Text { text: "héllo".to_string() };
    assert_eq!(clipboard_data_size(&data), 6);
}

#[test]
fn clipboard_magic_value() {
    assert_eq!(CLIPBOARD_MAGIC, 0x4D4D4343);
}

#[test]
fn test_clipboard_frame_to_frame_roundtrip() {
    let frame = ClipboardFrame::text("Hello World", "device-1");
    let protocol_frame = frame.to_frame(encode_json(&frame.content)).unwrap();
    assert_eq!(protocol_frame.frame_type, FrameType::ClipboardContent);

    let (source, payload) = ClipboardFrame::from_frame(&protocol_frame).unwrap();
    assert_eq!(source, "device-1");
    let decoded: serde_json::Value = serde_json::from_slice(&payload).unwrap();
    match decoded["content"]["text"].as_str() {
        Some(text) => assert_eq!(text, "Hello World"),
        None => panic!("Expected text content"),
    }
}

#[test]
fn test_clipboard_frame_from_wrong_frame_type() {
    let bad_frame = Frame::new(FrameType::PairingRequest, b"some bytes".to_vec());
    let parsed = ClipboardFrame::from_frame(&bad_frame);
    assert!(parsed.is_err());
}

#[test]
fn clipboard_frame_wrong_type_message() {
    let bad_frame = Frame::new(FrameType::Ping, vec![]);
    match ClipboardFrame::from_frame(&bad_frame) {
        Err(ClipboardError::InvalidContent(m)) => assert_eq!(m, "Expected ClipboardContent frame, got Ping"),
        _ => panic!("Expected InvalidContent"),
    }
}

#[test]
fn clipboard_frame_without_source_member_has_no_source() {
    let json = encode_json(&text_content(5, "x"));
    let frame = Frame::new(FrameType::ClipboardContent, json.clone());
    let (source, payload) = ClipboardFrame::from_frame(&frame).unwrap();
    assert_eq!(source, "");
    assert_eq!(payload, json);
}

#[test]
fn clipboard_frame_keeps_source_and_content() {
    for id in ["device-a", "", "say \"hi\"", "back\\slash", "tab\there\n", "ünïcødé"] {
        let content = text_content(42, "Some text");
        let json = encode_json(&content);
        let cf = ClipboardFrame::new(content, id.to_string());
        let frame = cf.to_frame(json.clone()).unwrap();
        let payload_value: serde_json::Value = serde_json::from_slice(&frame.payload).unwrap();
        assert_eq!(payload_value["source_device_id"].as_str(), Some(id));
        let (source, payload) = ClipboardFrame::from_frame(&frame).unwrap();
        assert_eq!(source, id);
        assert_eq!(payload, json);
        let back = decode_json(&payload).unwrap();
        assert_eq!(back.timestamp_ms, 42);
    }
    let empty_object = ClipboardFrame::new(text_content(1, "x"), "d".to_string()).to_frame(b"{}".to_vec()).unwrap();
    assert_eq!(empty_object.payload, b"{\"source_device_id\":\"d\"}".to_vec());
    assert_eq!(ClipboardFrame::from_frame(&empty_object).unwrap(), ("d".to_string(), b"{}".to_vec()));
}

#[test]
fn clipboard_frame_refuses_non_object_content() {
    let cf = ClipboardFrame::new(text_content(1, "x"), "d".to_string());
    assert!(matches!(cf.to_frame(b"[1]".to_vec()), Err(ClipboardError::Serialization(_))));
    assert!(matches!(cf.to_frame(Vec::new()), Err(ClipboardError::Serialization(_))));
    let bad = Frame::new(FrameType::ClipboardContent, b"{\"source_device_id\":\"unterminated".to_vec());
    assert!(matches!(ClipboardFrame::from_frame(&bad), Err(ClipboardError::Serialization(_))));
}

#[test]
fn test_clipboard_source_eq() {
    assert_eq!(ClipboardSource::Local, ClipboardSource::Local);
    assert_ne!(ClipboardSource::Local, ClipboardSource::Remote);
}

#[test]
fn test_clipboard_data_size_text() {
    let data = ClipboardData::Text { text: "Hello".to_string() };
    assert_eq!(mmc::clipboard::manager::clipboard_data_size(&data), 5);
}

#[test]
fn test_clipboard_data_size_image() {
    let data = ClipboardData::Image { image_png: vec![0u8; 100] };
    assert_eq!(mmc::clipboard::manager::clipboard_data_size(&data), 100);
}

#[test]
fn test_clipboard_data_size_url() {
    let data = ClipboardData::Url { url: "https://example.com".to_string() };
    assert_eq!(mmc::clipboard::manager::clipboard_data_size(&data), 19);
}

#[test]
fn test_clipboard_entry_hash_different() {
    let hash1 = ClipboardEntry::compute_hash(&text_content(1000, "A"));
    let hash2 = ClipboardEntry::compute_hash(&text_content(1000, "B"));
    assert_ne!(hash1, hash2);
}

#[test]
fn test_clipboard_entry_hash_same() {
    let hash1 = ClipboardEntry::compute_hash(&text_content(1000, "Hello"));
    let hash2 = ClipboardEntry::compute_hash(&text_content(2000, "Hello"));
    assert_eq!(hash1, hash2);
}

#[test]
fn clipboard_entry_hash_is_fnv1a() {
    // FNV-1a of the empty input is the offset basis; of "a" it is 0xaf63dc4c8601ec8c.
    assert_eq!(ClipboardEntry::compute_hash(&text_content(0, "")), 14695981039346656037);
    assert_eq!(ClipboardEntry::compute_hash(&text_content(0, "a")), 0xaf63dc4c8601ec8c);
}

#[test]
fn test_clipboard_entry_new() {
    let entry = ClipboardEntry::new(text_content(1000, "Test"), ClipboardSource::Local);
    assert_eq!(entry.content_size, 4);
    assert_eq!(entry.source, ClipboardSource::Local);
    assert!(entry.timestamp_ms > 0);
}

#[test]
fn test_clipboard_manager_new() {
    let manager = ClipboardManager::new();
    assert!(manager.is_empty());
    assert_eq!(manager.history_size(), 0);
}

#[test]
fn test_clipboard_manager_set_local() {
    let mut manager = ClipboardManager::new();
    manager.set_local(text_content(1000, "Test")).unwrap();
    let current = manager.get_current();
    assert!(current.is_some());
    assert_eq!(current.unwrap().content_size, 4);
}

#[test]
fn test_clipboard_manager_set_remote() {
    let mut manager = ClipboardManager::new();
    let content = ClipboardContent { timestamp_ms: 2000, content: ClipboardData::Url { url: "https://test.com".to_string() } };
    manager.set_remote(content).unwrap();
    assert_eq!(manager.get_current().unwrap().source, ClipboardSource::Remote);
}

#[test]
fn test_clipboard_manager_content_too_large() {
    let mut manager = ClipboardManager::with_limits(50, 10);
    let result = manager.set_local(text_content(1000, "This is way too long"));
    assert!(matches!(result, Err(ClipboardError::ContentTooLarge(20, 10))));
    assert!(manager.is_empty());
    assert_eq!(manager.history_size(), 0);
    assert!(manager.try_recv_event().is_none());
}

#[test]
fn test_clipboard_manager_clear() {
    let mut manager = ClipboardManager::new();
    manager.set_local(text_content(1000, "Test")).unwrap();
    assert!(!manager.is_empty());
    manager.clear().unwrap();
    assert!(manager.is_empty());
    assert_eq!(manager.history_size(), 1);
}

#[test]
fn test_clipboard_manager_history() {
    let mut manager = ClipboardManager::new();
    for i in 0..3 {
        manager.set_local(text_content(i as u64, &format!("Text {}", i))).unwrap();
    }
    assert_eq!(manager.get_history().len(), 3);
}

#[test]
fn test_clipboard_manager_history_max() {
    let mut manager = ClipboardManager::with_limits(2, 10 * 1024 * 1024);
    for i in 0..5 {
        manager.set_local(text_content(i as u64, &format!("T{}", i))).unwrap();
    }
    let history = manager.get_history();
    assert_eq!(history.len(), 2);
    assert_eq!(history[0].content.timestamp_ms, 3);
    assert_eq!(history[1].content.timestamp_ms, 4);
}

#[test]
fn clipboard_manager_history_zero_limit() {
    let mut manager = ClipboardManager::with_limits(0, 100);
    manager.set_local(text_content(1, "x")).unwrap();
    assert_eq!(manager.history_size(), 0);
    assert!(!manager.is_empty());
}

#[test]
fn clipboard_manager_events_in_order() {
    let mut manager = ClipboardManager::new();
    manager.set_local(text_content(1000, "Hello")).unwrap();
    manager.set_remote(text_content(1001, "World")).unwrap();
    manager.clear().unwrap();
    assert!(matches!(manager.try_recv_event(), Some(ClipboardManagerEvent::LocalSet(_))));
    assert!(matches!(manager.try_recv_event(), Some(ClipboardManagerEvent::RemoteReceived(_))));
    assert!(matches!(manager.try_recv_event(), Some(ClipboardManagerEvent::Cleared)));
    assert!(manager.try_recv_event().is_none());
}

#[test]
fn clipboard_error_messages() {
    assert_eq!(ClipboardError::ContentTooLarge(20, 10).to_string(), "Content too large: 20 bytes (max: 10)");
    assert_eq!(ClipboardError::Empty.to_string(), "Clipboard is empty");
    assert_eq!(ClipboardError::SyncFailed("x".to_string()).to_string(), "Sync error: x");
}

#[test]
fn test_sync_direction_eq() {
    assert_eq!(SyncDirection::Push, SyncDirection::Push);
    assert_ne!(SyncDirection::Push, SyncDirection::Pull);
}

#[test]
fn test_clipboard_config_default() {
    let config = ClipboardConfig::default();
    assert_eq!(config.direction, SyncDirection::Bidirectional);
    assert_eq!(config.sync_interval_ms, 1000);
    assert!(config.sync_images);
    assert!(config.sync_urls);
    assert!(config.auto_sync);
}

#[test]
fn test_clipboard_syncer_new() {
    let syncer = ClipboardSyncer::with_defaults(ClipboardManager::new());
    assert!(!syncer.is_running());
    assert_eq!(syncer.connected_remotes().len(), 0);
}

#[test]
fn test_clipboard_syncer_add_remove_remote() {
    let mut syncer = ClipboardSyncer::with_defaults(ClipboardManager::new());
    syncer.add_remote("device-1".to_string());
    assert_eq!(syncer.connected_remotes().len(), 1);
    syncer.remove_remote("device-1");
    assert_eq!(syncer.connected_remotes().len(), 0);
    assert!(matches!(syncer.try_recv_event(), Some(SyncEvent::Connected(ref d)) if d == "device-1"));
    assert!(matches!(syncer.try_recv_event(), Some(SyncEvent::Disconnected(ref d)) if d == "device-1"));
    syncer.remove_remote("device-1");
    assert!(syncer.try_recv_event().is_none());
}

#[test]
fn test_clipboard_syncer_start_stop() {
    let mut syncer = ClipboardSyncer::with_defaults(ClipboardManager::new());
    syncer.start().unwrap();
    assert!(syncer.is_running());
    syncer.stop().unwrap();
    assert!(!syncer.is_running());
}

#[test]
fn test_clipboard_syncer_receive_content() {
    let mut syncer = ClipboardSyncer::with_defaults(ClipboardManager::new());
    syncer.receive_content(text_content(1000, "Remote content")).unwrap();
    let current = syncer.manager().get_current();
    assert_eq!(current.unwrap().source, ClipboardSource::Remote);
    assert!(matches!(syncer.try_recv_event(), Some(SyncEvent::Pulled(_))));
}

#[test]
fn test_clipboard_syncer_receive_too_large() {
    let config = ClipboardConfig { max_content_size: 5, ..Default::default() };
    let mut syncer = ClipboardSyncer::new(ClipboardManager::new(), config);
    let result = syncer.receive_content(text_content(1000, "Way too long content"));
    assert!(matches!(result, Err(ClipboardError::ContentTooLarge(_, 5))));
}

#[test]
fn test_clipboard_syncer_skip_images() {
    let config = ClipboardConfig { sync_images: false, ..Default::default() };
    let mut syncer = ClipboardSyncer::new(ClipboardManager::new(), config);
    let content = ClipboardContent { timestamp_ms: 1000, content: ClipboardData::Image { image_png: vec![1, 2, 3] } };
    syncer.receive_content(content).unwrap();
    assert!(syncer.manager().get_current().is_none());
}

#[test]
fn test_clipboard_syncer_sync_now() {
    let mut syncer = ClipboardSyncer::with_defaults(ClipboardManager::new());
    syncer.manager_mut().set_local(text_content(1000, "Sync me")).unwrap();
    syncer.add_remote("device-1".to_string());
    syncer.sync_now().unwrap();
    assert!(syncer.last_sync() > 0);
}

#[test]
fn clipboard_syncer_pushes_once() {
    let mut syncer = ClipboardSyncer::with_defaults(ClipboardManager::new());
    syncer.manager_mut().set_local(text_content(1000, "Sync me")).unwrap();
    syncer.add_remote("device-1".to_string());
    syncer.add_remote("device-2".to_string());
    let _ = syncer.try_recv_event();
    let _ = syncer.try_recv_event();
    syncer.sync_now().unwrap();
    assert!(matches!(syncer.try_recv_event(), Some(SyncEvent::Pushed(_))));
    assert!(matches!(syncer.try_recv_event(), Some(SyncEvent::Pushed(_))));
    assert!(syncer.try_recv_event().is_none());
    syncer.sync_now().unwrap();
    assert!(syncer.try_recv_event().is_none());
}

#[test]
fn clipboard_syncer_pull_does_not_push() {
    let config = ClipboardConfig { direction: SyncDirection::Pull, ..Default::default() };
    let mut syncer = ClipboardSyncer::new(ClipboardManager::new(), config);
    syncer.manager_mut().set_local(text_content(1000, "Stay here")).unwrap();
    syncer.add_remote("device-1".to_string());
    let _ = syncer.try_recv_event();
    syncer.sync_now().unwrap();
    assert!(syncer.try_recv_event().is_none());
}

#[test]
fn test_clipboard_syncer_event() {
    let mut syncer = ClipboardSyncer::with_defaults(ClipboardManager::new());
    syncer.add_remote("device-1".to_string());
    assert!(matches!(syncer.try_recv_event(), Some(SyncEvent::Connected(_))));
}

#[test]
fn test_clipboard_manager_event() {
    let mut manager = ClipboardManager::new();
    manager.set_local(text_content(1000, "Hello")).unwrap();
    let event = manager.try_recv_event();
    assert!(matches!(event, Some(ClipboardManagerEvent::LocalSet(_))));
}

/// Reads clipboard content from its JSON encoding; `None` when the bytes
/// are not such JSON.
fn decode_json(bytes: &[u8]) -> Option<ClipboardContent> {
    let v: serde_json::Value = serde_json::from_slice(bytes).ok()?;
    let timestamp_ms = v.get("timestamp_ms")?.as_u64()?;
    let data = v.get("content")?.as_object()?;
    let content = if let Some(t) = data.get("text") {
        ClipboardData::Text { text: t.as_str()?.to_string() }
    } else if let Some(u) = data.get("url") {
        ClipboardData::Url { url: u.as_str()?.to_string() }
    } else {
        let bytes = data.get("image_png")?.as_array()?;
        let mut image_png = Vec::new();
        for b in bytes {
            image_png.push(b.as_u64()? as u8);
        }
        ClipboardData::Image { image_png }
    };
    Some(ClipboardContent { timestamp_ms, content })
}

#[test]
fn test_e2e_clipboard_text_sync() {
    let mut device_a = ClipboardManager::new();
    let mut device_b = ClipboardManager::new();
    let content_a = text_content(1234567890, "Hello from Device A");
    device_a.set_local(content_a.clone()).unwrap();
    let a_entry = device_a.get_current().unwrap();
    assert_eq!(a_entry.content_size, 19);
    let clipboard_frame = ClipboardFrame::new(content_a.clone(), "device-a".to_string());
    assert_eq!(clipboard_frame.source_device_id, "device-a");
    let frame = clipboard_frame.to_frame(encode_json(&clipboard_frame.content)).unwrap();
    assert_eq!(frame.frame_type, FrameType::ClipboardContent);
    assert!(!frame.payload.is_empty());
    let encoded_data = frame.encode();
    assert!(!encoded_data.is_empty());
    let decoded_frame = Frame::decode(&encoded_data).unwrap().unwrap();
    assert_eq!(decoded_frame.frame_type, FrameType::ClipboardContent);
    let content_b = decode_json(&decoded_frame.payload).unwrap();
    device_b.set_remote(content_b.clone()).unwrap();
    let b_entry = device_b.get_current().unwrap();
    assert_eq!(b_entry.content_size, 19);
    match (&content_a.content, &b_entry.content.content) {
        (ClipboardData::Text { text: a }, ClipboardData::Text { text: b }) => assert_eq!(a, b),
        _ => panic!("Expected text content on both sides"),
    }
}

#[test]
fn test_e2e_clipboard_url_sync() {
    let mut device_a = ClipboardManager::new();
    let mut device_b = ClipboardManager::new();
    let content_a = ClipboardContent {
        timestamp_ms: 9876543210,
        content: ClipboardData::Url { url: "https://rust-lang.org".to_string() },
    };
    device_a.set_local(content_a.clone()).unwrap();
    let clipboard_frame = ClipboardFrame::new(content_a.clone(), "device-a".to_string());
    assert_eq!(clipboard_frame.source_device_id, "device-a");
    let frame = clipboard_frame.to_frame(encode_json(&clipboard_frame.content)).unwrap();
    let encoded = frame.encode();
    let decoded = Frame::decode(&encoded).unwrap().unwrap();
    assert_eq!(decoded.frame_type, FrameType::ClipboardContent);
    let content_b = decode_json(&decoded.payload).unwrap();
    device_b.set_remote(content_b).unwrap();
    let current_b = device_b.get_current().unwrap();
    assert_eq!(current_b.content_size, 21);
    match current_b.content.content {
        ClipboardData::Url { url } => assert_eq!(url, "https://rust-lang.org"),
        _ => panic!("Expected URL content"),
    }
}

#[test]
fn test_e2e_clipboard_image_sync() {
    let mut device_a = ClipboardManager::new();
    let mut device_b = ClipboardManager::new();
    let png_data = vec![0x89, 0x50, 0x4E, 0x47, 0x0D, 0x0A, 0x1A, 0x0A, 1, 2, 3, 4, 5];
    let content_a = ClipboardContent {
        timestamp_ms: 1122334455,
        content: ClipboardData::Image { image_png: png_data.clone() },
    };
    device_a.set_local(content_a.clone()).unwrap();
    let clipboard_frame = ClipboardFrame::new(content_a.clone(), "device-a".to_string());
    assert_eq!(clipboard_frame.source_device_id, "device-a");
    let frame = clipboard_frame.to_frame(encode_json(&clipboard_frame.content)).unwrap();
    let encoded = frame.encode();
    let decoded = Frame::decode(&encoded).unwrap().unwrap();
    let content_b = decode_json(&decoded.payload).unwrap();
    device_b.set_remote(content_b).unwrap();
    let current_b = device_b.get_current().unwrap();
    match current_b.content.content {
        ClipboardData::Image { image_png } => assert_eq!(image_png, png_data),
        _ => panic!("Expected image content"),
    }
}

#[test]
fn test_e2e_clipboard_manager_history() {
    let mut manager = ClipboardManager::new();
    let contents = vec![
        ClipboardData::Text { text: "First copy".to_string() },
        ClipboardData::Url { url: "https://first.com".to_string() },
        ClipboardData::Text { text: "Second copy".to_string() },
        ClipboardData::Text { text: "Third copy".to_string() },
        ClipboardData::Image { image_png: vec![1, 2, 3, 4] },
    ];
    for (i, c) in contents.iter().enumerate() {
        let content = ClipboardContent { timestamp_ms: (i as u64 + 1) * 1000, content: c.clone() };
        manager.set_local(content).unwrap();
    }
    assert_eq!(manager.get_history().len(), 5);
    let current = manager.get_current().unwrap();
    assert_eq!(current.content_size, 4);
    assert!(matches!(current.content.content, ClipboardData::Image { .. }));
}

#[test]
fn test_e2e_clipboard_frame_encode_decode() {
    let clipboard_frame = ClipboardFrame::text("Test content", "source-device");
    let json = encode_json(&clipboard_frame.content);
    let frame = clipboard_frame.to_frame(json).unwrap();
    assert_eq!(frame.frame_type, FrameType::ClipboardContent);
    let encoded = frame.encode();
    assert!(encoded.len() > Frame::HEADER_SIZE);
    let decoded = Frame::decode(&encoded).unwrap().unwrap();
    assert_eq!(decoded.frame_type, FrameType::ClipboardContent);
    let content = decode_json(&decoded.payload).unwrap();
    match content.content {
        ClipboardData::Text { text } => assert_eq!(text, "Test content"),
        _ => panic!("Expected text"),
    }
}

#[test]
fn test_e2e_clipboard_invalid_frame_type() {
    let frame = Frame::new(FrameType::TouchEvent, b"not clipboard".to_vec());
    let encoded = frame.encode();
    let decoded = Frame::decode(&encoded).unwrap().unwrap();
    assert_eq!(decoded.frame_type, FrameType::TouchEvent);
    assert!(decode_json(&decoded.payload).is_none());
    assert!(ClipboardFrame::from_frame(&decoded).is_err());
}

#[test]
fn test_e2e_clipboard_clear() {
    let mut manager = ClipboardManager::new();
    manager.set_local(text_content(1000, "Temp")).unwrap();
    assert!(!manager.is_empty());
    manager.clear().unwrap();
    assert!(manager.is_empty());
}

#[test]
fn test_e2e_clipboard_content_sizes() {
    let mut manager = ClipboardManager::new();
    let test_cases = vec![
        (ClipboardData::Text { text: String::new() }, 0),
        (ClipboardData::Text { text: "A".to_string() }, 1),
        (ClipboardData::Text { text: "Hello".to_string() }, 5),
        (ClipboardData::Text { text: "R".repeat(1000) }, 1000),
        (ClipboardData::Url { url: String::new() }, 0),
        (ClipboardData::Url { url: "https://a.com".to_string() }, 13),
        (ClipboardData::Image { image_png: Vec::new() }, 0),
        (ClipboardData::Image { image_png: vec![0u8; 256] }, 256),
    ];
    for (data, expected_size) in test_cases {
        manager.set_local(ClipboardContent { timestamp_ms: 1000, content: data }).unwrap();
        let entry = manager.get_current().unwrap();
        assert_eq!(entry.content_size, expected_size, "Content size mismatch");
    }
}

#[test]
fn test_e2e_clipboard_content_size_boundary() {
    let mut manager = ClipboardManager::with_limits(10, 1000);
    assert!(manager.set_local(text_content(1000, "small")).is_ok());
    assert!(manager.set_local(text_content(2000, &"X".repeat(1000))).is_ok());
    assert!(manager.set_local(text_content(3000, &"Y".repeat(1001))).is_err());
}

#[test]
fn clipboard_syncer_push_does_not_pull() {
    let config = ClipboardConfig { direction: SyncDirection::Push, ..Default::default() };
    let mut syncer = ClipboardSyncer::new(ClipboardManager::new(), config);
    syncer.receive_content(text_content(1000, "Remote content")).unwrap();
    assert!(syncer.manager().get_current().is_none());
    assert!(syncer.manager().get_history().is_empty());
    assert!(syncer.try_recv_event().is_none());
}
