use mmc::pairing::error::Error;
use mmc::pairing::service::{Capabilities, PairingRequest, PairingResult, PairingService, PairingState};
use mmc::protocol::FrameType;
use mmc::security::crypto::Crypto;

fn request(pairing_id: &str) -> PairingRequest {
    request_from(pairing_id, "device-1", "Test Device", "key123")
}

fn request_from(pairing_id: &str, device_id: &str, device_name: &str, public_key: &str) -> PairingRequest {
    PairingRequest {
        pairing_id: pairing_id.to_string(),
        device_id: device_id.to_string(),
        device_name: device_name.to_string(),
        public_key: public_key.to_string(),
        capabilities: Capabilities::default(),
    }
}

#[test]
fn test_pairing_result_variants() {
    let success = PairingResult::Success {
        device_id: "d-1".to_string(),
        device_name: "Test Device".to_string(),
        shared_secret: [0u8; 32],
    };
    match success {
        PairingResult::Success { device_id, .. } => assert_eq!(device_id, "d-1"),
        _ => panic!("Expected Success variant"),
    }
    let rejected = PairingResult::Rejected { pairing_id: "p-1".to_string(), reason: "test reason".to_string() };
    match rejected {
        PairingResult::Rejected { pairing_id, .. } => assert_eq!(pairing_id, "p-1"),
        _ => panic!("Expected Rejected variant"),
    }
    let error = PairingResult::Error { pairing_id: "p-2".to_string(), error: "test error".to_string() };
    match error {
        PairingResult::Error { error, .. } => assert_eq!(error, "test error"),
        _ => panic!("Expected Error variant"),
    }
}

#[test]
fn test_capabilities_default() {
    let caps: Capabilities = Capabilities::default();
    assert!(!caps.file_transfer);
    assert!(!caps.screen_mirror);
    assert!(!caps.remote_control);
    assert!(!caps.clipboard_sync);
}

#[test]
fn test_capabilities_all() {
    let caps = Capabilities { file_transfer: true, screen_mirror: true, remote_control: true, clipboard_sync: true };
    assert!(caps.file_transfer);
    assert!(caps.screen_mirror);
    assert!(caps.remote_control);
    assert!(caps.clipboard_sync);
}

#[test]
fn test_pairing_state() {
    let state = PairingState::Idle;
    match state {
        PairingState::Idle => {},
        _ => panic!("Expected Idle"),
    }
    let state = PairingState::Connected;
    match state {
        PairingState::Connected => {},
        _ => panic!("Expected Connected"),
    }
    let state = PairingState::Failed("test".to_string());
    match state {
        PairingState::Failed(msg) => assert_eq!(msg, "test"),
        _ => panic!("Expected Failed"),
    }
}

#[test]
fn test_pairing_state_waiting() {
    let state = PairingState::WaitingForConfirmation("pair-1".to_string());
    match state {
        PairingState::WaitingForConfirmation(id) => assert_eq!(id, "pair-1"),
        _ => panic!("Expected WaitingForConfirmation"),
    }
}

#[test]
fn test_pairing_request_struct() {
    let request = PairingRequest {
        pairing_id: "p-1".to_string(),
        device_id: "d-1".to_string(),
        device_name: "Test Device".to_string(),
        public_key: "abc123".to_string(),
        capabilities: Capabilities { file_transfer: true, screen_mirror: false, remote_control: false, clipboard_sync: false },
    };
    assert_eq!(request.pairing_id, "p-1");
    assert!(request.capabilities.file_transfer);
}

#[test]
fn pairing_test_pairing_service_creation() {
    let mut service = PairingService::new();
    assert!(matches!(service.state(), PairingState::Idle));
    assert!(service.init("test-device", "Test Device").is_ok());
}

#[test]
fn test_pairing_service_events_subscribe() {
    let service = PairingService::new();
    let _events = service.events();
}

#[test]
fn public_key_needs_a_key_pair() {
    let service = PairingService::new();
    assert!(matches!(service.get_public_key_base64(), Err(Error::NotInitialized)));
}

#[test]
fn test_confirm_pairing_accept() {
    let mut service = PairingService::new();
    let (confirm_tx, mut confirm_rx) = tokio::sync::oneshot::channel();
    service.register_incoming(request("test-pairing-1"), confirm_tx);
    assert!(service.confirm_pairing("test-pairing-1", true).is_ok());
    assert_eq!(confirm_rx.try_recv().unwrap(), true);
    assert!(!service.has_pending_requests());
}

#[test]
fn test_confirm_pairing_reject() {
    let mut service = PairingService::new();
    let (confirm_tx, mut confirm_rx) = tokio::sync::oneshot::channel();
    service.register_incoming(request_from("test-pairing-2", "device-2", "Reject Device", "key456"), confirm_tx);
    assert!(service.confirm_pairing("test-pairing-2", false).is_ok());
    assert_eq!(confirm_rx.try_recv().unwrap(), false);
}

#[test]
fn test_confirm_pairing_not_found() {
    let mut service = PairingService::new();
    let result = service.confirm_pairing("nonexistent", true);
    assert!(matches!(result, Err(Error::NotFound)));
}

#[test]
fn confirm_pairing_receiver_gone() {
    let mut service = PairingService::new();
    let (confirm_tx, confirm_rx) = tokio::sync::oneshot::channel();
    drop(confirm_rx);
    service.register_incoming(request("p"), confirm_tx);
    assert!(matches!(service.confirm_pairing("p", true), Err(Error::Protocol(ref m)) if m == "Failed to confirm pairing"));
    assert!(!service.has_pending_requests());
}

#[test]
fn test_get_pending_requests() {
    let mut service = PairingService::new();
    assert!(service.get_pending_requests().is_empty());
    let (confirm_tx, _confirm_rx) = tokio::sync::oneshot::channel();
    service.register_incoming(request_from("test-pending", "device-3", "Pending Device", "key789"), confirm_tx);
    let pending = service.get_pending_requests();
    assert_eq!(pending.len(), 1);
    assert_eq!(pending[0].device_name, "Pending Device");
    assert_eq!(pending[0].pairing_id, "test-pending");
}

#[test]
fn test_has_pending_requests() {
    let mut service = PairingService::new();
    assert!(!service.has_pending_requests());
    let (confirm_tx, _confirm_rx) = tokio::sync::oneshot::channel();
    service.register_incoming(request_from("pair-1", "d", "D", "k"), confirm_tx);
    assert!(service.has_pending_requests());
    service.confirm_pairing("pair-1", true).unwrap();
    assert!(!service.has_pending_requests());
}

#[test]
fn pairing_outcomes() {
    let accepted = PairingService::pairing_outcome(
        FrameType::PairingResponse, Some(true), None, "p".to_string(), "d".to_string(), "n".to_string(), [7u8; 32]);
    assert!(matches!(accepted, Ok(PairingResult::Success { ref device_id, shared_secret, .. }) if device_id == "d" && shared_secret == [7u8; 32]));
    let rejected = PairingService::pairing_outcome(
        FrameType::PairingResponse, Some(false), Some("User rejected".to_string()), "p".to_string(), "d".to_string(), "n".to_string(), [0u8; 32]);
    assert!(matches!(rejected, Ok(PairingResult::Rejected { ref reason, .. }) if reason == "User rejected"));
    let silent = PairingService::pairing_outcome(
        FrameType::PairingResponse, None, None, "p".to_string(), "d".to_string(), "n".to_string(), [0u8; 32]);
    assert!(matches!(silent, Ok(PairingResult::Rejected { ref reason, .. }) if reason == "Rejected"));
    let wrong = PairingService::pairing_outcome(
        FrameType::Ping, Some(true), None, "p".to_string(), "d".to_string(), "n".to_string(), [0u8; 32]);
    assert!(matches!(wrong, Err(Error::Protocol(_))));
}

#[test]
fn pairing_request_carries_public_key() {
    let keypair = Crypto::generate_keypair();
    let request = PairingService::pairing_request(
        "p".to_string(), "d".to_string(), "n".to_string(), Capabilities::default(), &keypair);
    assert_eq!(request.public_key.len(), 44);
    assert!(request.public_key.ends_with('='));
}

#[test]
fn lib_test_pairing_service_creation() {
    let mut service = PairingService::new();
    assert!(service.init("test-device", "Test Device").is_ok());
}

#[test]
fn pairing_responses() {
    let yes = PairingService::pairing_response("p-1".to_string(), true);
    assert_eq!(yes.pairing_id, "p-1");
    assert!(yes.accepted);
    assert!(yes.error_message.is_none());
    let no = PairingService::pairing_response("p-2".to_string(), false);
    assert!(!no.accepted);
    assert_eq!(no.error_message, Some("User rejected".to_string()));
}
