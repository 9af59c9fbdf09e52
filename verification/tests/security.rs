use base64::Engine;
use sha2::Digest;
use mmc::security::cert::{Certificate, CertificateStore};
use mmc::security::crypto::Crypto;
use mmc::security::error::Error;
use mmc::security::tls::{
    CipherSuite, ClientHello, Finished, HandshakeMode, HandshakeSession, HandshakeState, TlsHandshake,
};

fn make_test_cert(device_id: &str) -> Certificate {
    let mut store = CertificateStore::new();
    store.generate_identity(device_id, "Test Device").unwrap().clone()
}

#[test]
fn test_keypair_generation() {
    let keypair = Crypto::generate_keypair();
    assert!(!keypair.public_key_bytes().iter().all(|&b| b == 0));
}

#[test]
fn test_shared_secret() {
    let alice = Crypto::generate_keypair();
    let bob = Crypto::generate_keypair();
    let secret_alice = alice.shared_secret(&bob.public_key_bytes()).unwrap();
    let secret_bob = bob.shared_secret(&alice.public_key_bytes()).unwrap();
    assert_eq!(secret_alice, secret_bob);
}

#[test]
fn test_blake3() {
    let data = b"hello world";
    let hash = Crypto::blake3(data);
    assert!(Crypto::verify_blake3(data, &hash));
    assert!(!Crypto::verify_blake3(b"wrong data", &hash));
}

#[test]
fn blake3_known_value() {
    // BLAKE3 of the empty input.
    let hash = Crypto::blake3(b"");
    assert_eq!(hash[0], 0xaf);
    assert_eq!(hash[1], 0x13);
    assert_eq!(hash[31], 0x62);
}

#[test]
fn blake3_hasher_matches_hash() {
    let mut hasher = Crypto::blake3_hasher();
    hasher.update(b"hello ");
    hasher.update(b"world");
    assert_eq!(*hasher.finalize().as_bytes(), Crypto::blake3(b"hello world"));
}

#[test]
fn test_random_bytes() {
    let a = Crypto::random_bytes(32);
    let b = Crypto::random_bytes(32);
    assert_eq!(a.len(), 32);
    assert_ne!(a, b);
}

#[test]
fn test_generate_identity() {
    let mut store = CertificateStore::new();
    let cert = store.generate_identity("device-123", "My Phone").unwrap();
    assert_eq!(cert.device_id, "device-123");
    assert_eq!(cert.device_name, "My Phone");
    assert!(!cert.public_key.is_empty());
    assert!(!cert.signature.is_empty());
    assert!(store.get_identity().is_some());
    assert!(store.get_identity_key().is_some());
}

#[test]
fn test_fingerprint() {
    let mut store = CertificateStore::new();
    let cert = store.generate_identity("device-123", "My Phone").unwrap().clone();
    let fp = CertificateStore::fingerprint(&cert);
    assert!(!fp.is_empty());
    assert!(CertificateStore::verify_fingerprint(&cert, &fp));
    assert!(!CertificateStore::verify_fingerprint(&cert, "wrong"));
}

#[test]
fn test_trust_peer() {
    let mut store = CertificateStore::new();
    store.generate_identity("device-A", "Phone A").unwrap();
    let peer_cert = Certificate {
        device_id: "device-B".to_string(),
        device_name: "Phone B".to_string(),
        serial: "test".to_string(),
        not_before: "2024-01-01T00:00:00Z".to_string(),
        not_after: "2025-01-01T00:00:00Z".to_string(),
        public_key: "dGVzdF9wdWJsaWNfa2V5".to_string(),
        signature: "dGVzdF9zaWduYXR1cmU=".to_string(),
    };
    store.trust_peer(peer_cert.clone());
    assert_eq!(store.get_trusted("device-B").unwrap().device_name, "Phone B");
    assert!(store.get_trusted("device-C").is_none());

    let mut renamed = peer_cert.clone();
    renamed.device_name = "Phone B2".to_string();
    store.trust_peer(renamed);
    assert_eq!(store.get_trusted("device-B").unwrap().device_name, "Phone B2");
}

#[test]
fn verify_self_checks_signature() {
    let mut store = CertificateStore::new();
    let cert = store.generate_identity("d", "Test Device").unwrap().clone();
    assert!(store.verify_self(&cert).unwrap());

    let mut changed = cert.clone();
    changed.device_name = "Other Device".to_string();
    assert!(!store.verify_self(&changed).unwrap());

    let mut forged = cert.clone();
    forged.signature = "dGVzdF9zaWduYXR1cmU=".to_string();
    assert!(!store.verify_self(&forged).unwrap());

    let mut garbled = cert.clone();
    garbled.signature = "not base64!".to_string();
    assert!(!store.verify_self(&garbled).unwrap());

    let mut empty = cert.clone();
    empty.signature = String::new();
    assert!(!store.verify_self(&empty).unwrap());

    let other = make_test_cert("e");
    assert!(!store.verify_self(&other).unwrap());
}

#[test]
fn verify_self_without_identity_fails() {
    let store = CertificateStore::new();
    let cert = make_test_cert("d");
    assert!(matches!(store.verify_self(&cert), Err(Error::Crypto(_))));
}

#[test]
fn fingerprint_is_base64_of_sha256_of_content() {
    let cert = make_test_cert("device-123");
    let mut content = Vec::new();
    for field in [&cert.device_id, &cert.device_name, &cert.serial, &cert.not_before, &cert.not_after, &cert.public_key] {
        content.extend_from_slice(field.as_bytes());
    }
    let expected = base64::engine::general_purpose::STANDARD.encode(sha2::Sha256::digest(&content));
    assert_eq!(CertificateStore::fingerprint(&cert), expected);
    let mut resigned = cert.clone();
    resigned.signature = "other".to_string();
    assert_eq!(CertificateStore::fingerprint(&resigned), expected);
}

#[test]
fn test_handshake_state_default() {
    assert_eq!(HandshakeState::default(), HandshakeState::Start);
}

#[test]
fn test_cipher_suite_default() {
    assert_eq!(CipherSuite::default(), CipherSuite::TlsAes256GcmSha384);
}

#[test]
fn test_cipher_suite_values() {
    assert_eq!(CipherSuite::TlsAes256GcmSha384.to_u16(), 0x1301);
    assert_eq!(CipherSuite::TlsAes128GcmSha256.to_u16(), 0x1302);
    assert_eq!(CipherSuite::TlsChacha20Poly1305Sha256.to_u16(), 0x1303);
}

#[test]
fn test_client_hello_creation() {
    let mut session = HandshakeSession::new_client(make_test_cert("client-1"));
    assert_eq!(session.state(), HandshakeState::Start);
    let hello = session.create_client_hello().unwrap();
    assert_eq!(hello.legacy_version, 0x0304);
    assert_eq!(hello.cipher_suites.len(), 3);
    assert_eq!(session.state(), HandshakeState::ClientHelloSent);
}

#[test]
fn client_hello_twice_is_refused() {
    let mut session = HandshakeSession::new_client(make_test_cert("client-1"));
    session.create_client_hello().unwrap();
    match session.create_client_hello() {
        Err(Error::TlsHandshake(m)) => assert_eq!(m, "Invalid state for ClientHello: ClientHelloSent"),
        _ => panic!("Expected a handshake error"),
    }
    assert_eq!(session.state(), HandshakeState::ClientHelloSent);
}

#[test]
fn server_cannot_send_client_hello() {
    let mut session = HandshakeSession::new_server(make_test_cert("server-1"));
    assert!(matches!(session.create_client_hello(), Err(Error::TlsHandshake(ref m)) if m == "Not a client"));
}

fn client_hello_for(random: u8, key_share: [u8; 32], certificate: Certificate) -> ClientHello {
    ClientHello {
        legacy_version: 0x0304,
        random: [random; 32],
        session_id: Vec::new(),
        cipher_suites: vec![CipherSuite::TlsAes256GcmSha384],
        key_share,
        certificate,
    }
}

#[test]
fn test_server_processes_client_hello() {
    let mut session = HandshakeSession::new_server(make_test_cert("server-1"));
    let client_keypair = Crypto::generate_keypair();
    let client_hello = client_hello_for(1, client_keypair.public_key_bytes(), make_test_cert("client-1"));
    let server_hello = session.process_client_hello(&client_hello).unwrap();
    assert_eq!(server_hello.cipher_suite, CipherSuite::TlsAes256GcmSha384);
    assert_eq!(session.state(), HandshakeState::FinishedSent);
    assert!(session.handshake_secret().is_some());
    assert!(session.master_secret().is_some());
}

#[test]
fn test_client_processes_server_hello() {
    let mut client = HandshakeSession::new_client(make_test_cert("client-1"));
    client.create_client_hello().unwrap();
    let mut server = HandshakeSession::new_server(make_test_cert("server-1"));
    let client_hello = client_hello_for(2, client.local_public_key(), client.local_certificate().clone());
    let server_hello = server.process_client_hello(&client_hello).unwrap();
    client.process_server_hello(&server_hello).unwrap();
    assert_eq!(client.state(), HandshakeState::ServerHelloReceived);
    assert!(client.handshake_secret().is_some());
}

#[test]
fn honest_handshake_agrees_and_completes() {
    let mut client = HandshakeSession::new_client(make_test_cert("client-1"));
    let mut server = HandshakeSession::new_server(make_test_cert("server-1"));
    let hello = client.create_client_hello().unwrap();
    let reply = server.process_client_hello(&hello).unwrap();
    client.process_server_hello(&reply).unwrap();
    assert_eq!(client.handshake_secret(), server.handshake_secret());
    assert_eq!(client.master_secret(), server.master_secret());
    let finished = client.create_finished().unwrap();
    server.process_finished(&finished).unwrap();
    assert!(server.is_complete());
    assert_eq!(server.peer_certificate().unwrap().device_id, "client-1");
}

#[test]
fn test_full_handshake_via_helper() {
    let client_cert = make_test_cert("client-1");
    let server_cert = make_test_cert("server-1");
    let client_session = TlsHandshake::perform_client_handshake(client_cert.clone(), server_cert.clone()).unwrap();
    assert!(client_session.is_complete());
    let server_session = TlsHandshake::perform_server_handshake(server_cert, client_cert).unwrap();
    assert!(server_session.is_complete());
}

#[test]
fn test_server_rejects_invalid_version() {
    let mut server = HandshakeSession::new_server(make_test_cert("server-1"));
    let mut client_hello = client_hello_for(0, [0u8; 32], make_test_cert("client-1"));
    client_hello.legacy_version = 0x0303;
    match server.process_client_hello(&client_hello) {
        Err(Error::InvalidTlsMessage(m)) => assert_eq!(m, "Unsupported version: 0x0303"),
        _ => panic!("Expected an invalid message error"),
    }
    assert_eq!(server.state(), HandshakeState::Start);
}

#[test]
fn server_rejects_hello_without_suites() {
    let mut server = HandshakeSession::new_server(make_test_cert("server-1"));
    let mut client_hello = client_hello_for(0, [0u8; 32], make_test_cert("client-1"));
    client_hello.cipher_suites.clear();
    assert!(matches!(server.process_client_hello(&client_hello), Err(Error::InvalidTlsMessage(ref m)) if m == "No cipher suites"));
}

#[test]
fn test_invalid_state_transition() {
    let mut session = HandshakeSession::new_client(make_test_cert("client-1"));
    let result = session.create_finished();
    assert!(matches!(result, Err(Error::TlsHandshake(ref m)) if m == "Invalid state for Finished: Start"));
}

#[test]
fn test_finished_verify_data_mismatch() {
    let mut client = HandshakeSession::new_client(make_test_cert("client-1"));
    client.create_client_hello().unwrap();
    let mut server = HandshakeSession::new_server(make_test_cert("server-1"));
    let client_hello = client_hello_for(3, client.local_public_key(), make_test_cert("client-1"));
    let _server_hello = server.process_client_hello(&client_hello).unwrap();
    let bad_finished = Finished { verify_data: [0u8; 32], timestamp_ms: 0 };
    let result = server.process_finished(&bad_finished);
    assert!(result.is_err());
    assert_eq!(server.state(), HandshakeState::Failed);
}

#[test]
fn test_local_public_key_changes() {
    let s1 = HandshakeSession::new_client(make_test_cert("device-1"));
    let s2 = HandshakeSession::new_client(make_test_cert("device-2"));
    assert_ne!(s1.local_public_key(), s2.local_public_key());
}

#[test]
fn handshake_mode_variants() {
    assert_ne!(HandshakeMode::Client, HandshakeMode::Server);
}

#[test]
fn security_error_messages() {
    assert_eq!(Error::Crypto("x".to_string()).to_string(), "Crypto error: x");
    assert_eq!(Error::CertificateExpired.to_string(), "Certificate expired");
}

#[test]
fn generate_identity_at_sets_validity_window() {
    let mut store = CertificateStore::new();
    let cert = store.generate_identity_at("dev", "Dev", 1_700_000_000, 0).unwrap().clone();
    assert_eq!(cert.not_before, "2023-11-14T22:13:20+00:00");
    assert_eq!(cert.not_after, "2024-11-13T22:13:20+00:00");
    assert!(store.verify_self(&cert).unwrap());

    let mut far = CertificateStore::new();
    assert!(matches!(far.generate_identity_at("dev", "Dev", i64::MAX - 10, 0), Err(Error::Crypto(_))));
    assert!(far.get_identity().is_none());
}
