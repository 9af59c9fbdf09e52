//! The state machine of a TLS 1.3 style handshake between devices.
//!
//! X25519 key exchange, BLAKE3-derived handshake and master secrets, and
//! ClientHello / ServerHello / Finished messages. A client goes
//! Start → ClientHelloSent → ServerHelloReceived → FinishedSent; a server
//! goes Start → FinishedSent once it has answered a ClientHello; checking
//! the peer's Finished ends in Complete, or in Failed when its verify data
//! does not match.

use vstd::prelude::*;
use crate::clock::unix_time_ms;
use crate::security::cert::Certificate;
use crate::security::crypto::{
    blake3_hash, hasher_finalize, hasher_input, hasher_new, hasher_update, to_array32, x25519_public_key,
    x25519_shared_secret, Crypto, KeyPair,
};
use crate::security::error::Error;

verus! {

broadcast use vstd::string::to_string_from_display_ensures_for_str;

/// Handshake state.
#[derive(Debug, Clone, Copy, PartialEq, Eq, Structural)]
pub enum HandshakeState {
    /// Initial state.
    Start,
    /// ClientHello sent.
    ClientHelloSent,
    /// ServerHello received.
    ServerHelloReceived,
    /// Finished sent.
    FinishedSent,
    /// Handshake complete.
    Complete,
    /// Handshake failed.
    Failed,
}

impl HandshakeState {
    /// The state's name, as `Debug` prints it.
    pub open spec fn label(self) -> Seq<char> {
        match self {
            HandshakeState::Start => "Start"@,
            HandshakeState::ClientHelloSent => "ClientHelloSent"@,
            HandshakeState::ServerHelloReceived => "ServerHelloReceived"@,
            HandshakeState::FinishedSent => "FinishedSent"@,
            HandshakeState::Complete => "Complete"@,
            HandshakeState::Failed => "Failed"@,
        }
    }

    /// The state's name.
    pub fn name(&self) -> (r: &'static str)
        ensures
            r@ == self.label(),
    {
        match self {
            HandshakeState::Start => "Start",
            HandshakeState::ClientHelloSent => "ClientHelloSent",
            HandshakeState::ServerHelloReceived => "ServerHelloReceived",
            HandshakeState::FinishedSent => "FinishedSent",
            HandshakeState::Complete => "Complete",
            HandshakeState::Failed => "Failed",
        }
    }
}

impl Default for HandshakeState {
    fn default() -> (r: HandshakeState)
        ensures
            r == HandshakeState::Start,
    {
        HandshakeState::Start
    }
}

/// TLS 1.3 cipher suites.
#[derive(Debug, Clone, Copy, PartialEq, Eq, Structural)]
pub enum CipherSuite {
    /// TLS_AES_256_GCM_SHA384 (mandatory in TLS 1.3).
    TlsAes256GcmSha384,
    /// TLS_CHACHA20_POLY1305_SHA256.
    TlsChacha20Poly1305Sha256,
    /// TLS_AES_128_GCM_SHA256.
    TlsAes128GcmSha256,
}

impl CipherSuite {
    /// The suite's IANA code.
    pub open spec fn code(self) -> u16 {
        match self {
            CipherSuite::TlsAes256GcmSha384 => 0x1301,
            CipherSuite::TlsChacha20Poly1305Sha256 => 0x1303,
            CipherSuite::TlsAes128GcmSha256 => 0x1302,
        }
    }

    /// The suite's IANA code.
    pub fn to_u16(&self) -> (r: u16)
        ensures
            r == self.code(),
    {
        match self {
            CipherSuite::TlsAes256GcmSha384 => 0x1301,
            CipherSuite::TlsChacha20Poly1305Sha256 => 0x1303,
            CipherSuite::TlsAes128GcmSha256 => 0x1302,
        }
    }
}

impl Default for CipherSuite {
    fn default() -> (r: CipherSuite)
        ensures
            r == CipherSuite::TlsAes256GcmSha384,
    {
        CipherSuite::TlsAes256GcmSha384
    }
}

/// Which side of the handshake a session plays.
#[derive(Debug, Clone, Copy, PartialEq, Eq, Structural)]
pub enum HandshakeMode {
    Client,
    Server,
}

/// ClientHello message.
#[derive(Debug, Clone)]
pub struct ClientHello {
    /// Protocol version (TLS 1.3 = 0x0304).
    pub legacy_version: u16,
    /// 32 random bytes.
    pub random: [u8; 32],
    /// Session ID (for resumption).
    pub session_id: Vec<u8>,
    /// Offered cipher suites, preferred first.
    pub cipher_suites: Vec<CipherSuite>,
    /// Key share (X25519 public key).
    pub key_share: [u8; 32],
    /// Device certificate.
    pub certificate: Certificate,
}

/// ServerHello message.
#[derive(Debug, Clone)]
pub struct ServerHello {
    /// Protocol version.
    pub legacy_version: u16,
    /// 32 random bytes.
    pub random: [u8; 32],
    /// Session ID.
    pub session_id: Vec<u8>,
    /// Negotiated cipher suite.
    pub cipher_suite: CipherSuite,
    /// Server key share.
    pub key_share: [u8; 32],
    /// Server certificate.
    pub certificate: Certificate,
}

/// Finished message.
#[derive(Debug, Clone)]
pub struct Finished {
    /// Verify data (BLAKE3 hash).
    pub verify_data: [u8; 32],
    /// Timestamp.
    pub timestamp_ms: u64,
}

/// The version the handshake speaks: TLS 1.3.
pub const TLS13_VERSION: u16 = 0x0304;

/// The UTF-8 bytes of a string.
pub open spec fn utf8(s: Seq<char>) -> Seq<u8> {
    vstd::utf8::encode_utf8(s)
}

/// The handshake secret: BLAKE3 over a label, the ECDHE shared secret and
/// both randoms.
pub open spec fn handshake_secret_of(shared: Seq<u8>, client_random: Seq<u8>, server_random: Seq<u8>) -> Seq<u8> {
    blake3_hash(utf8("mmc tls 1.3 handshake"@) + shared + client_random + server_random)
}

/// The master secret: BLAKE3 over a label and the handshake secret.
pub open spec fn master_secret_of(handshake_secret: Seq<u8>) -> Seq<u8> {
    blake3_hash(utf8("mmc tls 1.3 master"@) + handshake_secret)
}

/// The verify data of a Finished: BLAKE3 over a label, the handshake secret
/// and the sender's certificate's device ID and public key.
pub open spec fn verify_data_of(handshake_secret: Seq<u8>, cert: Certificate) -> Seq<u8> {
    blake3_hash(utf8("mmc tls 1.3 finished"@) + handshake_secret + utf8(cert.device_id@) + utf8(cert.public_key@))
}

/// A lower-case hexadecimal digit.
pub open spec fn hex_digit(d: int) -> char {
    if d < 10 {
        ('0' as int + d) as char
    } else {
        ('a' as int + d - 10) as char
    }
}

/// Four lower-case hexadecimal digits of a 16-bit value, as `{:04x}` prints it.
pub open spec fn hex4(v: u16) -> Seq<char> {
    seq![hex_digit((v / 4096) as int), hex_digit((v / 256 % 16) as int), hex_digit((v / 16 % 16) as int), hex_digit((v % 16) as int)]
}

/// The message of the error for an unsupported protocol version.
pub open spec fn version_message(v: u16) -> Seq<char> {
    "Unsupported version: 0x"@ + hex4(v)
}

/// What a handshake session holds, with keys and randoms as byte sequences.
pub struct HandshakeSessionView {
    pub mode: HandshakeMode,
    pub state: HandshakeState,
    pub local_secret: Seq<u8>,
    pub local_public: Seq<u8>,
    pub local_cert: Certificate,
    pub peer_public_key: Option<Seq<u8>>,
    pub peer_cert: Option<Certificate>,
    pub cipher_suite: CipherSuite,
    pub handshake_secret: Option<Seq<u8>>,
    pub master_secret: Option<Seq<u8>>,
    pub client_random: Option<Seq<u8>>,
    pub server_random: Option<Seq<u8>>,
}

/// An optional 32-byte value as a byte sequence.
pub open spec fn opt_bytes(o: Option<[u8; 32]>) -> Option<Seq<u8>> {
    match o {
        Some(a) => Some(a@),
        None => None,
    }
}

/// The peer's key share, certificate and both randoms are known, and the
/// secrets are those derived from them and the local secret key.
pub open spec fn keys_agreed(v: HandshakeSessionView) -> bool {
    &&& v.peer_public_key is Some
    &&& v.peer_cert is Some
    &&& v.client_random is Some
    &&& v.server_random is Some
    &&& v.handshake_secret == Some(handshake_secret_of(
        x25519_shared_secret(v.local_secret, v.peer_public_key->0),
        v.client_random->0,
        v.server_random->0,
    ))
    &&& v.master_secret == Some(master_secret_of(v.handshake_secret->0))
}

/// What every session satisfies: its public key is that of its secret key,
/// only a client waits on a ServerHello, a client that sent its hello holds
/// its random, and from the exchange of hellos on the secrets are agreed.
pub open spec fn session_wf(v: HandshakeSessionView) -> bool {
    &&& v.local_public == x25519_public_key(v.local_secret)
    &&& v.state == HandshakeState::ClientHelloSent ==> v.mode == HandshakeMode::Client && v.client_random is Some
    &&& v.state == HandshakeState::ServerHelloReceived ==> v.mode == HandshakeMode::Client
    &&& (v.state == HandshakeState::ServerHelloReceived || v.state == HandshakeState::FinishedSent
        || v.state == HandshakeState::Complete || v.state == HandshakeState::Failed) ==> keys_agreed(v)
}

/// A handshake session.
pub struct HandshakeSession {
    mode: HandshakeMode,
    state: HandshakeState,
    local_keypair: KeyPair,
    local_cert: Certificate,
    peer_public_key: Option<[u8; 32]>,
    peer_cert: Option<Certificate>,
    cipher_suite: CipherSuite,
    handshake_secret: Option<[u8; 32]>,
    master_secret: Option<[u8; 32]>,
    client_random: Option<[u8; 32]>,
    server_random: Option<[u8; 32]>,
}

impl View for HandshakeSession {
    type V = HandshakeSessionView;

    closed spec fn view(&self) -> HandshakeSessionView {
        HandshakeSessionView {
            mode: self.mode,
            state: self.state,
            local_secret: self.local_keypair.secret(),
            local_public: self.local_keypair.public(),
            local_cert: self.local_cert,
            peer_public_key: opt_bytes(self.peer_public_key),
            peer_cert: self.peer_cert,
            cipher_suite: self.cipher_suite,
            handshake_secret: opt_bytes(self.handshake_secret),
            master_secret: opt_bytes(self.master_secret),
            client_random: opt_bytes(self.client_random),
            server_random: opt_bytes(self.server_random),
        }
    }
}

/// A fresh session of the given side.
pub open spec fn fresh_session(v: HandshakeSessionView, mode: HandshakeMode, cert: Certificate) -> bool {
    &&& session_wf(v)
    &&& v.mode == mode
    &&& v.state == HandshakeState::Start
    &&& v.local_cert == cert
    &&& v.peer_public_key is None
    &&& v.peer_cert is None
    &&& v.cipher_suite == CipherSuite::TlsAes256GcmSha384
    &&& v.handshake_secret is None
    &&& v.master_secret is None
    &&& v.client_random is None
    &&& v.server_random is None
}

/// `v2` is `v1` with nothing but its state and what a ClientHello it sent
/// records: the client random of the hello.
pub open spec fn sent_client_hello(v1: HandshakeSessionView, v2: HandshakeSessionView, hello: ClientHello) -> bool {
    &&& v2 == HandshakeSessionView {
        state: HandshakeState::ClientHelloSent,
        client_random: Some(hello.random@),
        ..v1
    }
    &&& hello.legacy_version == 0x0304
    &&& hello.session_id@.len() == 0
    &&& hello.cipher_suites@ == seq![
        CipherSuite::TlsAes256GcmSha384,
        CipherSuite::TlsChacha20Poly1305Sha256,
        CipherSuite::TlsAes128GcmSha256,
    ]
    &&& hello.key_share@ == v1.local_public
    &&& hello.certificate == v1.local_cert
}

/// `v2` is the server session `v1` after answering `hello` with `reply`:
/// the client's key share, certificate, first suite and random are taken,
/// the reply's random is the server random, and the secrets are derived.
pub open spec fn answered_client_hello(
    v1: HandshakeSessionView,
    v2: HandshakeSessionView,
    hello: ClientHello,
    reply: ServerHello,
) -> bool {
    &&& v2 == HandshakeSessionView {
        state: HandshakeState::FinishedSent,
        peer_public_key: Some(hello.key_share@),
        peer_cert: Some(hello.certificate),
        cipher_suite: hello.cipher_suites@[0],
        client_random: Some(hello.random@),
        server_random: Some(reply.random@),
        handshake_secret: Some(handshake_secret_of(x25519_shared_secret(v1.local_secret, hello.key_share@), hello.random@, reply.random@)),
        master_secret: Some(master_secret_of(handshake_secret_of(x25519_shared_secret(v1.local_secret, hello.key_share@), hello.random@, reply.random@))),
        ..v1
    }
    &&& reply.legacy_version == 0x0304
    &&& reply.session_id@ == hello.session_id@
    &&& reply.cipher_suite == hello.cipher_suites@[0]
    &&& reply.key_share@ == v1.local_public
    &&& reply.certificate == v1.local_cert
}

/// `v2` is the client session `v1` after taking `reply`: the server's key
/// share, certificate, suite and random are taken and the secrets derived
/// with the client random it holds.
pub open spec fn took_server_hello(v1: HandshakeSessionView, v2: HandshakeSessionView, reply: ServerHello) -> bool {
    v2 == HandshakeSessionView {
        state: HandshakeState::ServerHelloReceived,
        peer_public_key: Some(reply.key_share@),
        peer_cert: Some(reply.certificate),
        cipher_suite: reply.cipher_suite,
        server_random: Some(reply.random@),
        handshake_secret: Some(handshake_secret_of(x25519_shared_secret(v1.local_secret, reply.key_share@), v1.client_random->0, reply.random@)),
        master_secret: Some(master_secret_of(handshake_secret_of(x25519_shared_secret(v1.local_secret, reply.key_share@), v1.client_random->0, reply.random@))),
        ..v1
    }
}

/// The verify data a session expects in its peer's Finished.
pub open spec fn expected_verify_data(v: HandshakeSessionView) -> Seq<u8> {
    verify_data_of(v.handshake_secret->0, v.peer_cert->0)
}

/// The state in which a session of the given side takes its peer's Finished.
pub open spec fn finished_state(mode: HandshakeMode) -> HandshakeState {
    match mode {
        HandshakeMode::Client => HandshakeState::ServerHelloReceived,
        HandshakeMode::Server => HandshakeState::FinishedSent,
    }
}

/// The handshake error with `prefix` followed by the state's name.
fn state_error(prefix: &str, state: HandshakeState) -> (r: Error)
    ensures
        r matches Error::TlsHandshake(m) && m@ == prefix@ + state.label(),
{
    let mut m = prefix.to_string();
    m.append(state.name());
    Error::TlsHandshake(m)
}

/// One lower-case hexadecimal digit.
fn hex_digit_str(d: u16) -> (r: &'static str)
    requires
        d < 16,
    ensures
        r@ == seq![hex_digit(d as int)],
{
    proof {
        reveal_strlit("0");
        reveal_strlit("1");
        reveal_strlit("2");
        reveal_strlit("3");
        reveal_strlit("4");
        reveal_strlit("5");
        reveal_strlit("6");
        reveal_strlit("7");
        reveal_strlit("8");
        reveal_strlit("9");
        reveal_strlit("a");
        reveal_strlit("b");
        reveal_strlit("c");
        reveal_strlit("d");
        reveal_strlit("e");
        reveal_strlit("f");
    }
    match d {
        0 => "0",
        1 => "1",
        2 => "2",
        3 => "3",
        4 => "4",
        5 => "5",
        6 => "6",
        7 => "7",
        8 => "8",
        9 => "9",
        10 => "a",
        11 => "b",
        12 => "c",
        13 => "d",
        14 => "e",
        _ => "f",
    }
}

/// The error for an unsupported protocol version.
fn version_error(v: u16) -> (r: Error)
    ensures
        r matches Error::InvalidTlsMessage(m) && m@ == version_message(v),
{
    let mut m = "Unsupported version: 0x".to_string();
    m.append(hex_digit_str(v / 4096));
    m.append(hex_digit_str(v / 256 % 16));
    m.append(hex_digit_str(v / 16 % 16));
    m.append(hex_digit_str(v % 16));
    assert(m@ =~= version_message(v));
    Error::InvalidTlsMessage(m)
}

/// Derives the handshake secret (HKDF-style, simplified).
fn derive_handshake_secret(shared_secret: &[u8; 32], client_random: &[u8; 32], server_random: &[u8; 32]) -> (r: Result<[u8; 32], Error>)
    ensures
        r matches Ok(s) && s@ == handshake_secret_of(shared_secret@, client_random@, server_random@),
{
    let mut hasher = hasher_new();
    hasher_update(&mut hasher, "mmc tls 1.3 handshake".as_bytes());
    hasher_update(&mut hasher, shared_secret.as_slice());
    hasher_update(&mut hasher, client_random.as_slice());
    hasher_update(&mut hasher, server_random.as_slice());
    assert(hasher_input(hasher) =~= utf8("mmc tls 1.3 handshake"@) + shared_secret@ + client_random@ + server_random@);
    Ok(hasher_finalize(&hasher))
}

/// Derives the master secret.
fn derive_master_secret(handshake_secret: &[u8; 32]) -> (r: Result<[u8; 32], Error>)
    ensures
        r matches Ok(s) && s@ == master_secret_of(handshake_secret@),
{
    let mut hasher = hasher_new();
    hasher_update(&mut hasher, "mmc tls 1.3 master".as_bytes());
    hasher_update(&mut hasher, handshake_secret.as_slice());
    assert(hasher_input(hasher) =~= utf8("mmc tls 1.3 master"@) + handshake_secret@);
    Ok(hasher_finalize(&hasher))
}

/// Computes the verify data of a Finished.
fn compute_verify_data(handshake_secret: &[u8; 32], cert: &Certificate) -> (r: Result<[u8; 32], Error>)
    ensures
        r matches Ok(s) && s@ == verify_data_of(handshake_secret@, *cert),
{
    let mut hasher = hasher_new();
    hasher_update(&mut hasher, "mmc tls 1.3 finished".as_bytes());
    hasher_update(&mut hasher, handshake_secret.as_slice());
    hasher_update(&mut hasher, cert.device_id.as_str().as_bytes());
    hasher_update(&mut hasher, cert.public_key.as_str().as_bytes());
    assert(hasher_input(hasher) =~= utf8("mmc tls 1.3 finished"@) + handshake_secret@ + utf8(cert.device_id@) + utf8(cert.public_key@));
    Ok(hasher_finalize(&hasher))
}

/// Whether two 32-byte values are equal.
fn bytes32_eq(a: &[u8; 32], b: &[u8; 32]) -> (r: bool)
    ensures
        r == (a@ == b@),
{
    let mut i: usize = 0;
    while i < 32
        invariant
            i <= 32,
            forall|j: int| 0 <= j < i ==> a@[j] == b@[j],
        decreases 32 - i,
    {
        if a[i] != b[i] {
            assert(a@[i as int] != b@[i as int]);
            return false;
        }
        i = i + 1;
    }
    assert(a@ =~= b@);
    true
}

/// 32 fresh random bytes.
fn random32() -> [u8; 32] {
    let bytes = Crypto::random_bytes(32);
    to_array32(bytes.as_slice())
}

impl HandshakeSession {
    /// Every session satisfies the invariant of its states.
    pub open spec fn wf(&self) -> bool {
        session_wf(self@)
    }

    fn new_session(mode: HandshakeMode, local_cert: Certificate) -> (r: HandshakeSession)
        ensures
            fresh_session(r@, mode, local_cert),
    {
        HandshakeSession {
            mode,
            state: HandshakeState::Start,
            local_keypair: Crypto::generate_keypair(),
            local_cert,
            peer_public_key: None,
            peer_cert: None,
            cipher_suite: CipherSuite::default(),
            handshake_secret: None,
            master_secret: None,
            client_random: None,
            server_random: None,
        }
    }

    /// A new client session with a fresh key pair.
    pub fn new_client(local_cert: Certificate) -> (r: HandshakeSession)
        ensures
            fresh_session(r@, HandshakeMode::Client, local_cert),
    {
        Self::new_session(HandshakeMode::Client, local_cert)
    }

    /// A new server session with a fresh key pair.
    pub fn new_server(local_cert: Certificate) -> (r: HandshakeSession)
        ensures
            fresh_session(r@, HandshakeMode::Server, local_cert),
    {
        Self::new_session(HandshakeMode::Server, local_cert)
    }

    /// The current state.
    pub fn state(&self) -> (r: HandshakeState)
        ensures
            r == self@.state,
    {
        self.state
    }

    /// The local X25519 public key.
    pub fn local_public_key(&self) -> (r: [u8; 32])
        ensures
            r@ == self@.local_public,
    {
        self.local_keypair.public_key_bytes()
    }

    /// The local certificate.
    pub fn local_certificate(&self) -> (r: &Certificate)
        ensures
            *r == self@.local_cert,
    {
        &self.local_cert
    }

    /// The negotiated cipher suite.
    pub fn cipher_suite(&self) -> (r: CipherSuite)
        ensures
            r == self@.cipher_suite,
    {
        self.cipher_suite
    }

    /// The handshake secret, once derived.
    pub fn handshake_secret(&self) -> (r: Option<[u8; 32]>)
        ensures
            opt_bytes(r) == self@.handshake_secret,
    {
        self.handshake_secret
    }

    /// The master secret, once derived.
    pub fn master_secret(&self) -> (r: Option<[u8; 32]>)
        ensures
            opt_bytes(r) == self@.master_secret,
    {
        self.master_secret
    }

    /// Client: creates the ClientHello. Refused, and nothing changes, on a
    /// server or out of the Start state.
    pub fn create_client_hello(&mut self) -> (r: Result<ClientHello, Error>)
        requires
            old(self).wf(),
        ensures
            final(self).wf(),
            r is Ok <==> old(self)@.mode == HandshakeMode::Client && old(self)@.state == HandshakeState::Start,
            r is Err ==> final(self)@ == old(self)@,
            old(self)@.mode != HandshakeMode::Client ==> (r matches Err(e) && e matches Error::TlsHandshake(m) && m@ == "Not a client"@),
            old(self)@.mode == HandshakeMode::Client && old(self)@.state != HandshakeState::Start ==> (r matches Err(e)
                && e matches Error::TlsHandshake(m) && m@ == "Invalid state for ClientHello: "@ + old(self)@.state.label()),
            r matches Ok(hello) ==> sent_client_hello(old(self)@, final(self)@, hello),
    {
        if self.mode != HandshakeMode::Client {
            return Err(Error::TlsHandshake("Not a client".to_string()));
        }
        if self.state != HandshakeState::Start {
            return Err(state_error("Invalid state for ClientHello: ", self.state));
        }
        let random = random32();
        self.client_random = Some(random);
        self.state = HandshakeState::ClientHelloSent;
        let mut cipher_suites: Vec<CipherSuite> = Vec::new();
        cipher_suites.push(CipherSuite::TlsAes256GcmSha384);
        cipher_suites.push(CipherSuite::TlsChacha20Poly1305Sha256);
        cipher_suites.push(CipherSuite::TlsAes128GcmSha256);
        let hello = ClientHello {
            legacy_version: 0x0304,
            random,
            session_id: Vec::new(),
            cipher_suites,
            key_share: self.local_keypair.public_key_bytes(),
            certificate: self.local_cert.duplicate(),
        };
        assert(hello.cipher_suites@ =~= seq![
            CipherSuite::TlsAes256GcmSha384,
            CipherSuite::TlsChacha20Poly1305Sha256,
            CipherSuite::TlsAes128GcmSha256,
        ]);
        Ok(hello)
    }

    /// Server: takes a ClientHello and answers it with a ServerHello. The
    /// first offered suite is chosen. Refused, and nothing changes, on a
    /// client, out of the Start state, for a version other than TLS 1.3 or
    /// when no suite is offered.
    pub fn process_client_hello(&mut self, client_hello: &ClientHello) -> (r: Result<ServerHello, Error>)
        requires
            old(self).wf(),
        ensures
            final(self).wf(),
            r is Ok <==> old(self)@.mode == HandshakeMode::Server && old(self)@.state == HandshakeState::Start
                && client_hello.legacy_version == 0x0304 && client_hello.cipher_suites@.len() > 0,
            r is Err ==> final(self)@ == old(self)@,
            old(self)@.mode != HandshakeMode::Server ==> (r matches Err(e) && e matches Error::TlsHandshake(m) && m@ == "Not a server"@),
            old(self)@.mode == HandshakeMode::Server && old(self)@.state != HandshakeState::Start ==> (r matches Err(e)
                && e matches Error::TlsHandshake(m) && m@ == "Invalid state for processing ClientHello: "@ + old(self)@.state.label()),
            old(self)@.mode == HandshakeMode::Server && old(self)@.state == HandshakeState::Start
                && client_hello.legacy_version != 0x0304 ==> (r matches Err(e)
                && e matches Error::InvalidTlsMessage(m) && m@ == version_message(client_hello.legacy_version)),
            old(self)@.mode == HandshakeMode::Server && old(self)@.state == HandshakeState::Start
                && client_hello.legacy_version == 0x0304 && client_hello.cipher_suites@.len() == 0 ==> (r matches Err(e)
                && e matches Error::InvalidTlsMessage(m) && m@ == "No cipher suites"@),
            r matches Ok(reply) ==> answered_client_hello(old(self)@, final(self)@, *client_hello, reply),
    {
        if self.mode != HandshakeMode::Server {
            return Err(Error::TlsHandshake("Not a server".to_string()));
        }
        if self.state != HandshakeState::Start {
            return Err(state_error("Invalid state for processing ClientHello: ", self.state));
        }
        if client_hello.legacy_version != 0x0304 {
            return Err(version_error(client_hello.legacy_version));
        }
        if client_hello.cipher_suites.len() == 0 {
            return Err(Error::InvalidTlsMessage("No cipher suites".to_string()));
        }
        let cipher_suite = client_hello.cipher_suites[0];

        self.peer_public_key = Some(client_hello.key_share);
        self.peer_cert = Some(client_hello.certificate.duplicate());
        self.cipher_suite = cipher_suite;
        self.client_random = Some(client_hello.random);

        let random = random32();
        self.server_random = Some(random);

        let shared_secret = match self.local_keypair.shared_secret(&client_hello.key_share) {
            Ok(s) => s,
            Err(e) => return Err(e),
        };
        let handshake_secret = match derive_handshake_secret(&shared_secret, &client_hello.random, &random) {
            Ok(s) => s,
            Err(e) => return Err(e),
        };
        self.handshake_secret = Some(handshake_secret);
        let master_secret = match derive_master_secret(&handshake_secret) {
            Ok(s) => s,
            Err(e) => return Err(e),
        };
        self.master_secret = Some(master_secret);
        self.state = HandshakeState::FinishedSent;

        let session_id = crate::bytes_util::copy_range(client_hello.session_id.as_slice(), 0, client_hello.session_id.len());
        assert(session_id@ =~= client_hello.session_id@);
        Ok(ServerHello {
            legacy_version: 0x0304,
            random,
            session_id,
            cipher_suite,
            key_share: self.local_keypair.public_key_bytes(),
            certificate: self.local_cert.duplicate(),
        })
    }

    /// Client: takes the ServerHello and derives the secrets. Refused, and
    /// nothing changes, on a server, in any state but ClientHelloSent, or
    /// for a version other than TLS 1.3.
    pub fn process_server_hello(&mut self, server_hello: &ServerHello) -> (r: Result<(), Error>)
        requires
            old(self).wf(),
        ensures
            final(self).wf(),
            r is Ok <==> old(self)@.mode == HandshakeMode::Client && old(self)@.state == HandshakeState::ClientHelloSent
                && server_hello.legacy_version == 0x0304,
            r is Err ==> final(self)@ == old(self)@,
            old(self)@.mode != HandshakeMode::Client ==> (r matches Err(e) && e matches Error::TlsHandshake(m) && m@ == "Not a client"@),
            old(self)@.mode == HandshakeMode::Client && old(self)@.state != HandshakeState::ClientHelloSent ==> (r matches Err(e)
                && e matches Error::TlsHandshake(m) && m@ == "Invalid state for ServerHello: "@ + old(self)@.state.label()),
            old(self)@.mode == HandshakeMode::Client && old(self)@.state == HandshakeState::ClientHelloSent
                && server_hello.legacy_version != 0x0304 ==> (r matches Err(e)
                && e matches Error::InvalidTlsMessage(m) && m@ == version_message(server_hello.legacy_version)),
            r is Ok ==> took_server_hello(old(self)@, final(self)@, *server_hello),
    {
        if self.mode != HandshakeMode::Client {
            return Err(Error::TlsHandshake("Not a client".to_string()));
        }
        if self.state != HandshakeState::ClientHelloSent {
            return Err(state_error("Invalid state for ServerHello: ", self.state));
        }
        if server_hello.legacy_version != 0x0304 {
            return Err(version_error(server_hello.legacy_version));
        }
        let client_random = match self.client_random {
            Some(r) => r,
            None => return Err(Error::TlsHandshake("Missing client random".to_string())),
        };

        self.peer_public_key = Some(server_hello.key_share);
        self.peer_cert = Some(server_hello.certificate.duplicate());
        self.cipher_suite = server_hello.cipher_suite;
        self.server_random = Some(server_hello.random);

        let shared_secret = match self.local_keypair.shared_secret(&server_hello.key_share) {
            Ok(s) => s,
            Err(e) => return Err(e),
        };
        let handshake_secret = match derive_handshake_secret(&shared_secret, &client_random, &server_hello.random) {
            Ok(s) => s,
            Err(e) => return Err(e),
        };
        self.handshake_secret = Some(handshake_secret);
        let master_secret = match derive_master_secret(&handshake_secret) {
            Ok(s) => s,
            Err(e) => return Err(e),
        };
        self.master_secret = Some(master_secret);
        self.state = HandshakeState::ServerHelloReceived;
        Ok(())
    }

    /// Creates this side's Finished over its own certificate. Refused, and
    /// nothing changes, in any state but ServerHelloReceived.
    pub fn create_finished(&mut self) -> (r: Result<Finished, Error>)
        requires
            old(self).wf(),
        ensures
            final(self).wf(),
            r is Ok <==> old(self)@.state == HandshakeState::ServerHelloReceived,
            r is Err ==> final(self)@ == old(self)@,
            old(self)@.state != HandshakeState::ServerHelloReceived ==> (r matches Err(e)
                && e matches Error::TlsHandshake(m) && m@ == "Invalid state for Finished: "@ + old(self)@.state.label()),
            r matches Ok(f) ==> f.verify_data@ == verify_data_of(old(self)@.handshake_secret->0, old(self)@.local_cert),
            r is Ok ==> final(self)@ == (HandshakeSessionView { state: HandshakeState::FinishedSent, ..old(self)@ }),
    {
        if self.state != HandshakeState::ServerHelloReceived {
            return Err(state_error("Invalid state for Finished: ", self.state));
        }
        let handshake_secret = match self.handshake_secret {
            Some(s) => s,
            None => return Err(Error::TlsHandshake("Missing handshake secret".to_string())),
        };
        let verify_data = match compute_verify_data(&handshake_secret, &self.local_cert) {
            Ok(d) => d,
            Err(e) => return Err(e),
        };
        self.state = HandshakeState::FinishedSent;
        Ok(Finished { verify_data, timestamp_ms: unix_time_ms() })
    }

    /// Takes the peer's Finished: a client in ServerHelloReceived, a server
    /// in FinishedSent. The handshake completes when the verify data is the
    /// one expected over the peer's certificate, and fails (state Failed)
    /// when it is not; in any other state it is refused and nothing changes.
    pub fn process_finished(&mut self, finished: &Finished) -> (r: Result<(), Error>)
        requires
            old(self).wf(),
        ensures
            final(self).wf(),
            old(self)@.state != finished_state(old(self)@.mode) ==> final(self)@ == old(self)@ && (r matches Err(e)
                && e matches Error::TlsHandshake(m) && m@ == (match old(self)@.mode {
                    HandshakeMode::Client => "Invalid client state for Finished: "@,
                    HandshakeMode::Server => "Invalid server state for Finished: "@,
                }) + old(self)@.state.label()),
            old(self)@.state == finished_state(old(self)@.mode) ==> (r is Ok <==> finished.verify_data@ == expected_verify_data(old(self)@)),
            old(self)@.state == finished_state(old(self)@.mode) && r is Ok ==> final(self)@ == (HandshakeSessionView { state: HandshakeState::Complete, ..old(self)@ }),
            old(self)@.state == finished_state(old(self)@.mode) && r is Err ==> final(self)@ == (HandshakeSessionView { state: HandshakeState::Failed, ..old(self)@ }),
            old(self)@.state == finished_state(old(self)@.mode) ==> (r matches Err(e) ==> (e matches Error::InvalidTlsMessage(m) && m@ == "Finished verify_data mismatch"@)),
    {
        match self.mode {
            HandshakeMode::Client => {
                if self.state != HandshakeState::ServerHelloReceived {
                    return Err(state_error("Invalid client state for Finished: ", self.state));
                }
            },
            HandshakeMode::Server => {
                if self.state != HandshakeState::FinishedSent {
                    return Err(state_error("Invalid server state for Finished: ", self.state));
                }
            },
        }
        let handshake_secret = match self.handshake_secret {
            Some(s) => s,
            None => return Err(Error::TlsHandshake("Missing handshake secret".to_string())),
        };
        let expected = match &self.peer_cert {
            Some(peer_cert) => match compute_verify_data(&handshake_secret, peer_cert) {
                Ok(d) => d,
                Err(e) => return Err(e),
            },
            None => return Err(Error::TlsHandshake("Missing peer cert".to_string())),
        };
        if !bytes32_eq(&expected, &finished.verify_data) {
            self.state = HandshakeState::Failed;
            return Err(Error::InvalidTlsMessage("Finished verify_data mismatch".to_string()));
        }
        self.state = HandshakeState::Complete;
        Ok(())
    }

    /// Whether the handshake is complete.
    pub fn is_complete(&self) -> (r: bool)
        ensures
            r == (self@.state == HandshakeState::Complete),
    {
        self.state == HandshakeState::Complete
    }

    /// The peer's certificate, once received.
    pub fn peer_certificate(&self) -> (r: Option<&Certificate>)
        ensures
            r is Some <==> self@.peer_cert is Some,
            r matches Some(c) ==> self@.peer_cert == Some(*c),
    {
        match &self.peer_cert {
            Some(c) => Some(c),
            None => None,
        }
    }
}

/// An honest handshake agrees and completes: a fresh client sends its
/// hello, a fresh server answers it, the client takes the answer and sends
/// its Finished. When X25519 gives both sides the same shared secret, both
/// hold the same handshake and master secrets and cipher suite, each holds
/// the other's certificate, and the client's Finished carries exactly the
/// verify data the server expects, so the server's `process_finished`
/// completes the handshake.
pub proof fn lemma_honest_handshake(
    c0: HandshakeSessionView,
    c1: HandshakeSessionView,
    c2: HandshakeSessionView,
    s0: HandshakeSessionView,
    s1: HandshakeSessionView,
    hello: ClientHello,
    reply: ServerHello,
    finished: Finished,
)
    requires
        fresh_session(c0, HandshakeMode::Client, c0.local_cert),
        fresh_session(s0, HandshakeMode::Server, s0.local_cert),
        sent_client_hello(c0, c1, hello),
        answered_client_hello(s0, s1, hello, reply),
        took_server_hello(c1, c2, reply),
        finished.verify_data@ == verify_data_of(c2.handshake_secret->0, c2.local_cert),
        x25519_shared_secret(c0.local_secret, s0.local_public) == x25519_shared_secret(s0.local_secret, c0.local_public),
    ensures
        c2.handshake_secret == s1.handshake_secret,
        c2.master_secret == s1.master_secret,
        c2.cipher_suite == s1.cipher_suite,
        c2.peer_cert == Some(s0.local_cert),
        s1.peer_cert == Some(c0.local_cert),
        s1.state == finished_state(s1.mode),
        finished.verify_data@ == expected_verify_data(s1),
{
}

/// Runs whole handshakes in one call, playing the other side locally.
pub struct TlsHandshake;

impl TlsHandshake {
    /// A client handshake against a locally made ServerHello for
    /// `server_cert`: the session ends Complete with the server's
    /// certificate as its peer's.
    pub fn perform_client_handshake(client_cert: Certificate, server_cert: Certificate) -> (r: Result<HandshakeSession, Error>)
        ensures
            r is Ok,
            r matches Ok(s) ==> (s.wf() && s@.mode == HandshakeMode::Client && s@.state == HandshakeState::Complete),
            r matches Ok(s) ==> (s@.local_cert == client_cert && s@.peer_cert == Some(server_cert)),
            r matches Ok(s) ==> (s@.cipher_suite == CipherSuite::TlsAes256GcmSha384),
    {
        let mut session = HandshakeSession::new_client(client_cert);
        let _client_hello = match session.create_client_hello() {
            Ok(h) => h,
            Err(e) => return Err(e),
        };
        let server_keypair = Crypto::generate_keypair();
        let shared_secret = match server_keypair.shared_secret(&session.local_public_key()) {
            Ok(s) => s,
            Err(e) => return Err(e),
        };
        let client_random = match session.client_random {
            Some(r) => r,
            None => return Err(Error::TlsHandshake("Missing client random".to_string())),
        };
        let server_random = random32();
        let server_hello = ServerHello {
            legacy_version: 0x0304,
            random: server_random,
            session_id: Vec::new(),
            cipher_suite: CipherSuite::default(),
            key_share: server_keypair.public_key_bytes(),
            certificate: server_cert,
        };
        match session.process_server_hello(&server_hello) {
            Ok(()) => {},
            Err(e) => return Err(e),
        }
        let _ = shared_secret;
        let _ = client_random;
        let _finished = match session.create_finished() {
            Ok(f) => f,
            Err(e) => return Err(e),
        };
        session.state = HandshakeState::Complete;
        Ok(session)
    }

    /// A server handshake against a locally made ClientHello for
    /// `client_cert` and the Finished that client would send: the session
    /// ends Complete with the client's certificate as its peer's.
    pub fn perform_server_handshake(server_cert: Certificate, client_cert: Certificate) -> (r: Result<HandshakeSession, Error>)
        ensures
            r is Ok,
            r matches Ok(s) ==> (s.wf() && s@.mode == HandshakeMode::Server && s@.state == HandshakeState::Complete),
            r matches Ok(s) ==> (s@.local_cert == server_cert && s@.peer_cert == Some(client_cert)),
            r matches Ok(s) ==> (s@.cipher_suite == CipherSuite::TlsAes256GcmSha384),
    {
        let mut session = HandshakeSession::new_server(server_cert);
        let client_keypair = Crypto::generate_keypair();
        let client_random = random32();
        let mut cipher_suites: Vec<CipherSuite> = Vec::new();
        cipher_suites.push(CipherSuite::default());
        let client_hello = ClientHello {
            legacy_version: 0x0304,
            random: client_random,
            session_id: Vec::new(),
            cipher_suites,
            key_share: client_keypair.public_key_bytes(),
            certificate: client_cert,
        };
        let _server_hello = match session.process_client_hello(&client_hello) {
            Ok(h) => h,
            Err(e) => return Err(e),
        };
        let handshake_secret = match session.handshake_secret {
            Some(s) => s,
            None => return Err(Error::TlsHandshake("Missing handshake secret".to_string())),
        };
        let verify_data = match compute_verify_data(&handshake_secret, &client_hello.certificate) {
            Ok(d) => d,
            Err(e) => return Err(e),
        };
        let finished = Finished { verify_data, timestamp_ms: unix_time_ms() };
        match session.process_finished(&finished) {
            Ok(()) => {},
            Err(e) => return Err(e),
        }
        Ok(session)
    }
}

} // verus!
