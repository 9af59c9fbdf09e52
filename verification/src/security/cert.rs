//! Device identity certificates and the store of trusted peer certificates.
//!
//! A certificate is self-signed with Ed25519 over the BLAKE3 hash of its
//! content; its validity window is read from the clock with `chrono`, and
//! its binary fields are carried in standard base64.

use vstd::prelude::*;
use base64::Engine;
use ed25519_dalek::Signer;
use crate::bytes_util::{append_bytes, str_eq};
use crate::keyed::{by_key, find_key, lemma_by_key_empty, unique_keys, upsert, Keyed};
use crate::security::crypto::{
    blake3_hash, hasher_finalize, hasher_input, hasher_new, hasher_update, x25519_public_key, Crypto, KeyPair,
};
use crate::security::error::Error;

verus! {

broadcast use vstd::string::to_string_from_display_ensures_for_str;

/// Whether `chrono` has a UTC time `secs` seconds after the Unix epoch
/// plus `nanos` nanoseconds (`DateTime::from_timestamp` gives one).
pub uninterp spec fn utc_representable(secs: i64, nanos: u32) -> bool;

/// The RFC 3339 text `chrono` writes for the UTC time `secs` seconds after
/// the Unix epoch plus `nanos` nanoseconds.
pub uninterp spec fn rfc3339_text(secs: i64, nanos: u32) -> Seq<char>;

/// The standard base64 encoding (with padding) of some bytes.
pub uninterp spec fn base64_standard(bytes: Seq<u8>) -> Seq<char>;

/// The Ed25519 signature of a message under a 32-byte secret key.
pub uninterp spec fn ed25519_signature(secret: Seq<u8>, message: Seq<u8>) -> Seq<u8>;

/// Whether an Ed25519 signature over a message verifies under the public
/// key of a 32-byte secret key.
pub uninterp spec fn ed25519_accepts(secret: Seq<u8>, message: Seq<u8>, signature: Seq<u8>) -> bool;

/// The SHA-256 hash (32 bytes) of an input.
pub uninterp spec fn sha256_hash(input: Seq<u8>) -> Seq<u8>;

/// `base64::Engine::decode` with the standard engine, whose padding must be
/// canonical and which allows no trailing bits: the bytes whose standard
/// encoding is the text, when there are such bytes (then exactly one such
/// sequence exists), else `None`.
#[verifier::external_body]
fn base64_decode(text: &str) -> (r: Option<Vec<u8>>)
    ensures
        r matches Some(b) ==> base64_standard(b@) == text@,
        forall|b: Seq<u8>| #[trigger] base64_standard(b) == text@ ==> r is Some && r.unwrap()@ == b,
{
    match base64::engine::general_purpose::STANDARD.decode(text) {
        Ok(b) => Some(b),
        Err(_) => None,
    }
}

/// `ed25519_dalek::SigningKey::verifying_key` and `Verifier::verify`:
/// whether the signature bytes (which must be 64 long, else it fails)
/// verify over the message under the public key of the secret key. A
/// signature that `Signer::sign` made with that secret over that message
/// verifies.
#[verifier::external_body]
fn ed25519_verify(secret: [u8; 32], message: &[u8], signature: &[u8]) -> (r: bool)
    ensures
        r == ed25519_accepts(secret@, message@, signature@),
        signature@ == ed25519_signature(secret@, message@) ==> r,
{
    let key = ed25519_dalek::SigningKey::from_bytes(&secret).verifying_key();
    match ed25519_dalek::Signature::from_slice(signature) {
        Ok(sig) => ed25519_dalek::Verifier::verify(&key, message, &sig).is_ok(),
        Err(_) => false,
    }
}

/// `sha2::Sha256::digest`: the 32-byte SHA-256 hash of the input.
#[verifier::external_body]
fn sha256_digest(data: &[u8]) -> (r: [u8; 32])
    ensures
        r@ == sha256_hash(data@),
{
    sha2::Digest::finalize(sha2::Digest::chain_update(<sha2::Sha256 as sha2::Digest>::new(), data)).into()
}

/// `chrono::Utc::now`, as its Unix timestamp and the nanoseconds past that
/// second: a reading of the clock, of which only this is promised, that
/// `chrono` has the time it read (`DateTime::from_timestamp` of the two
/// gives it back).
#[verifier::external_body]
fn utc_now_parts() -> (r: (i64, u32))
    ensures
        utc_representable(r.0, r.1),
{
    let t = chrono::Utc::now();
    (t.timestamp(), t.timestamp_subsec_nanos())
}

/// `chrono::DateTime::from_timestamp` and `to_rfc3339`: the RFC 3339 text
/// of the UTC time `secs` seconds after the Unix epoch plus `nanos`
/// nanoseconds, `None` when `chrono` has no such time.
#[verifier::external_body]
fn rfc3339_at(secs: i64, nanos: u32) -> (r: Option<String>)
    ensures
        r is Some <==> utc_representable(secs, nanos),
        r matches Some(t) ==> t@ == rfc3339_text(secs, nanos),
{
    match chrono::DateTime::from_timestamp(secs, nanos) {
        Some(t) => Some(t.to_rfc3339()),
        None => None,
    }
}

/// How long an identity certificate is valid: 365 days, in seconds.
pub const VALIDITY_SECS: i64 = 31_536_000;

/// Whether a certificate made at the time `secs` (plus `nanos`) can be
/// given its validity window: `chrono` has that time and the time 365 days
/// later.
pub open spec fn validity_fits(secs: i64, nanos: u32) -> bool {
    &&& utc_representable(secs, nanos)
    &&& secs + VALIDITY_SECS <= i64::MAX
    &&& utc_representable((secs + VALIDITY_SECS) as i64, nanos)
}

/// `base64::Engine::encode` with the standard engine.
#[verifier::external_body]
pub(crate) fn base64_encode(bytes: &[u8]) -> (r: String)
    ensures
        r@ == base64_standard(bytes@),
{
    base64::engine::general_purpose::STANDARD.encode(bytes)
}

/// `ed25519_dalek::SigningKey::from_bytes` and `Signer::sign`: the
/// signature of `message` under the secret key, a function of the two
/// alone (Ed25519 signing is deterministic).
#[verifier::external_body]
fn ed25519_sign(secret: [u8; 32], message: &[u8]) -> (r: [u8; 64])
    ensures
        r@ == ed25519_signature(secret@, message@),
{
    ed25519_dalek::SigningKey::from_bytes(&secret).sign(message).to_bytes()
}

/// Device identity certificate.
#[derive(Debug, Clone)]
pub struct Certificate {
    /// Subject device ID (UUID).
    pub device_id: String,
    /// Device name (user-friendly).
    pub device_name: String,
    /// Serial number (random bytes, base64).
    pub serial: String,
    /// Not valid before (RFC 3339).
    pub not_before: String,
    /// Not valid after (RFC 3339).
    pub not_after: String,
    /// Public key bytes (base64).
    pub public_key: String,
    /// Self-signature (base64).
    pub signature: String,
}

impl Certificate {
    /// A copy of the certificate.
    pub fn duplicate(&self) -> (r: Certificate)
        ensures
            r == *self,
    {
        Certificate {
            device_id: self.device_id.clone(),
            device_name: self.device_name.clone(),
            serial: self.serial.clone(),
            not_before: self.not_before.clone(),
            not_after: self.not_after.clone(),
            public_key: self.public_key.clone(),
            signature: self.signature.clone(),
        }
    }
}

/// The UTF-8 bytes of a string.
pub open spec fn utf8(s: Seq<char>) -> Seq<u8> {
    vstd::utf8::encode_utf8(s)
}

/// The content of a certificate that is hashed and signed: every field but
/// the signature, in order.
pub open spec fn cert_content(c: Certificate) -> Seq<u8> {
    utf8(c.device_id@) + utf8(c.device_name@) + utf8(c.serial@) + utf8(c.not_before@) + utf8(c.not_after@)
        + utf8(c.public_key@)
}

/// The fingerprint of a certificate: base64 of the SHA-256 hash of its
/// content.
pub open spec fn fingerprint_of(c: Certificate) -> Seq<char> {
    base64_standard(sha256_hash(cert_content(c)))
}

/// Whether a certificate's signature is one that verifies over the BLAKE3
/// hash of its content under the public key of `secret`: its text is the
/// standard base64 of such a signature.
pub open spec fn signed_by(secret: Seq<u8>, c: Certificate) -> bool {
    exists|sig: Seq<u8>| #[trigger] base64_standard(sig) == c.signature@ && ed25519_accepts(
        secret,
        blake3_hash(cert_content(c)),
        sig,
    )
}

impl Keyed for Certificate {
    open spec fn key(&self) -> Seq<char> {
        self.device_id@
    }

    fn key_str(&self) -> (r: &str) {
        self.device_id.as_str()
    }
}

/// In-memory certificate store: the device's identity and the peers it trusts.
#[derive(Debug)]
pub struct CertificateStore {
    identity_key: Option<KeyPair>,
    identity_cert: Option<Certificate>,
    trusted_certs: Vec<Certificate>,
}

impl CertificateStore {
    /// The device's own certificate, once generated.
    pub closed spec fn identity(&self) -> Option<Certificate> {
        self.identity_cert
    }

    /// The secret key of the device's identity, once generated.
    pub closed spec fn identity_secret(&self) -> Option<Seq<u8>> {
        match self.identity_key {
            Some(k) => Some(k.secret()),
            None => None,
        }
    }

    /// The trusted peer certificates by device ID.
    pub closed spec fn trusted(&self) -> Map<Seq<char>, Certificate> {
        by_key(self.trusted_certs@)
    }

    /// At most one trusted certificate per device, and the identity key's
    /// public half is that of its secret.
    pub closed spec fn wf(&self) -> bool {
        &&& unique_keys(self.trusted_certs@)
        &&& self.identity_key matches Some(k) ==> k.wf()
    }

    /// An empty store.
    pub fn new() -> (r: CertificateStore)
        ensures
            r.wf(),
            r.identity() is None,
            r.identity_secret() is None,
            r.trusted() == Map::<Seq<char>, Certificate>::empty(),
    {
        let r = CertificateStore { identity_key: None, identity_cert: None, trusted_certs: Vec::new() };
        proof {
            lemma_by_key_empty(r.trusted_certs@);
        }
        r
    }

    /// Makes a new identity key pair and a certificate for it, valid from
    /// the time `now_secs` (plus `now_nanos`) for 365 days, self-signed with
    /// the key: its validity dates are `chrono`'s RFC 3339 text of those two
    /// times, the signature is that of the content hash under the secret
    /// key, and the public key field is the base64 of the public key. Both
    /// are stored as the identity, and the certificate is returned. Fails,
    /// with a `Crypto` error and nothing changed, exactly where `chrono` has
    /// no such time or none 365 days later.
    pub fn generate_identity_at(
        &mut self,
        device_id: &str,
        device_name: &str,
        now_secs: i64,
        now_nanos: u32,
    ) -> (r: Result<&Certificate, Error>)
        requires
            old(self).wf(),
        ensures
            final(self).wf(),
            final(self).trusted() == old(self).trusted(),
            r is Err <==> !validity_fits(now_secs, now_nanos),
            r matches Err(e) ==> e is Crypto && *final(self) == *old(self),
            r matches Ok(c) ==> final(self).identity() == Some(*c) && final(self).identity_secret() is Some,
            r matches Ok(c) ==> c.device_id@ == device_id@ && c.device_name@ == device_name@,
            r matches Ok(c) ==> c.not_before@ == rfc3339_text(now_secs, now_nanos) && c.not_after@ == rfc3339_text(
                (now_secs + VALIDITY_SECS) as i64,
                now_nanos,
            ),
            r matches Ok(c) ==> c.public_key@ == base64_standard(x25519_public_key(final(self).identity_secret()->0)),
            r matches Ok(c) ==> c.signature@ == base64_standard(ed25519_signature(
                final(self).identity_secret()->0,
                blake3_hash(cert_content(*c)),
            )),
    {
        let not_before = match rfc3339_at(now_secs, now_nanos) {
            Some(t) => t,
            None => return Err(Error::Crypto("Certificate validity is out of the calendar's range".to_string())),
        };
        let later_secs = match now_secs.checked_add(VALIDITY_SECS) {
            Some(t) => t,
            None => return Err(Error::Crypto("Certificate validity is out of the calendar's range".to_string())),
        };
        let not_after = match rfc3339_at(later_secs, now_nanos) {
            Some(t) => t,
            None => return Err(Error::Crypto("Certificate validity is out of the calendar's range".to_string())),
        };
        let keypair = Crypto::generate_keypair();
        let serial = base64_encode(Crypto::random_bytes(16).as_slice());
        let public = keypair.public_key_bytes();
        let mut cert = Certificate {
            device_id: device_id.to_string(),
            device_name: device_name.to_string(),
            serial,
            not_before,
            not_after,
            public_key: base64_encode(public.as_slice()),
            signature: String::new(),
        };
        let content_hash = Self::cert_content_hash(&cert);
        let signature = ed25519_sign(keypair.secret_key_bytes(), content_hash.as_slice());
        cert.signature = base64_encode(signature.as_slice());
        self.identity_key = Some(keypair);
        self.identity_cert = Some(cert);
        match &self.identity_cert {
            Some(c) => Ok(c),
            None => Err(Error::Crypto("Identity certificate missing".to_string())),
        }
    }

    /// Makes a new identity key pair and a certificate for it, valid from
    /// now, by the clock, for 365 days (`generate_identity_at` of the time
    /// read). Fails only where `chrono` has no time 365 days after the time
    /// read.
    pub fn generate_identity(&mut self, device_id: &str, device_name: &str) -> (r: Result<&Certificate, Error>)
        requires
            old(self).wf(),
        ensures
            final(self).wf(),
            final(self).trusted() == old(self).trusted(),
            r matches Err(e) ==> e is Crypto && *final(self) == *old(self),
            r is Err ==> exists|s: i64, n: u32| utc_representable(s, n) && !#[trigger] validity_fits(s, n),
            r matches Ok(c) ==> final(self).identity() == Some(*c) && final(self).identity_secret() is Some,
            r matches Ok(c) ==> c.device_id@ == device_id@ && c.device_name@ == device_name@,
            r matches Ok(c) ==> exists|s: i64, n: u32| #[trigger] validity_fits(s, n) && c.not_before@ == rfc3339_text(s, n)
                && c.not_after@ == rfc3339_text((s + VALIDITY_SECS) as i64, n),
            r matches Ok(c) ==> c.public_key@ == base64_standard(x25519_public_key(final(self).identity_secret()->0)),
            r matches Ok(c) ==> c.signature@ == base64_standard(ed25519_signature(
                final(self).identity_secret()->0,
                blake3_hash(cert_content(*c)),
            )),
    {
        let (now_secs, now_nanos) = utc_now_parts();
        let r = self.generate_identity_at(device_id, device_name, now_secs, now_nanos);
        proof {
            assert(r is Err ==> !validity_fits(now_secs, now_nanos));
            if r is Ok {
                assert(validity_fits(now_secs, now_nanos));
            }
        }
        r
    }

    /// The BLAKE3 hash of a certificate's content (for signing).
    fn cert_content_hash(cert: &Certificate) -> (r: [u8; 32])
        ensures
            r@ == blake3_hash(cert_content(*cert)),
    {
        let mut hasher = hasher_new();
        hasher_update(&mut hasher, cert.device_id.as_str().as_bytes());
        hasher_update(&mut hasher, cert.device_name.as_str().as_bytes());
        hasher_update(&mut hasher, cert.serial.as_str().as_bytes());
        hasher_update(&mut hasher, cert.not_before.as_str().as_bytes());
        hasher_update(&mut hasher, cert.not_after.as_str().as_bytes());
        hasher_update(&mut hasher, cert.public_key.as_str().as_bytes());
        assert(hasher_input(hasher) =~= cert_content(*cert));
        hasher_finalize(&hasher)
    }

    /// The certificate's content, the bytes that are hashed: its fields
    /// but the signature, one after another.
    fn content_bytes(cert: &Certificate) -> (r: Vec<u8>)
        ensures
            r@ == cert_content(*cert),
    {
        let mut r: Vec<u8> = Vec::new();
        append_bytes(&mut r, cert.device_id.as_str().as_bytes());
        append_bytes(&mut r, cert.device_name.as_str().as_bytes());
        append_bytes(&mut r, cert.serial.as_str().as_bytes());
        append_bytes(&mut r, cert.not_before.as_str().as_bytes());
        append_bytes(&mut r, cert.not_after.as_str().as_bytes());
        append_bytes(&mut r, cert.public_key.as_str().as_bytes());
        assert(r@ =~= cert_content(*cert));
        r
    }

    /// The certificate's fingerprint: base64 of the SHA-256 hash of its
    /// content.
    pub fn fingerprint(cert: &Certificate) -> (r: String)
        ensures
            r@ == fingerprint_of(*cert),
    {
        let content = Self::content_bytes(cert);
        let hash = sha256_digest(content.as_slice());
        base64_encode(hash.as_slice())
    }

    /// Verifies a certificate's self-signature with the store's identity
    /// key: `Ok(true)` when its signature (base64) verifies over the hash of
    /// its content under the identity's public key, `Ok(false)` when it
    /// does not (a forged signature, or content changed after signing); a
    /// `Crypto` error when the store has no identity to verify with.
    pub fn verify_self(&self, cert: &Certificate) -> (r: Result<bool, Error>)
        requires
            self.wf(),
        ensures
            self.identity_secret() is None ==> (r matches Err(e) && e is Crypto),
            self.identity_secret() matches Some(s) ==> (r matches Ok(b) && b == signed_by(s, *cert)),
            self.identity_secret() matches Some(s) && cert.signature@ == base64_standard(
                ed25519_signature(s, blake3_hash(cert_content(*cert))),
            ) ==> r == Ok::<bool, Error>(true),
    {
        let key = match &self.identity_key {
            Some(k) => k,
            None => return Err(Error::Crypto("No identity key to verify with".to_string())),
        };
        let secret = key.secret_key_bytes();
        let hash = Self::cert_content_hash(cert);
        match base64_decode(cert.signature.as_str()) {
            Some(sig) => {
                let ok = ed25519_verify(secret, hash.as_slice(), sig.as_slice());
                proof {
                    if signed_by(secret@, *cert) {
                        let w = choose|w: Seq<u8>| #[trigger] base64_standard(w) == cert.signature@ && ed25519_accepts(
                            secret@,
                            blake3_hash(cert_content(*cert)),
                            w,
                        );
                        assert(w == sig@);
                    }
                    if ok {
                        assert(base64_standard(sig@) == cert.signature@);
                    }
                }
                Ok(ok)
            },
            None => {
                proof {
                    if signed_by(secret@, *cert) {
                        let w = choose|w: Seq<u8>| #[trigger] base64_standard(w) == cert.signature@ && ed25519_accepts(
                            secret@,
                            blake3_hash(cert_content(*cert)),
                            w,
                        );
                        assert(base64_standard(w) == cert.signature@);
                    }
                    let g = ed25519_signature(secret@, blake3_hash(cert_content(*cert)));
                    assert(base64_standard(g) == cert.signature@ ==> false);
                }
                Ok(false)
            },
        }
    }

    /// Trusts a peer's certificate, in place of any trusted before for the
    /// same device.
    pub fn trust_peer(&mut self, cert: Certificate)
        requires
            old(self).wf(),
        ensures
            final(self).wf(),
            final(self).trusted() == old(self).trusted().insert(cert.device_id@, cert),
            final(self).identity() == old(self).identity(),
            final(self).identity_secret() == old(self).identity_secret(),
    {
        upsert(&mut self.trusted_certs, cert);
    }

    /// The trusted certificate for a device, if any.
    pub fn get_trusted(&self, device_id: &str) -> (r: Option<&Certificate>)
        requires
            self.wf(),
        ensures
            r is Some <==> self.trusted().contains_key(device_id@),
            r matches Some(c) ==> self.trusted()[device_id@] == *c,
    {
        match find_key(&self.trusted_certs, device_id) {
            Some(i) => Some(&self.trusted_certs[i]),
            None => None,
        }
    }
    /// The device's own certificate, once generated.
    pub fn get_identity(&self) -> (r: Option<&Certificate>)
        ensures
            r is Some <==> self.identity() is Some,
            r matches Some(c) ==> self.identity() == Some(*c),
    {
        match &self.identity_cert {
            Some(c) => Some(c),
            None => None,
        }
    }

    /// The device's own key pair (for the handshake), once generated.
    pub fn get_identity_key(&self) -> (r: Option<&KeyPair>)
        ensures
            r is Some <==> self.identity_secret() is Some,
            r matches Some(k) ==> self.identity_secret() == Some(k.secret()),
    {
        match &self.identity_key {
            Some(k) => Some(k),
            None => None,
        }
    }

    /// Whether a certificate's fingerprint is the expected one.
    pub fn verify_fingerprint(cert: &Certificate, expected_fingerprint: &str) -> (r: bool)
        ensures
            r == (fingerprint_of(*cert) == expected_fingerprint@),
    {
        let fp = Self::fingerprint(cert);
        str_eq(fp.as_str(), expected_fingerprint)
    }
}

impl Default for CertificateStore {
    fn default() -> (r: CertificateStore)
        ensures
            r.wf(),
            r.identity() is None,
            r.identity_secret() is None,
            r.trusted() == Map::<Seq<char>, Certificate>::empty(),
    {
        Self::new()
    }
}

} // verus!
