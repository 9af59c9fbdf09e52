//! Cryptographic primitives: X25519 key pairs, random bytes and BLAKE3.
//!
//! The primitives themselves are those of `x25519-dalek`, `rand`, `zeroize`
//! and `blake3`; the functions marked as trusted below make those calls,
//! and what their contracts claim is said above each of them.

use vstd::prelude::*;
use rand::RngCore;
use crate::security::error::Error;

verus! {

/// A 32-byte secret held in a `zeroize::Zeroizing` buffer, which zeroes the
/// bytes when it is dropped. Verus refuses to declare `Zeroizing` itself
/// (its parameter is bound by an outside trait), so the buffer is held here.
#[verifier::external_body]
#[derive(Debug)]
pub struct SecretBytes {
    buf: zeroize::Zeroizing<[u8; 32]>,
}

#[verifier::external_type_specification]
#[verifier::external_body]
pub struct ExBlake3Hasher(blake3::Hasher);

/// The 32 bytes a secret buffer holds.
pub uninterp spec fn secret_bytes(s: SecretBytes) -> Seq<u8>;

/// The X25519 public key of a secret key.
pub uninterp spec fn x25519_public_key(secret: Seq<u8>) -> Seq<u8>;

/// The X25519 shared secret of a secret key and a peer's public key.
pub uninterp spec fn x25519_shared_secret(secret: Seq<u8>, peer_public: Seq<u8>) -> Seq<u8>;

/// The BLAKE3 hash (32 bytes) of an input.
pub uninterp spec fn blake3_hash(input: Seq<u8>) -> Seq<u8>;

/// Everything fed to a BLAKE3 hasher since it was made.
pub uninterp spec fn hasher_input(h: blake3::Hasher) -> Seq<u8>;

/// `zeroize::Zeroizing::new`: wraps the key bytes in a buffer that is
/// zeroed when dropped; the buffer holds exactly those bytes.
#[verifier::external_body]
fn zeroizing_new(bytes: [u8; 32]) -> (r: SecretBytes)
    ensures
        secret_bytes(r) == bytes@,
{
    SecretBytes { buf: zeroize::Zeroizing::new(bytes) }
}

/// `Deref` of `zeroize::Zeroizing`: reads the bytes the buffer holds.
#[verifier::external_body]
fn zeroizing_read(s: &SecretBytes) -> (r: [u8; 32])
    ensures
        r@ == secret_bytes(*s),
{
    *s.buf
}

/// `x25519_dalek::PublicKey::from(&StaticSecret)`: the public key of a
/// secret key, a function of the secret alone.
#[verifier::external_body]
fn x25519_public(secret: [u8; 32]) -> (r: [u8; 32])
    ensures
        r@ == x25519_public_key(secret@),
{
    *x25519_dalek::PublicKey::from(&x25519_dalek::StaticSecret::from(secret)).as_bytes()
}

/// `x25519_dalek::StaticSecret::diffie_hellman`: the shared secret of a
/// secret key and a peer's public key, a function of the two alone.
#[verifier::external_body]
fn x25519_diffie_hellman(secret: [u8; 32], peer_public: [u8; 32]) -> (r: [u8; 32])
    ensures
        r@ == x25519_shared_secret(secret@, peer_public@),
{
    *x25519_dalek::StaticSecret::from(secret).diffie_hellman(&x25519_dalek::PublicKey::from(peer_public)).as_bytes()
}

/// `rand::RngCore::fill_bytes` on the thread-local generator: overwrites
/// the buffer with random bytes. Only its length is promised.
#[verifier::external_body]
fn fill_random(buf: &mut Vec<u8>)
    ensures
        final(buf)@.len() == old(buf)@.len(),
{
    rand::thread_rng().fill_bytes(buf.as_mut_slice())
}

/// `blake3::hash`: the 32-byte BLAKE3 hash of the input.
#[verifier::external_body]
fn blake3_digest(data: &[u8]) -> (r: [u8; 32])
    ensures
        r@ == blake3_hash(data@),
{
    *blake3::hash(data).as_bytes()
}

/// `blake3::Hasher::new`: a hasher that has been fed nothing.
#[verifier::external_body]
pub(crate) fn hasher_new() -> (r: blake3::Hasher)
    ensures
        hasher_input(r) == Seq::<u8>::empty(),
{
    blake3::Hasher::new()
}

/// `blake3::Hasher::update`: feeds more input to the hasher.
#[verifier::external_body]
pub(crate) fn hasher_update(h: &mut blake3::Hasher, data: &[u8])
    ensures
        hasher_input(*final(h)) == hasher_input(*old(h)) + data@,
{
    h.update(data);
}

/// `blake3::Hasher::finalize`: the hash of everything fed so far, which the
/// crate documents to equal `blake3::hash` of that input.
#[verifier::external_body]
pub(crate) fn hasher_finalize(h: &blake3::Hasher) -> (r: [u8; 32])
    ensures
        r@ == blake3_hash(hasher_input(*h)),
{
    *h.finalize().as_bytes()
}

/// The 32 bytes of a slice of that length, as an array.
pub fn to_array32(bytes: &[u8]) -> (r: [u8; 32])
    requires
        bytes@.len() == 32,
    ensures
        r@ == bytes@,
{
    let mut r = [0u8; 32];
    let mut i: usize = 0;
    while i < 32
        invariant
            i <= 32,
            bytes@.len() == 32,
            forall|j: int| 0 <= j < i ==> r@[j] == bytes@[j],
        decreases 32 - i,
    {
        r[i] = bytes[i];
        i = i + 1;
    }
    assert(r@ =~= bytes@);
    r
}

/// Key pair for X25519 key exchange.
#[derive(Debug)]
pub struct KeyPair {
    secret: SecretBytes,
    public: [u8; 32],
}

impl KeyPair {
    /// The secret key.
    pub closed spec fn secret(&self) -> Seq<u8> {
        secret_bytes(self.secret)
    }

    /// The public key.
    pub closed spec fn public(&self) -> Seq<u8> {
        self.public@
    }

    /// The public key is that of the secret key.
    pub open spec fn wf(&self) -> bool {
        self.public() == x25519_public_key(self.secret())
    }

    /// The public key bytes.
    pub fn public_key_bytes(&self) -> (r: [u8; 32])
        ensures
            r@ == self.public(),
    {
        self.public
    }

    /// The secret key bytes (for signing, not for the network).
    pub fn secret_key_bytes(&self) -> (r: [u8; 32])
        ensures
            r@ == self.secret(),
    {
        zeroizing_read(&self.secret)
    }

    /// The shared secret with a peer's public key.
    pub fn shared_secret(&self, peer_public: &[u8; 32]) -> (r: Result<[u8; 32], Error>)
        ensures
            r matches Ok(s) && s@ == x25519_shared_secret(self.secret(), peer_public@),
    {
        let secret = zeroizing_read(&self.secret);
        Ok(x25519_diffie_hellman(secret, *peer_public))
    }
}

/// Cryptographic operations.
pub struct Crypto;

impl Crypto {
    /// A new X25519 key pair from a random secret.
    pub fn generate_keypair() -> (r: KeyPair)
        ensures
            r.wf(),
    {
        let mut secret_bytes: Vec<u8> = vec![0u8; 32];
        fill_random(&mut secret_bytes);
        let secret = to_array32(secret_bytes.as_slice());
        let public = x25519_public(secret);
        KeyPair { secret: zeroizing_new(secret), public }
    }

    /// `len` random bytes.
    pub fn random_bytes(len: usize) -> (r: Vec<u8>)
        ensures
            r@.len() == len,
    {
        let mut buf: Vec<u8> = vec![0u8; len];
        fill_random(&mut buf);
        buf
    }

    /// The BLAKE3 hash of `data`.
    pub fn blake3(data: &[u8]) -> (r: [u8; 32])
        ensures
            r@ == blake3_hash(data@),
    {
        blake3_digest(data)
    }

    /// Whether `expected` is the BLAKE3 hash of `data`. All 32 bytes are
    /// compared, whatever the first difference, so the time taken does not
    /// tell where the hashes differ.
    pub fn verify_blake3(data: &[u8], expected: &[u8; 32]) -> (r: bool)
        ensures
            r == (blake3_hash(data@) == expected@),
    {
        let hash = Self::blake3(data);
        let mut diff: u8 = 0;
        let mut i: usize = 0;
        while i < 32
            invariant
                i <= 32,
                hash@ == blake3_hash(data@),
                (diff == 0) <==> (forall|j: int| 0 <= j < i ==> hash@[j] == expected@[j]),
            decreases 32 - i,
        {
            let a = hash[i];
            let b = expected[i];
            let d = diff;
            assert(((d | (a ^ b)) == 0) <==> (d == 0 && a == b)) by (bit_vector);
            diff = diff | (a ^ b);
            i = i + 1;
        }
        if diff == 0 {
            assert(hash@ =~= expected@);
            true
        } else {
            false
        }
    }

    /// A hasher for incremental BLAKE3 hashing, fed nothing yet.
    pub fn blake3_hasher() -> (r: blake3::Hasher)
        ensures
            hasher_input(r) == Seq::<u8>::empty(),
    {
        hasher_new()
    }
}

} // verus!
