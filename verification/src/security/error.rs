//! Errors of the security module.

use vstd::prelude::*;

verus! {

broadcast use vstd::string::to_string_from_display_ensures_for_str;

/// Errors of key handling, certificates and the handshake.
#[derive(Debug)]
pub enum Error {
    KeyGeneration(String),
    InvalidPublicKey(String),
    InvalidSignature(String),
    CertificateExpired,
    CertificateNotYetValid,
    UntrustedCertificate,
    Crypto(String),
    /// A handshake step taken out of turn or with missing state.
    TlsHandshake(String),
    /// A handshake message that cannot be accepted.
    InvalidTlsMessage(String),
}

/// The message of an error.
pub open spec fn error_message(e: Error) -> Seq<char> {
    match e {
        Error::KeyGeneration(m) => "Key generation failed: "@ + m@,
        Error::InvalidPublicKey(m) => "Invalid public key: "@ + m@,
        Error::InvalidSignature(m) => "Invalid signature: "@ + m@,
        Error::CertificateExpired => "Certificate expired"@,
        Error::CertificateNotYetValid => "Certificate not yet valid"@,
        Error::UntrustedCertificate => "Untrusted certificate"@,
        Error::Crypto(m) => "Crypto error: "@ + m@,
        Error::TlsHandshake(m) => "TLS handshake error: "@ + m@,
        Error::InvalidTlsMessage(m) => "Invalid TLS message: "@ + m@,
    }
}

impl Error {
    /// The error's message.
    pub fn to_string(&self) -> (r: String)
        ensures
            r@ == error_message(*self),
    {
        match self {
            Error::KeyGeneration(m) => crate::text::prefixed("Key generation failed: ", m),
            Error::InvalidPublicKey(m) => crate::text::prefixed("Invalid public key: ", m),
            Error::InvalidSignature(m) => crate::text::prefixed("Invalid signature: ", m),
            Error::CertificateExpired => "Certificate expired".to_string(),
            Error::CertificateNotYetValid => "Certificate not yet valid".to_string(),
            Error::UntrustedCertificate => "Untrusted certificate".to_string(),
            Error::Crypto(m) => crate::text::prefixed("Crypto error: ", m),
            Error::TlsHandshake(m) => crate::text::prefixed("TLS handshake error: ", m),
            Error::InvalidTlsMessage(m) => crate::text::prefixed("Invalid TLS message: ", m),
        }
    }
}

} // verus!
