//! Cryptographic error types.

use vstd::prelude::*;
use vstd::string::*;

use crate::text::joined;

verus! {

/// Errors that can occur during cryptographic operations.
#[derive(Debug)]
pub enum CryptoError {
    /// A signature verification failed.
    InvalidSignature,
    /// A nonce or challenge has expired (typically more than 30 seconds old).
    NonceExpired,
    /// A nonce has already been used in a prior operation.
    NonceReused,
    /// A public key is not authorized or recognized.
    UntrustedKey,
    /// Key generation failed with the provided error message.
    KeyGeneration(String),
    /// Encryption operation failed with the provided error message.
    Encryption(String),
    /// Decryption operation failed with the provided error message.
    Decryption(String),
    /// Post-quantum key encapsulation (ML-KEM) failed.
    PqEncapsulation,
    /// Post-quantum key decapsulation (ML-KEM) failed.
    PqDecapsulation,
    /// Hybrid key derivation failed.
    HybridKeyDerivation,
    /// A post-quantum signature (ML-DSA) verification failed.
    InvalidPqSignature,
    /// The requested cryptographic suite is not supported.
    UnsupportedSuite(String),
    /// Password-authenticated key agreement (PAKE) failed. Deliberately gives
    /// no detail (wrong password vs malformed message) to avoid an oracle.
    PakeFailed,
}

/// Convenience type alias for cryptographic operation results.
pub type CryptoResult<T> = Result<T, CryptoError>;

impl CryptoError {
    /// The text shown to a user.
    pub open spec fn text(&self) -> Seq<char> {
        match self {
            CryptoError::InvalidSignature => "invalid signature"@,
            CryptoError::NonceExpired => "nonce expired"@,
            CryptoError::NonceReused => "nonce already used"@,
            CryptoError::UntrustedKey => "untrusted public key"@,
            CryptoError::KeyGeneration(m) => "key generation failed: "@ + m@,
            CryptoError::Encryption(m) => "encryption failed: "@ + m@,
            CryptoError::Decryption(m) => "decryption failed: "@ + m@,
            CryptoError::PqEncapsulation => "post-quantum key encapsulation failed"@,
            CryptoError::PqDecapsulation => "post-quantum decapsulation failed"@,
            CryptoError::HybridKeyDerivation => "hybrid key derivation failed"@,
            CryptoError::InvalidPqSignature => "invalid post-quantum signature"@,
            CryptoError::UnsupportedSuite(m) => "crypto suite not supported: "@ + m@,
            CryptoError::PakeFailed => "password authentication failed"@,
        }
    }

    /// The text shown to a user.
    pub fn to_string(&self) -> (s: String)
        ensures
            s@ == self.text(),
    {
        match self {
            CryptoError::InvalidSignature => "invalid signature".to_owned(),
            CryptoError::NonceExpired => "nonce expired".to_owned(),
            CryptoError::NonceReused => "nonce already used".to_owned(),
            CryptoError::UntrustedKey => "untrusted public key".to_owned(),
            CryptoError::KeyGeneration(m) => joined("key generation failed: ", m.as_str()),
            CryptoError::Encryption(m) => joined("encryption failed: ", m.as_str()),
            CryptoError::Decryption(m) => joined("decryption failed: ", m.as_str()),
            CryptoError::PqEncapsulation => "post-quantum key encapsulation failed".to_owned(),
            CryptoError::PqDecapsulation => "post-quantum decapsulation failed".to_owned(),
            CryptoError::HybridKeyDerivation => "hybrid key derivation failed".to_owned(),
            CryptoError::InvalidPqSignature => "invalid post-quantum signature".to_owned(),
            CryptoError::UnsupportedSuite(m) => joined("crypto suite not supported: ", m.as_str()),
            CryptoError::PakeFailed => "password authentication failed".to_owned(),
        }
    }
}

/// An error says what failed, and where there is more to say, says it in the words that
/// it was made with.
pub proof fn errors_say_what_failed(message: String)
    ensures
        CryptoError::InvalidSignature.text() == "invalid signature"@,
        CryptoError::NonceExpired.text() == "nonce expired"@,
        CryptoError::NonceReused.text() == "nonce already used"@,
        CryptoError::UntrustedKey.text() == "untrusted public key"@,
        CryptoError::KeyGeneration(message).text() == "key generation failed: "@ + message@,
        CryptoError::Encryption(message).text() == "encryption failed: "@ + message@,
        CryptoError::Decryption(message).text() == "decryption failed: "@ + message@,
        CryptoError::PqEncapsulation.text() == "post-quantum key encapsulation failed"@,
        CryptoError::PqDecapsulation.text() == "post-quantum decapsulation failed"@,
        CryptoError::HybridKeyDerivation.text() == "hybrid key derivation failed"@,
        CryptoError::InvalidPqSignature.text() == "invalid post-quantum signature"@,
        CryptoError::UnsupportedSuite(message).text() == "crypto suite not supported: "@ + message@,
        CryptoError::PakeFailed.text() == "password authentication failed"@,
{
}

} // verus!
