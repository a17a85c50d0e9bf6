//! Cryptographic primitives for device authentication and key exchange:
//! Ed25519 identities, x25519 key exchange, sealed channels, password
//! authenticated agreement, nonce challenges and the post-quantum hybrids.

pub mod challenge;
pub mod error;
pub mod handshake;
pub mod hybrid;
pub mod identity;
pub mod pake;
pub mod pq_identity;
pub mod pq_kem;
pub mod primitives;
pub mod sealed;
pub mod session_keys;

pub use error::{CryptoError, CryptoResult};
