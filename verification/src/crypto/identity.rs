//! Ed25519-based device identity for classical authentication.

use vstd::prelude::*;
use vstd::string::*;

use super::primitives;
use super::error::{CryptoError, CryptoResult};
use super::primitives::{
    ed25519_key_fault, ed25519_public_of, ed25519_sign, ed25519_verify, random_32, wipe,
};

verus! {

broadcast use vstd::array::group_array_axioms;

/// A long-term Ed25519 signing key, held as its 32-byte seed.
pub struct SigningKey {
    seed: [u8; 32],
}

/// An Ed25519 public key. Every value decodes to a curve point.
pub struct VerifyingKey {
    bytes: [u8; 32],
}

/// An Ed25519 signature.
#[derive(Clone, Copy)]
pub struct Signature {
    bytes: [u8; 64],
}

impl View for SigningKey {
    type V = Seq<u8>;

    /// The secret seed.
    closed spec fn view(&self) -> Seq<u8> {
        self.seed@
    }
}

impl View for VerifyingKey {
    type V = Seq<u8>;

    /// The encoded key.
    closed spec fn view(&self) -> Seq<u8> {
        self.bytes@
    }
}

impl View for Signature {
    type V = Seq<u8>;

    /// The encoded signature.
    closed spec fn view(&self) -> Seq<u8> {
        self.bytes@
    }
}

impl SigningKey {
    /// The signing key with the given seed.
    pub fn from_bytes(seed: &[u8; 32]) -> (key: SigningKey)
        ensures
            key@ == seed@,
    {
        SigningKey { seed: *seed }
    }

    /// The seed.
    pub fn to_bytes(&self) -> (seed: [u8; 32])
        ensures
            seed@ == self@,
    {
        self.seed
    }

    /// The matching public key.
    pub fn verifying_key(&self) -> (key: VerifyingKey)
        ensures
            key@ == primitives::ed25519_public(self@),
    {
        VerifyingKey { bytes: ed25519_public_of(&self.seed) }
    }

    /// Sign a message.
    pub fn sign(&self, message: &[u8]) -> (signature: Signature)
        ensures
            signature@ == primitives::ed25519_signature(self@, message@),
            primitives::ed25519_verifies(
                primitives::ed25519_public(self@),
                message@,
                signature@,
            ),
    {
        Signature { bytes: ed25519_sign(&self.seed, message) }
    }
}

impl Drop for SigningKey {
    fn drop(&mut self)
        opens_invariants none
        no_unwind
    {
        wipe(&mut self.seed);
    }
}

impl VerifyingKey {
    #[verifier::type_invariant]
    spec fn decodes(self) -> bool {
        primitives::ed25519_is_key(self.bytes@)
    }

    /// The key with the given encoding, or what is wrong with it.
    pub fn from_bytes(bytes: &[u8; 32]) -> (key: Result<VerifyingKey, String>)
        ensures
            key is Ok == primitives::ed25519_is_key(bytes@),
            key matches Ok(k) ==> k@ == bytes@,
            key matches Err(m) ==> m@ == "signature error: Cannot decompress Edwards point"@,
    {
        match ed25519_key_fault(bytes) {
            None => Ok(VerifyingKey { bytes: *bytes }),
            Some(fault) => Err(fault),
        }
    }

    /// The encoding of the key.
    pub fn to_bytes(&self) -> (bytes: [u8; 32])
        ensures
            bytes@ == self@,
            primitives::ed25519_is_key(self@),
    {
        proof {
            use_type_invariant(self);
        }
        self.bytes
    }

    /// Whether `signature` is this key's signature of `message`.
    pub fn verify(&self, message: &[u8], signature: &Signature) -> (valid: bool)
        ensures
            valid == primitives::ed25519_verifies(self@, message@, signature@),
    {
        proof {
            use_type_invariant(self);
        }
        ed25519_verify(&self.bytes, message, &signature.bytes)
    }
}

impl Clone for VerifyingKey {
    fn clone(&self) -> (key: Self)
        ensures
            key@ == self@,
    {
        proof {
            use_type_invariant(self);
        }
        VerifyingKey { bytes: self.bytes }
    }
}

impl Signature {
    /// The signature with the given encoding.
    pub fn from_bytes(bytes: &[u8; 64]) -> (signature: Signature)
        ensures
            signature@ == bytes@,
    {
        Signature { bytes: *bytes }
    }

    /// The encoding of the signature.
    pub fn to_bytes(&self) -> (bytes: [u8; 64])
        ensures
            bytes@ == self@,
    {
        self.bytes
    }
}

/// A device identity based on Ed25519 signing and verification.
pub struct DeviceIdentity {
    signing_key: SigningKey,
}

impl View for DeviceIdentity {
    type V = Seq<u8>;

    /// The secret seed.
    closed spec fn view(&self) -> Seq<u8> {
        self.signing_key@
    }
}

impl DeviceIdentity {
    /// Generates a new random Ed25519 device identity.
    pub fn generate() -> (identity: Self)
        ensures
            identity@.len() == 32,
    {
        DeviceIdentity { signing_key: SigningKey { seed: random_32() } }
    }

    /// Returns the public key for this device identity.
    pub fn public_key(&self) -> (key: VerifyingKey)
        ensures
            key@ == primitives::ed25519_public(self@),
    {
        self.signing_key.verifying_key()
    }

    /// Signs a message with this device's private key.
    pub fn sign(&self, message: &[u8]) -> (signature: Signature)
        ensures
            signature@ == primitives::ed25519_signature(self@, message@),
            primitives::ed25519_verifies(
                primitives::ed25519_public(self@),
                message@,
                signature@,
            ),
    {
        self.signing_key.sign(message)
    }

    /// Verifies a signature using the provided public key.
    pub fn verify(
        public_key: &VerifyingKey,
        message: &[u8],
        signature: &Signature,
    ) -> (r: CryptoResult<()>)
        ensures
            r == (if primitives::ed25519_verifies(public_key@, message@, signature@) {
                Ok(())
            } else {
                Err(CryptoError::InvalidSignature)
            }),
    {
        if public_key.verify(message, signature) {
            Ok(())
        } else {
            Err(CryptoError::InvalidSignature)
        }
    }
}

} // verus!
