//! ML-DSA-65 post-quantum digital signatures (FIPS 204).

use ml_dsa::signature::{Keypair, Signer, Verifier};
use ml_dsa::{KeyExport, MlDsa65, Signature, SigningKey, VerifyingKey};
use vstd::prelude::*;

use super::error::{CryptoError, CryptoResult};
use super::primitives::{random_32, SecretBytes};

verus! {

broadcast use vstd::array::group_array_axioms;

/// Bytes of an ML-DSA-65 verifying key.
pub const VERIFYING_KEY_LEN: usize = 1952;

/// Bytes of an ML-DSA-65 signature.
pub const SIGNATURE_LEN: usize = 3309;

/// The ML-DSA-65 verifying key of a 32-byte seed.
pub uninterp spec fn ml_dsa_public(seed: Seq<u8>) -> Seq<u8>;

/// The deterministic ML-DSA-65 signature of `message` under a seed, or `None`
/// where the bounded rejection sampling finds none.
pub uninterp spec fn ml_dsa_signature(seed: Seq<u8>, message: Seq<u8>) -> Option<Seq<u8>>;

/// Whether `signature` decodes and is valid for `key` and `message`.
pub uninterp spec fn ml_dsa_verifies(key: Seq<u8>, message: Seq<u8>, signature: Seq<u8>) -> bool;

/// `SigningKey::from_seed` and `verifying_key`: a function of the seed, of
/// fixed length.
#[verifier::external_body]
fn ml_dsa_public_of(seed: &[u8; 32]) -> (key: Vec<u8>)
    ensures
        key@ == ml_dsa_public(seed@),
        key@.len() == VERIFYING_KEY_LEN,
{
    SigningKey::<MlDsa65>::from_seed(&(*seed).into()).verifying_key().to_bytes().to_vec()
}

/// `Signer::try_sign`, which is the deterministic variant with an empty context:
/// a function of the seed and the message, of fixed length. A signature verifies
/// under the key of the same seed.
#[verifier::external_body]
fn ml_dsa_sign(seed: &[u8; 32], message: &[u8]) -> (signature: Option<Vec<u8>>)
    ensures
        signature is Some == ml_dsa_signature(seed@, message@) is Some,
        signature is Some ==> signature->0@ == ml_dsa_signature(seed@, message@)->0,
        signature is Some ==> signature->0@.len() == SIGNATURE_LEN,
        signature is Some ==> ml_dsa_verifies(ml_dsa_public(seed@), message@, signature->0@),
{
    let key = SigningKey::<MlDsa65>::from_seed(&(*seed).into());
    key.try_sign(message).ok().map(|signature| signature.encode().to_vec())
}

/// `Signature::try_from` and `Verifier::verify`, on bytes of the fixed lengths.
#[verifier::external_body]
fn ml_dsa_verify(key: &[u8], message: &[u8], signature: &[u8]) -> (valid: bool)
    requires
        key@.len() == VERIFYING_KEY_LEN,
        signature@.len() == SIGNATURE_LEN,
    ensures
        valid == ml_dsa_verifies(key@, message@, signature@),
{
    let key = VerifyingKey::<MlDsa65>::decode(&key.try_into().expect("the length of a key"));
    match Signature::<MlDsa65>::try_from(signature) {
        Ok(signature) => key.verify(message, &signature).is_ok(),
        Err(_) => false,
    }
}

/// A post-quantum identity based on ML-DSA-65 signing and verification, held as
/// its seed.
pub struct PqIdentity {
    seed: SecretBytes,
}

/// An ML-DSA-65 verifying key.
pub struct PqVerifyingKey {
    bytes: Vec<u8>,
}

/// An ML-DSA-65 signature.
pub struct PqSignature {
    bytes: Vec<u8>,
}

impl View for PqIdentity {
    type V = Seq<u8>;

    closed spec fn view(&self) -> Seq<u8> {
        self.seed@
    }
}

impl View for PqVerifyingKey {
    type V = Seq<u8>;

    closed spec fn view(&self) -> Seq<u8> {
        self.bytes@
    }
}

impl View for PqSignature {
    type V = Seq<u8>;

    closed spec fn view(&self) -> Seq<u8> {
        self.bytes@
    }
}

impl PqVerifyingKey {
    #[verifier::type_invariant]
    spec fn whole(self) -> bool {
        self.bytes@.len() == VERIFYING_KEY_LEN
    }
}

impl PqSignature {
    #[verifier::type_invariant]
    spec fn whole(self) -> bool {
        self.bytes@.len() == SIGNATURE_LEN
    }
}

impl PqIdentity {
    /// Generates a new random ML-DSA-65 post-quantum identity.
    pub fn generate() -> (identity: Self)
        ensures
            identity@.len() == 32,
    {
        PqIdentity { seed: SecretBytes::new(random_32()) }
    }

    /// Derives an ML-DSA-65 identity from a fixed 32-byte seed for deterministic key generation.
    pub fn from_seed(seed: &[u8; 32]) -> (identity: Self)
        ensures
            identity@ == seed@,
    {
        PqIdentity { seed: SecretBytes::new(*seed) }
    }

    /// Returns the verifying key for this post-quantum identity.
    pub fn verifying_key(&self) -> (key: PqVerifyingKey)
        ensures
            key@ == ml_dsa_public(self@),
    {
        PqVerifyingKey { bytes: ml_dsa_public_of(self.seed.as_bytes()) }
    }

    /// Signs a message with this identity's ML-DSA-65 private key.
    pub fn sign(&self, message: &[u8]) -> (signature: PqSignature)
        requires
            ml_dsa_signature(self@, message@) is Some,
        ensures
            Some(signature@) == ml_dsa_signature(self@, message@),
            ml_dsa_verifies(ml_dsa_public(self@), message@, signature@),
    {
        let signature = ml_dsa_sign(self.seed.as_bytes(), message);
        PqSignature { bytes: signature.unwrap() }
    }

    /// Signs a message, or gives `None` where the bounded rejection sampling of
    /// ML-DSA finds no signature.
    pub fn try_sign(&self, message: &[u8]) -> (signature: Option<PqSignature>)
        ensures
            signature is Some == ml_dsa_signature(self@, message@) is Some,
            signature is Some ==> Some(signature->0@) == ml_dsa_signature(self@, message@),
            signature is Some ==> ml_dsa_verifies(
                ml_dsa_public(self@),
                message@,
                signature->0@,
            ),
    {
        match ml_dsa_sign(self.seed.as_bytes(), message) {
            Some(_) => Some(self.sign(message)),
            None => None,
        }
    }

    /// Verifies a post-quantum signature using the provided verifying key.
    pub fn verify(
        verifying_key: &PqVerifyingKey,
        message: &[u8],
        signature: &PqSignature,
    ) -> (r: CryptoResult<()>)
        ensures
            r == (if ml_dsa_verifies(verifying_key@, message@, signature@) {
                Ok(())
            } else {
                Err(CryptoError::InvalidPqSignature)
            }),
    {
        proof {
            use_type_invariant(verifying_key);
            use_type_invariant(signature);
        }
        if ml_dsa_verify(verifying_key.bytes.as_slice(), message, signature.bytes.as_slice()) {
            Ok(())
        } else {
            Err(CryptoError::InvalidPqSignature)
        }
    }
}

} // verus!
