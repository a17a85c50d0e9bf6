//! Hybrid classical and post-quantum key exchange and signatures.
//!
//! Combines Ed25519 and ML-DSA-65 signatures, and x25519 and ML-KEM-768 key
//! exchange, for forward secrecy against future quantum adversaries.

use vstd::prelude::*;
use vstd::string::*;

use super::error::{CryptoError, CryptoResult};
use super::identity::{DeviceIdentity, Signature, VerifyingKey};
use super::pq_identity;
use super::pq_identity::{PqIdentity, PqSignature, PqVerifyingKey};
use super::pq_kem::PqSharedSecret;
use super::primitives;
use super::primitives::{hkdf_expand, wipe, wipe_vec};
use super::session_keys::DerivedSessionKey;

verus! {

broadcast use vstd::array::group_array_axioms;

/// A 32-byte shared secret derived from both classical x25519 and post-quantum ML-KEM-768.
pub struct HybridSharedSecret {
    bytes: [u8; 32],
}

impl View for HybridSharedSecret {
    type V = Seq<u8>;

    closed spec fn view(&self) -> Seq<u8> {
        self.bytes@
    }
}

/// The secret derived from a classical and a post-quantum one.
pub open spec fn hybrid_secret(classical: Seq<u8>, pq: Seq<u8>) -> Seq<u8> {
    primitives::hkdf_sha256(classical + pq, "rivetlink-hybrid-kex-v1".spec_bytes())
}

impl HybridSharedSecret {
    /// Derives a hybrid shared secret from classical and post-quantum components using HKDF-SHA256.
    pub fn derive(classical: &DerivedSessionKey, pq: &PqSharedSecret) -> (r: CryptoResult<Self>)
        ensures
            r is Ok,
            r->Ok_0@ == hybrid_secret(classical@, pq@),
    {
        let mut ikm: Vec<u8> = Vec::with_capacity(64);
        ikm.extend_from_slice(classical.as_bytes());
        ikm.extend_from_slice(pq.as_bytes());
        assert(ikm@ =~= classical@ + pq@);
        let bytes = hkdf_expand(ikm.as_slice(), "rivetlink-hybrid-kex-v1".as_bytes());
        wipe_vec(&mut ikm);
        Ok(HybridSharedSecret { bytes })
    }

    /// Returns a reference to the 32-byte hybrid shared secret.
    pub fn as_bytes(&self) -> (bytes: &[u8; 32])
        ensures
            bytes@ == self@,
    {
        &self.bytes
    }
}

impl Drop for HybridSharedSecret {
    fn drop(&mut self)
        opens_invariants none
        no_unwind
    {
        wipe(&mut self.bytes);
    }
}

/// A hybrid signature containing both Ed25519 and ML-DSA-65 components.
pub struct HybridSignature {
    /// Ed25519 classical signature.
    pub ed25519: Signature,
    /// ML-DSA-65 post-quantum signature.
    pub ml_dsa: PqSignature,
}

/// A hybrid device identity combining Ed25519 and ML-DSA-65 for dual authentication.
pub struct HybridIdentity {
    classical: DeviceIdentity,
    pq: PqIdentity,
}

impl HybridIdentity {
    /// The seed of the classical half.
    pub closed spec fn classical_seed(&self) -> Seq<u8> {
        self.classical@
    }

    /// The seed of the post-quantum half.
    pub closed spec fn pq_seed(&self) -> Seq<u8> {
        self.pq@
    }

    /// Generates a new random hybrid identity with both classical and post-quantum components.
    pub fn generate() -> (identity: Self)
        ensures
            identity.classical_seed().len() == 32,
            identity.pq_seed().len() == 32,
    {
        HybridIdentity { classical: DeviceIdentity::generate(), pq: PqIdentity::generate() }
    }

    /// Signs a message with both Ed25519 and ML-DSA-65 keys.
    pub fn sign(&self, message: &[u8]) -> (signature: HybridSignature)
        requires
            pq_identity::ml_dsa_signature(self.pq_seed(), message@) is Some,
        ensures
            signature.ed25519@ == primitives::ed25519_signature(self.classical_seed(), message@),
            Some(signature.ml_dsa@) == pq_identity::ml_dsa_signature(self.pq_seed(), message@),
            hybrid_verifies(
                primitives::ed25519_public(self.classical_seed()),
                pq_identity::ml_dsa_public(self.pq_seed()),
                message@,
                signature.ed25519@,
                signature.ml_dsa@,
            ) is Ok,
    {
        HybridSignature { ed25519: self.classical.sign(message), ml_dsa: self.pq.sign(message) }
    }

    /// Signs a message with both keys, or gives `None` where ML-DSA finds no
    /// signature.
    pub fn try_sign(&self, message: &[u8]) -> (signature: Option<HybridSignature>)
        ensures
            signature is Some == pq_identity::ml_dsa_signature(self.pq_seed(), message@) is Some,
            signature matches Some(s) ==> {
                &&& s.ed25519@ == primitives::ed25519_signature(self.classical_seed(), message@)
                &&& Some(s.ml_dsa@) == pq_identity::ml_dsa_signature(self.pq_seed(), message@)
                &&& hybrid_verifies(
                    primitives::ed25519_public(self.classical_seed()),
                    pq_identity::ml_dsa_public(self.pq_seed()),
                    message@,
                    s.ed25519@,
                    s.ml_dsa@,
                ) is Ok
            },
    {
        match self.pq.try_sign(message) {
            Some(_) => Some(self.sign(message)),
            None => None,
        }
    }

    /// Returns the Ed25519 public key.
    pub fn ed25519_public_key(&self) -> (key: VerifyingKey)
        ensures
            key@ == primitives::ed25519_public(self.classical_seed()),
    {
        self.classical.public_key()
    }

    /// Returns the ML-DSA-65 verifying key.
    pub fn ml_dsa_verifying_key(&self) -> (key: PqVerifyingKey)
        ensures
            key@ == pq_identity::ml_dsa_public(self.pq_seed()),
    {
        self.pq.verifying_key()
    }

    /// Verifies a hybrid signature against both classical and post-quantum public keys.
    pub fn verify_hybrid(
        ed25519_key: &VerifyingKey,
        ml_dsa_key: &PqVerifyingKey,
        message: &[u8],
        signature: &HybridSignature,
    ) -> (r: CryptoResult<()>)
        ensures
            r == hybrid_verifies(
                ed25519_key@,
                ml_dsa_key@,
                message@,
                signature.ed25519@,
                signature.ml_dsa@,
            ),
    {
        match DeviceIdentity::verify(ed25519_key, message, &signature.ed25519) {
            Ok(()) => PqIdentity::verify(ml_dsa_key, message, &signature.ml_dsa),
            Err(e) => Err(e),
        }
    }
}

/// What verifying a hybrid signature gives: both halves must be valid, and the
/// classical one is judged first.
pub open spec fn hybrid_verifies(
    ed25519_key: Seq<u8>,
    ml_dsa_key: Seq<u8>,
    message: Seq<u8>,
    ed25519: Seq<u8>,
    ml_dsa: Seq<u8>,
) -> CryptoResult<()> {
    if !primitives::ed25519_verifies(ed25519_key, message, ed25519) {
        Err(CryptoError::InvalidSignature)
    } else if !pq_identity::ml_dsa_verifies(ml_dsa_key, message, ml_dsa) {
        Err(CryptoError::InvalidPqSignature)
    } else {
        Ok(())
    }
}

/// Both signatures are required: a hybrid signature is valid exactly when each
/// half is valid on its own.
pub proof fn both_halves_required(
    ed25519_key: Seq<u8>,
    ml_dsa_key: Seq<u8>,
    message: Seq<u8>,
    ed25519: Seq<u8>,
    ml_dsa: Seq<u8>,
)
    ensures
        hybrid_verifies(ed25519_key, ml_dsa_key, message, ed25519, ml_dsa) is Ok <==> (
        primitives::ed25519_verifies(ed25519_key, message, ed25519)
            && pq_identity::ml_dsa_verifies(ml_dsa_key, message, ml_dsa)),
{
}

/// Supported cryptographic suites.
#[derive(Debug, Clone, Copy, PartialEq, Eq, Structural)]
pub enum CryptoSuite {
    /// Classical Ed25519 and x25519 only.
    Classical,
    /// Hybrid classical and post-quantum (Ed25519+ML-DSA-65, x25519+ML-KEM-768).
    Hybrid,
}

/// A hybrid secret is derived from both halves, the classical one first, under the label
/// of this protocol.
pub proof fn hybrid_secrets_hold_both_halves(classical: Seq<u8>, pq: Seq<u8>)
    ensures
        hybrid_secret(classical, pq) == primitives::hkdf_sha256(
            classical + pq,
            "rivetlink-hybrid-kex-v1".spec_bytes(),
        ),
{
}

/// A failure names the half that failed; where both do, it names the classical one.
pub proof fn failures_name_their_half(
    ed25519_key: Seq<u8>,
    ml_dsa_key: Seq<u8>,
    message: Seq<u8>,
    ed25519: Seq<u8>,
    ml_dsa: Seq<u8>,
)
    ensures
        !primitives::ed25519_verifies(ed25519_key, message, ed25519) <==> hybrid_verifies(
            ed25519_key,
            ml_dsa_key,
            message,
            ed25519,
            ml_dsa,
        ) == Err::<(), CryptoError>(CryptoError::InvalidSignature),
        primitives::ed25519_verifies(ed25519_key, message, ed25519)
            && !pq_identity::ml_dsa_verifies(ml_dsa_key, message, ml_dsa) <==> hybrid_verifies(
            ed25519_key,
            ml_dsa_key,
            message,
            ed25519,
            ml_dsa,
        ) == Err::<(), CryptoError>(CryptoError::InvalidPqSignature),
{
}

} // verus!
