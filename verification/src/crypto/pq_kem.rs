//! ML-KEM-768 post-quantum key encapsulation mechanism (FIPS 203).

use ml_kem::kem::Decapsulate;
use ml_kem::{DecapsulationKey, Encapsulate, EncapsulationKey, Generate, KeyExport, MlKem768};
use vstd::prelude::*;

use super::primitives::wipe;

verus! {

broadcast use vstd::array::group_array_axioms;

/// Bytes of an ML-KEM-768 encapsulation key.
pub const ENCAPSULATION_KEY_LEN: usize = 1184;

/// Bytes of an ML-KEM-768 ciphertext.
pub const CIPHERTEXT_LEN: usize = 1088;

/// Bytes of an ML-KEM seed.
pub const KEM_SEED_LEN: usize = 64;

/// The encapsulation key of the key pair that a 64-byte seed makes.
pub uninterp spec fn ml_kem_public(seed: Seq<u8>) -> Seq<u8>;

/// The ciphertext and the shared secret that encapsulating for `key` with the
/// 32 random bytes `coins` gives.
pub uninterp spec fn ml_kem_encapsulated(key: Seq<u8>, coins: Seq<u8>) -> (Seq<u8>, Seq<u8>);

/// The shared secret that the key pair of `seed` recovers from `ciphertext`.
pub uninterp spec fn ml_kem_decapsulated(seed: Seq<u8>, ciphertext: Seq<u8>) -> Seq<u8>;

/// `DecapsulationKey::generate` and `to_seed`: the 64 random bytes of a new
/// key pair. Nothing but their number is known of them.
#[verifier::external_body]
fn ml_kem_generate() -> (seed: Vec<u8>)
    ensures
        seed@.len() == KEM_SEED_LEN,
{
    let key = DecapsulationKey::<MlKem768>::generate();
    key.to_seed().expect("a generated key keeps its seed").to_vec()
}

/// `DecapsulationKey::from_seed` and `encapsulation_key`: a function of the
/// seed, of fixed length.
#[verifier::external_body]
fn ml_kem_public_of(seed: &[u8]) -> (key: Vec<u8>)
    requires
        seed@.len() == KEM_SEED_LEN,
    ensures
        key@ == ml_kem_public(seed@),
        key@.len() == ENCAPSULATION_KEY_LEN,
{
    let seed = seed.try_into().expect("the length of a seed");
    DecapsulationKey::<MlKem768>::from_seed(seed).encapsulation_key().to_bytes().to_vec()
}

/// `Encapsulate::encapsulate`, on the encapsulation key of some key pair: draws
/// 32 random bytes, and is a function of the key and of them.
///
/// That the key pair recovers the same secret is not claimed: ML-KEM fails to
/// on a negligible part of the random bytes.
#[verifier::external_body]
fn ml_kem_encapsulate(key: &[u8]) -> (r: (Vec<u8>, [u8; 32]))
    requires
        exists|seed: Seq<u8>| seed.len() == KEM_SEED_LEN && key@ == #[trigger] ml_kem_public(seed),
    ensures
        exists|coins: [u8; 32]| (r.0@, r.1@) == #[trigger] ml_kem_encapsulated(key@, coins@),
        r.0@.len() == CIPHERTEXT_LEN,
{
    let key = key.try_into().expect("the length of a key");
    let key = EncapsulationKey::<MlKem768>::new(&key).expect("the key of a key pair");
    let (ciphertext, shared) = key.encapsulate();
    (ciphertext.to_vec(), shared.into())
}

/// `Decapsulate::decapsulate`: a function of the seed and the ciphertext. It
/// never fails; a foreign ciphertext gives a secret that nobody shares.
#[verifier::external_body]
fn ml_kem_decapsulate(seed: &[u8], ciphertext: &[u8]) -> (shared: [u8; 32])
    requires
        seed@.len() == KEM_SEED_LEN,
        ciphertext@.len() == CIPHERTEXT_LEN,
    ensures
        shared@ == ml_kem_decapsulated(seed@, ciphertext@),
{
    let seed = seed.try_into().expect("the length of a seed");
    let ciphertext = ciphertext.try_into().expect("the length of a ciphertext");
    DecapsulationKey::<MlKem768>::from_seed(seed).decapsulate(&ciphertext).into()
}

/// An ML-KEM-768 key pair for post-quantum key encapsulation, held as its seed.
pub struct PqKeyPair {
    seed: Vec<u8>,
}

/// The public half of a [`PqKeyPair`].
pub struct PqEncapsulationKey {
    bytes: Vec<u8>,
}

/// A secret encapsulated for a [`PqEncapsulationKey`].
pub struct PqCiphertext {
    bytes: Vec<u8>,
}

impl View for PqKeyPair {
    type V = Seq<u8>;

    closed spec fn view(&self) -> Seq<u8> {
        self.seed@
    }
}

impl View for PqEncapsulationKey {
    type V = Seq<u8>;

    closed spec fn view(&self) -> Seq<u8> {
        self.bytes@
    }
}

impl View for PqCiphertext {
    type V = Seq<u8>;

    closed spec fn view(&self) -> Seq<u8> {
        self.bytes@
    }
}

impl PqEncapsulationKey {
    #[verifier::type_invariant]
    spec fn of_some_pair(self) -> bool {
        exists|seed: Seq<u8>|
            seed.len() == KEM_SEED_LEN && self.bytes@ == #[trigger] ml_kem_public(seed)
    }
}

impl PqCiphertext {
    #[verifier::type_invariant]
    spec fn whole(self) -> bool {
        self.bytes@.len() == CIPHERTEXT_LEN
    }

    /// The ciphertext with the given encoding, or `None` if it has another length.
    pub fn from_bytes(bytes: Vec<u8>) -> (ciphertext: Option<PqCiphertext>)
        ensures
            ciphertext is Some == (bytes@.len() == CIPHERTEXT_LEN),
            ciphertext is Some ==> ciphertext->0@ == bytes@,
    {
        if bytes.len() == CIPHERTEXT_LEN {
            Some(PqCiphertext { bytes })
        } else {
            None
        }
    }
}

impl PqKeyPair {
    #[verifier::type_invariant]
    spec fn whole(self) -> bool {
        self.seed@.len() == KEM_SEED_LEN
    }

    /// Generates a new random ML-KEM-768 key pair.
    pub fn generate() -> (pair: Self)
        ensures
            pair@.len() == KEM_SEED_LEN,
    {
        PqKeyPair { seed: ml_kem_generate() }
    }

    /// Returns the public encapsulation key for this key pair.
    pub fn encapsulation_key(&self) -> (key: PqEncapsulationKey)
        ensures
            key@ == ml_kem_public(self@),
    {
        proof {
            use_type_invariant(self);
        }
        PqEncapsulationKey { bytes: ml_kem_public_of(self.seed.as_slice()) }
    }

    /// Decapsulates a ciphertext to recover the shared secret.
    pub fn decapsulate(&self, ciphertext: &PqCiphertext) -> (shared: PqSharedSecret)
        ensures
            shared@ == ml_kem_decapsulated(self@, ciphertext@),
    {
        proof {
            use_type_invariant(self);
            use_type_invariant(ciphertext);
        }
        PqSharedSecret { bytes: ml_kem_decapsulate(self.seed.as_slice(), ciphertext.bytes.as_slice()) }
    }
}

/// Encapsulates a shared secret using the provided public encapsulation key.
pub fn encapsulate(key: &PqEncapsulationKey) -> (r: (PqCiphertext, PqSharedSecret))
    ensures
        exists|coins: [u8; 32]| (r.0@, r.1@) == #[trigger] ml_kem_encapsulated(key@, coins@),
{
    proof {
        use_type_invariant(key);
    }
    let (ciphertext, shared) = ml_kem_encapsulate(key.bytes.as_slice());
    proof {
        let coins = choose|coins: [u8; 32]|
            (ciphertext@, shared@) == #[trigger] ml_kem_encapsulated(key.bytes@, coins@);
        assert((ciphertext@, shared@) == ml_kem_encapsulated(key@, coins@));
    }
    (PqCiphertext { bytes: ciphertext }, PqSharedSecret { bytes: shared })
}

/// A 32-byte post-quantum shared secret from ML-KEM-768.
pub struct PqSharedSecret {
    bytes: [u8; 32],
}

impl View for PqSharedSecret {
    type V = Seq<u8>;

    closed spec fn view(&self) -> Seq<u8> {
        self.bytes@
    }
}

impl PqSharedSecret {
    /// Returns a reference to the 32-byte shared secret.
    pub fn as_bytes(&self) -> (bytes: &[u8; 32])
        ensures
            bytes@ == self@,
    {
        &self.bytes
    }
}

impl Drop for PqSharedSecret {
    fn drop(&mut self)
        opens_invariants none
        no_unwind
    {
        wipe(&mut self.bytes);
    }
}

} // verus!
