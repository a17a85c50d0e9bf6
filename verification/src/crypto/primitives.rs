//! The calls into the cryptographic crates that more than one module makes.

use chacha20poly1305::aead::rand_core::RngCore;
use chacha20poly1305::aead::OsRng;
use ed25519_dalek::{Signature, Signer, SigningKey, Verifier, VerifyingKey};
use hkdf::Hkdf;
use sha2::Sha256;
use vstd::prelude::*;
use zeroize::Zeroize;

verus! {

broadcast use vstd::array::group_array_axioms;

/// The 32 bytes that HKDF-SHA256 expands from `ikm` without salt under `info`.
pub uninterp spec fn hkdf_sha256(ikm: Seq<u8>, info: Seq<u8>) -> Seq<u8>;

/// `hkdf::Hkdf::<Sha256>::new(None, ikm).expand(info, ..)` into 32 bytes.
///
/// `expand` fails only for outputs longer than 255 hash lengths, so a 32-byte
/// output always succeeds. The bytes are a function of the two inputs, named
/// [`hkdf_sha256`].
#[verifier::external_body]
pub(crate) fn hkdf_expand(ikm: &[u8], info: &[u8]) -> (okm: [u8; 32])
    ensures
        okm@ == hkdf_sha256(ikm@, info@),
{
    let mut okm = [0u8; 32];
    Hkdf::<Sha256>::new(None, ikm)
        .expand(info, &mut okm)
        .expect("a 32-byte output is within the HKDF limit");
    okm
}

/// `OsRng.fill_bytes` on a buffer of `len` bytes. The operating system draws
/// the bytes: nothing but their number is known of them.
#[verifier::external_body]
pub(crate) fn os_random(len: usize) -> (bytes: Vec<u8>)
    requires
        len <= isize::MAX,
    ensures
        bytes@.len() == len,
{
    let mut bytes = vec![0u8; len];
    OsRng.fill_bytes(&mut bytes);
    bytes
}

/// `Zeroize::zeroize` on a 32-byte array: every byte becomes zero.
#[verifier::external_body]
pub(crate) fn wipe(bytes: &mut [u8; 32])
    ensures
        forall|i: int| 0 <= i < 32 ==> final(bytes)@[i] == 0,
    opens_invariants none
    no_unwind
{
    bytes.zeroize();
}

/// `Zeroize::zeroize` on a vector of bytes: wipes and empties it.
#[verifier::external_body]
pub(crate) fn wipe_vec(bytes: &mut Vec<u8>)
    ensures
        final(bytes)@.len() == 0,
{
    bytes.zeroize();
}

/// 32 secret bytes that are wiped when they go out of scope.
pub struct SecretBytes {
    bytes: [u8; 32],
}

impl View for SecretBytes {
    type V = Seq<u8>;

    closed spec fn view(&self) -> Seq<u8> {
        self.bytes@
    }
}

impl SecretBytes {
    /// Take charge of `bytes`.
    pub fn new(bytes: [u8; 32]) -> (secret: Self)
        ensures
            secret@ == bytes@,
    {
        SecretBytes { bytes }
    }

    /// The bytes.
    pub fn as_bytes(&self) -> (bytes: &[u8; 32])
        ensures
            bytes@ == self@,
    {
        &self.bytes
    }
}

impl Drop for SecretBytes {
    fn drop(&mut self)
        opens_invariants none
        no_unwind
    {
        wipe(&mut self.bytes);
    }
}

/// The bytes of `bytes` as a 32-byte array.
pub fn array_32(bytes: &[u8]) -> (a: [u8; 32])
    requires
        bytes@.len() == 32,
    ensures
        a@ == bytes@,
{
    let mut a = [0u8; 32];
    let mut i: usize = 0;
    while i < 32
        invariant
            i <= 32,
            bytes@.len() == 32,
            forall|j: int| 0 <= j < i ==> a@[j] == bytes@[j],
        decreases 32 - i,
    {
        a[i] = bytes[i];
        i = i + 1;
    }
    assert(a@ =~= bytes@);
    a
}

/// The bytes of `bytes` as a 64-byte array.
pub fn array_64(bytes: &[u8]) -> (a: [u8; 64])
    requires
        bytes@.len() == 64,
    ensures
        a@ == bytes@,
{
    let mut a = [0u8; 64];
    let mut i: usize = 0;
    while i < 64
        invariant
            i <= 64,
            bytes@.len() == 64,
            forall|j: int| 0 <= j < i ==> a@[j] == bytes@[j],
        decreases 64 - i,
    {
        a[i] = bytes[i];
        i = i + 1;
    }
    assert(a@ =~= bytes@);
    a
}

/// 32 fresh random bytes.
pub fn random_32() -> (a: [u8; 32])
    ensures
        a@.len() == 32,
{
    let bytes = os_random(32);
    array_32(bytes.as_slice())
}

/// The Ed25519 public key of a 32-byte secret seed.
pub uninterp spec fn ed25519_public(seed: Seq<u8>) -> Seq<u8>;

/// The Ed25519 signature of `message` under a 32-byte secret seed.
pub uninterp spec fn ed25519_signature(seed: Seq<u8>, message: Seq<u8>) -> Seq<u8>;

/// Whether 32 bytes decode to an Ed25519 public key.
pub uninterp spec fn ed25519_is_key(key: Seq<u8>) -> bool;

/// Whether `signature` is a valid Ed25519 signature of `message` for `key`.
pub uninterp spec fn ed25519_verifies(key: Seq<u8>, message: Seq<u8>, signature: Seq<u8>) -> bool;

/// `SigningKey::from_bytes(seed).verifying_key().to_bytes()`: a function of the
/// seed, and always the encoding of a key.
#[verifier::external_body]
pub(crate) fn ed25519_public_of(seed: &[u8; 32]) -> (key: [u8; 32])
    ensures
        key@ == ed25519_public(seed@),
        ed25519_is_key(key@),
{
    SigningKey::from_bytes(seed).verifying_key().to_bytes()
}

/// `SigningKey::sign`. Ed25519 signing is deterministic, and the signature
/// verifies under the public key of the same seed.
#[verifier::external_body]
pub(crate) fn ed25519_sign(seed: &[u8; 32], message: &[u8]) -> (signature: [u8; 64])
    ensures
        signature@ == ed25519_signature(seed@, message@),
        ed25519_verifies(ed25519_public(seed@), message@, signature@),
{
    SigningKey::from_bytes(seed).sign(message).to_bytes()
}

/// `VerifyingKey::from_bytes`: fails exactly on the bytes that do not decode.
/// The error is handed on as its `Display` text, which is a constant.
#[verifier::external_body]
pub(crate) fn ed25519_key_fault(key: &[u8; 32]) -> (fault: Option<String>)
    ensures
        fault is None == ed25519_is_key(key@),
        fault is Some ==> fault->0@ == "signature error: Cannot decompress Edwards point"@,
{
    VerifyingKey::from_bytes(key).err().map(|error| error.to_string())
}

/// `Verifier::verify` of `VerifyingKey`, on a key that decodes.
#[verifier::external_body]
pub(crate) fn ed25519_verify(key: &[u8; 32], message: &[u8], signature: &[u8; 64]) -> (valid: bool)
    requires
        ed25519_is_key(key@),
    ensures
        valid == ed25519_verifies(key@, message@, signature@),
{
    let key = VerifyingKey::from_bytes(key).expect("the key decodes");
    key.verify(message, &Signature::from_bytes(signature)).is_ok()
}

} // verus!
