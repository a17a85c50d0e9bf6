//! Authenticated encryption channel over a derived session key.
//!
//! ChaCha20-Poly1305 keyed by HKDF-SHA256 of a 32-byte shared secret. Each
//! [`SealedChannel::seal`] draws a fresh random 96-bit nonce and puts it in
//! front of the ciphertext, so callers never manage nonces themselves.

use chacha20poly1305::aead::{Aead, KeyInit};
use chacha20poly1305::{ChaCha20Poly1305, Key, Nonce};
use vstd::prelude::*;
use vstd::slice::slice_subrange;
use vstd::string::*;

use super::error::{CryptoError, CryptoResult};
use super::primitives;
use super::primitives::{hkdf_expand, os_random, wipe};

verus! {

broadcast use vstd::array::group_array_axioms;

/// Bytes of the nonce in front of each ciphertext.
pub const NONCE_LEN: usize = 12;

/// The ChaCha20-Poly1305 ciphertext and tag of `plaintext`, without associated data.
pub uninterp spec fn aead_sealed(key: Seq<u8>, nonce: Seq<u8>, plaintext: Seq<u8>) -> Seq<u8>;

/// What ChaCha20-Poly1305 decrypts `ciphertext` to, if its tag authenticates.
pub uninterp spec fn aead_opened(key: Seq<u8>, nonce: Seq<u8>, ciphertext: Seq<u8>) -> Option<
    Seq<u8>,
>;

/// The most bytes that one nonce encrypts: a counter block for each 64 of them,
/// and the first of the 2^32 - 1 blocks is for the tag.
pub const MAX_MESSAGE: u64 = 274877906816;

/// Whether ChaCha20-Poly1305 has counter blocks enough for so many bytes.
pub open spec fn aead_fits(len: nat) -> bool {
    len <= MAX_MESSAGE
}

/// `Aead::encrypt` of `ChaCha20Poly1305`, on a message for which there are counter
/// blocks enough: on a slightly longer one it panics. It appends a 16-byte tag,
/// and decrypting under the same key and nonce gives the message back.
#[verifier::external_body]
fn aead_encrypt(key: &[u8; 32], nonce: &[u8], plaintext: &[u8]) -> (sealed: Option<Vec<u8>>)
    requires
        nonce@.len() == 12,
        plaintext@.len() + 16 <= isize::MAX,
        aead_fits(plaintext@.len()),
    ensures
        sealed is Some,
        sealed->0@ == aead_sealed(key@, nonce@, plaintext@),
        sealed->0@.len() == plaintext@.len() + 16,
        aead_opened(key@, nonce@, sealed->0@) == Some(plaintext@),
{
    let cipher = ChaCha20Poly1305::new(Key::from_slice(key));
    cipher.encrypt(Nonce::from_slice(nonce), plaintext).ok()
}

/// `Aead::decrypt` of `ChaCha20Poly1305`, on a ciphertext for which there are
/// counter blocks enough: on a slightly longer one whose tag is right it panics.
/// A function of the key, the nonce and the ciphertext. What it gives is 16 bytes
/// shorter than the ciphertext.
#[verifier::external_body]
fn aead_decrypt(key: &[u8; 32], nonce: &[u8], ciphertext: &[u8]) -> (opened: Option<Vec<u8>>)
    requires
        nonce@.len() == 12,
        ciphertext@.len() <= MAX_MESSAGE + 16,
    ensures
        opened is Some == aead_opened(key@, nonce@, ciphertext@) is Some,
        opened is Some ==> opened->0@ == aead_opened(key@, nonce@, ciphertext@)->0,
        opened is Some ==> opened->0@.len() + 16 == ciphertext@.len(),
{
    let cipher = ChaCha20Poly1305::new(Key::from_slice(key));
    cipher.decrypt(Nonce::from_slice(nonce), ciphertext).ok()
}

/// The AEAD key that a channel over `shared` uses.
pub open spec fn channel_key(shared: Seq<u8>) -> Seq<u8> {
    primitives::hkdf_sha256(shared, "rivetlink-sealed-channel-v1".spec_bytes())
}

/// What a channel with `key` opens `sealed` to.
pub open spec fn opened(key: Seq<u8>, sealed: Seq<u8>) -> Option<Seq<u8>> {
    if sealed.len() < NONCE_LEN || sealed.len() > NONCE_LEN + MAX_MESSAGE + 16 {
        None
    } else {
        aead_opened(
            key,
            sealed.subrange(0, NONCE_LEN as int),
            sealed.subrange(NONCE_LEN as int, sealed.len() as int),
        )
    }
}

/// Whether `sealed` is `plaintext` encrypted under `key` with the nonce in front.
pub open spec fn is_sealing(key: Seq<u8>, plaintext: Seq<u8>, sealed: Seq<u8>) -> bool {
    &&& sealed.len() == NONCE_LEN + plaintext.len() + 16
    &&& sealed.subrange(NONCE_LEN as int, sealed.len() as int) == aead_sealed(
        key,
        sealed.subrange(0, NONCE_LEN as int),
        plaintext,
    )
}

/// A symmetric AEAD channel keyed by a derived session secret.
pub struct SealedChannel {
    key: [u8; 32],
}

impl View for SealedChannel {
    type V = Seq<u8>;

    /// The AEAD key.
    closed spec fn view(&self) -> Seq<u8> {
        self.key@
    }
}

impl SealedChannel {
    /// Derive an AEAD key from a raw 32-byte ECDH shared secret via HKDF-SHA256.
    ///
    /// Both peers must call this with the same shared secret to interoperate.
    pub fn from_shared_secret(shared: &[u8; 32]) -> (channel: Self)
        ensures
            channel@ == channel_key(shared@),
    {
        SealedChannel { key: hkdf_expand(shared, "rivetlink-sealed-channel-v1".as_bytes()) }
    }

    /// Encrypt `plaintext`, returning `nonce || ciphertext`. Whoever holds the
    /// same key opens it to `plaintext` again.
    pub fn seal(&self, plaintext: &[u8]) -> (r: CryptoResult<Vec<u8>>)
        requires
            plaintext@.len() + NONCE_LEN + 16 <= isize::MAX,
        ensures
            r is Ok == aead_fits(plaintext@.len()),
            r matches Ok(sealed) ==> {
                &&& is_sealing(self@, plaintext@, sealed@)
                &&& opened(self@, sealed@) == Some(plaintext@)
            },
            r matches Err(e) ==> (e matches CryptoError::Encryption(m) && m@ == "aead::Error"@),
    {
        if plaintext.len() as u64 > MAX_MESSAGE {
            return Err(CryptoError::Encryption("aead::Error".to_owned()));
        }
        let mut out = os_random(NONCE_LEN);
        match aead_encrypt(&self.key, out.as_slice(), plaintext) {
            Some(ciphertext) => {
                let ghost nonce = out@;
                let mut ciphertext = ciphertext;
                let ghost body = ciphertext@;
                out.append(&mut ciphertext);
                proof {
                    assert(out@.subrange(0, NONCE_LEN as int) =~= nonce);
                    assert(out@.subrange(NONCE_LEN as int, out@.len() as int) =~= body);
                }
                Ok(out)
            },
            None => Err(CryptoError::Encryption("aead::Error".to_owned())),
        }
    }

    /// Decrypt a `nonce || ciphertext` blob produced by [`SealedChannel::seal`].
    pub fn open(&self, sealed: &[u8]) -> (r: CryptoResult<Vec<u8>>)
        ensures
            r is Ok == opened(self@, sealed@) is Some,
            r matches Ok(plaintext) ==> {
                &&& Some(plaintext@) == opened(self@, sealed@)
                &&& sealed@.len() == NONCE_LEN + plaintext@.len() + 16
            },
            r matches Err(e) ==> (e matches CryptoError::Decryption(m) && m@ == (
            if sealed@.len() < NONCE_LEN {
                "sealed message too short"@
            } else {
                "aead::Error"@
            })),
    {
        if sealed.len() < NONCE_LEN {
            return Err(CryptoError::Decryption("sealed message too short".to_owned()));
        }
        if (sealed.len() - NONCE_LEN) as u64 > MAX_MESSAGE + 16 {
            return Err(CryptoError::Decryption("aead::Error".to_owned()));
        }
        let nonce = slice_subrange(sealed, 0, NONCE_LEN);
        let ciphertext = slice_subrange(sealed, NONCE_LEN, sealed.len());
        match aead_decrypt(&self.key, nonce, ciphertext) {
            Some(plaintext) => Ok(plaintext),
            None => Err(CryptoError::Decryption("aead::Error".to_owned())),
        }
    }
}

impl Drop for SealedChannel {
    fn drop(&mut self)
        opens_invariants none
        no_unwind
    {
        wipe(&mut self.key);
    }
}

/// A sealed message is a nonce of 12 bytes, the ciphertext, and a tag of 16: it is opened
/// with the nonce in front of it, and one that is too short or too long for that is not
/// opened at all.
pub proof fn nonce_stands_in_front(key: Seq<u8>, nonce: Seq<u8>, ciphertext: Seq<u8>)
    requires
        nonce.len() == 12,
    ensures
        ciphertext.len() <= 274877906816 + 16 ==> opened(key, nonce + ciphertext) == aead_opened(
            key,
            nonce,
            ciphertext,
        ),
        ciphertext.len() > 274877906816 + 16 ==> opened(key, nonce + ciphertext) is None,
{
    let sealed = nonce + ciphertext;
    assert(sealed.subrange(0, 12) =~= nonce);
    assert(sealed.subrange(12, sealed.len() as int) =~= ciphertext);
}

/// What has fewer bytes than a nonce is never opened.
pub proof fn short_messages_are_not_opened(key: Seq<u8>, sealed: Seq<u8>)
    requires
        sealed.len() < 12,
    ensures
        opened(key, sealed) is None,
{
}

/// Sealing adds 28 bytes: the nonce in front, and the tag behind the ciphertext.
pub proof fn sealing_adds_nonce_and_tag(key: Seq<u8>, plaintext: Seq<u8>, sealed: Seq<u8>)
    requires
        is_sealing(key, plaintext, sealed),
    ensures
        sealed.len() == plaintext.len() + 28,
        sealed.skip(12) == aead_sealed(key, sealed.take(12), plaintext),
{
    assert(sealed.subrange(12, sealed.len() as int) =~= sealed.skip(12));
    assert(sealed.subrange(0, 12) =~= sealed.take(12));
}

/// A channel's key is derived from the shared secret under the label of this protocol.
pub proof fn channel_keys_are_labelled(shared: Seq<u8>)
    ensures
        channel_key(shared) == primitives::hkdf_sha256(
            shared,
            "rivetlink-sealed-channel-v1".spec_bytes(),
        ),
{
}

/// So many bytes fit one nonce as there are counter blocks of 64 bytes, but for the one
/// of the tag: 2^32 - 1 in all.
pub proof fn messages_fit_the_counter(len: nat)
    ensures
        aead_fits(len) <==> len <= 64 * (0x1_0000_0000 - 2),
{
}

} // verus!
