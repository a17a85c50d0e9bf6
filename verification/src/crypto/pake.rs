//! Password-authenticated key agreement (SPAKE2) for direct LAN sessions.
//!
//! When two peers connect directly, with no relay and no pre-pinned identity, a
//! shared password authenticates the channel. SPAKE2 turns the password into a
//! shared secret without ever sending it.
//!
//! SPAKE2 on its own derives a key but does not confirm it: with the wrong
//! password both sides still finish, they just end up with different keys.
//! Callers must treat the first failed [`SealedChannel::open`] as "wrong
//! password" and abort.

use rand::rngs::StdRng;
use rand::SeedableRng;
use spake2::{Ed25519Group, Identity, Password, Spake2};
use vstd::prelude::*;
use vstd::slice::slice_to_vec;
use vstd::string::*;

use super::error::{CryptoError, CryptoResult};
use super::primitives::{array_32, random_32, SecretBytes};
use super::sealed;
use super::sealed::SealedChannel;

verus! {

broadcast use vstd::array::group_array_axioms;

/// Bytes of a SPAKE2 message: the side marker and a compressed point.
pub const PAKE_MESSAGE_LEN: usize = 33;

/// The side marker in front of a symmetric SPAKE2 message.
pub const SYMMETRIC_SIDE: u8 = 0x53;

/// The message of a symmetric SPAKE2 exchange whose secret scalar is drawn from
/// a generator seeded with `seed`.
pub uninterp spec fn spake2_message(
    password: Seq<u8>,
    identity: Seq<u8>,
    seed: Seq<u8>,
) -> Seq<u8>;

/// The key that such an exchange derives from the peer's message.
pub uninterp spec fn spake2_key(
    password: Seq<u8>,
    identity: Seq<u8>,
    seed: Seq<u8>,
    peer: Seq<u8>,
) -> Option<Seq<u8>>;

/// `Spake2::start_symmetric_with_rng`, with `StdRng::from_seed(seed)` as the
/// generator: the message, which is the side marker and the 32 bytes of a point.
#[verifier::external_body]
fn spake2_start(password: &[u8], identity: &[u8], seed: &[u8; 32]) -> (message: Vec<u8>)
    ensures
        message@ == spake2_message(password@, identity@, seed@),
        message@.len() == PAKE_MESSAGE_LEN && message@[0] == SYMMETRIC_SIDE,
{
    let (password, identity) = (Password::new(password), Identity::new(identity));
    let rng = StdRng::from_seed(*seed);
    Spake2::<Ed25519Group>::start_symmetric_with_rng(&password, &identity, rng).1
}

/// `Spake2::finish` on the exchange that [`spake2_start`] starts from the same
/// arguments.
///
/// It refuses a message of another length or with another side marker. A key
/// has 32 bytes. Two exchanges with one password and identity that finish with
/// each other's message derive one key. The kind of failure is not handed on.
#[verifier::external_body]
fn spake2_finish(password: &[u8], identity: &[u8], seed: &[u8; 32], peer: &[u8]) -> (r: Option<
    Vec<u8>,
>)
    ensures
        r is Some == spake2_key(password@, identity@, seed@, peer@) is Some,
        r is Some ==> r->0@ == spake2_key(password@, identity@, seed@, peer@)->0,
        r is Some ==> peer@.len() == PAKE_MESSAGE_LEN && peer@[0] == SYMMETRIC_SIDE,
        r is Some ==> r->0@.len() == 32,
        forall|other: Seq<u8>|
            other.len() == 32 && peer@ == #[trigger] spake2_message(password@, identity@, other)
                ==> r is Some && spake2_key(
                password@,
                identity@,
                other,
                spake2_message(password@, identity@, seed@),
            ) == Some(r->0@),
{
    let (password, identity) = (Password::new(password), Identity::new(identity));
    let rng = StdRng::from_seed(*seed);
    let (state, _) =
        Spake2::<Ed25519Group>::start_symmetric_with_rng(&password, &identity, rng);
    state.finish(peer).ok()
}

/// Domain-separation identity, so that a transcript of this protocol cannot
/// be replayed into another that happens to use the same password.
pub open spec fn pake_identity() -> Seq<u8> {
    "rivetlink-direct-pake-v1".spec_bytes()
}

/// The message of a handshake with the given password and seed.
pub open spec fn pake_message(password: Seq<u8>, seed: Seq<u8>) -> Seq<u8> {
    spake2_message(password, pake_identity(), seed)
}

/// The channel key that a handshake with the given password and seed derives
/// from the peer's message.
pub open spec fn pake_channel_key(password: Seq<u8>, seed: Seq<u8>, peer: Seq<u8>) -> Option<
    Seq<u8>,
> {
    match spake2_key(password, pake_identity(), seed, peer) {
        Some(key) => Some(sealed::channel_key(key)),
        None => None,
    }
}

/// One side's started handshake: the in-progress SPAKE2 state plus the message
/// to hand to the peer.
pub struct Started {
    /// The SPAKE2 message to send to the peer.
    pub message: Vec<u8>,
    /// The state to drive to completion with [`PakeHandshake::finish`].
    pub handshake: PakeHandshake,
}

/// In-progress password-authenticated handshake.
pub struct PakeHandshake {
    password: Vec<u8>,
    seed: SecretBytes,
}

/// Begin a password-authenticated handshake. Both peers call this with the same
/// password, swap [`Started::message`], then call [`PakeHandshake::finish`] with
/// the peer's message.
pub fn start(password: &[u8]) -> (started: Started)
    ensures
        started.handshake.password() == password@,
        started.handshake.seed().len() == 32,
        started.message@ == pake_message(password@, started.handshake.seed()),
        started.message@.len() == PAKE_MESSAGE_LEN,
        started.message@[0] == SYMMETRIC_SIDE,
{
    let seed = SecretBytes::new(random_32());
    let message = spake2_start(password, "rivetlink-direct-pake-v1".as_bytes(), seed.as_bytes());
    Started { message, handshake: PakeHandshake { password: slice_to_vec(password), seed } }
}

impl PakeHandshake {
    /// The password that the handshake was started with.
    pub closed spec fn password(&self) -> Seq<u8> {
        self.password@
    }

    /// The randomness of this side.
    pub closed spec fn seed(&self) -> Seq<u8> {
        self.seed@
    }

    /// Complete the exchange with the peer's message, deriving a sealed channel.
    ///
    /// Returns [`CryptoError::PakeFailed`] only if the peer's message is
    /// malformed. A *wrong* password does not fail here: it yields a channel
    /// whose first [`SealedChannel::open`] will fail (see the module docs).
    /// A peer that was started with the same password, and whose message this
    /// is, derives the same key from this side's message.
    pub fn finish(self, peer_message: &[u8]) -> (r: CryptoResult<SealedChannel>)
        ensures
            r is Ok == pake_channel_key(self.password(), self.seed(), peer_message@) is Some,
            r matches Ok(channel) ==> Some(channel@) == pake_channel_key(
                self.password(),
                self.seed(),
                peer_message@,
            ),
            r matches Err(e) ==> e == CryptoError::PakeFailed,
            peer_message@.len() != PAKE_MESSAGE_LEN || peer_message@[0] != SYMMETRIC_SIDE
                ==> r is Err,
            forall|other: Seq<u8>|
                other.len() == 32 && peer_message@ == #[trigger] pake_message(
                    self.password(),
                    other,
                ) ==> r is Ok && pake_channel_key(
                    self.password(),
                    other,
                    pake_message(self.password(), self.seed()),
                ) == Some(r->Ok_0@),
    {
        match spake2_finish(
            self.password.as_slice(),
            "rivetlink-direct-pake-v1".as_bytes(),
            self.seed.as_bytes(),
            peer_message,
        ) {
            Some(key) => {
                if key.len() != 32 {
                    return Err(CryptoError::PakeFailed);
                }
                let secret = array_32(key.as_slice());
                Ok(SealedChannel::from_shared_secret(&secret))
            },
            None => Err(CryptoError::PakeFailed),
        }
    }
}

/// Two handshakes with one password end in one channel: what the first seals,
/// the second opens.
///
/// It is shown by running both sides: the result is what the second opens of
/// the first's `text`.
pub fn agree_between(password: &[u8], text: &[u8]) -> (r: CryptoResult<Vec<u8>>)
    requires
        text@.len() + sealed::NONCE_LEN + 16 <= isize::MAX,
    ensures
        r is Ok == sealed::aead_fits(text@.len()),
        r matches Ok(opened) ==> opened@ == text@,
{
    let a = start(password);
    let b = start(password);
    assert(b.message@ == pake_message(password@, b.handshake.seed()));
    assert(a.message@ == pake_message(password@, a.handshake.seed()));
    match (a.handshake.finish(b.message.as_slice()), b.handshake.finish(a.message.as_slice())) {
        (Ok(channel_a), Ok(channel_b)) => match channel_a.seal(text) {
            Ok(sealed_text) => channel_b.open(sealed_text.as_slice()),
            Err(e) => Err(e),
        },
        (Err(e), _) => Err(e),
        (_, Err(e)) => Err(e),
    }
}

/// A password handshake runs under the label of this protocol, and its channel has the
/// key that is derived from what both sides reach.
pub proof fn handshakes_are_labelled(password: Seq<u8>, seed: Seq<u8>, peer: Seq<u8>)
    ensures
        pake_message(password, seed) == spake2_message(
            password,
            "rivetlink-direct-pake-v1".spec_bytes(),
            seed,
        ),
        pake_channel_key(password, seed, peer) is Some <==> spake2_key(
            password,
            "rivetlink-direct-pake-v1".spec_bytes(),
            seed,
            peer,
        ) is Some,
        pake_channel_key(password, seed, peer) matches Some(key) ==> key == sealed::channel_key(
            spake2_key(password, "rivetlink-direct-pake-v1".spec_bytes(), seed, peer)->0,
        ),
{
}

} // verus!
