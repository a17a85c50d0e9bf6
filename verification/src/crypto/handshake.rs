//! Authenticated ephemeral key exchange for establishing a [`SealedChannel`].
//!
//! Both peers generate an ephemeral x25519 keypair and sign the public key
//! with their long-term Ed25519 identity. The signature binds the ephemeral
//! key to a known identity, so a relay that merely forwards bytes cannot
//! substitute its own ephemeral key without also forging an identity signature.
//!
//! Flow:
//! 1. each side calls [`start`] and sends its ephemeral public key and signature
//! 2. on receiving the peer's message, call [`verify_peer`] against the peer's
//!    (already-trusted) identity key
//! 3. call [`LocalKeyExchange::into_channel`] with the peer's ephemeral key to
//!    derive the shared [`SealedChannel`]

use vstd::prelude::*;

use super::error::{CryptoError, CryptoResult};
use super::identity::{Signature, SigningKey, VerifyingKey};
use super::primitives;
use super::sealed;
use super::sealed::SealedChannel;
use super::session_keys;
use super::session_keys::SessionKeyPair;

verus! {

broadcast use vstd::array::group_array_axioms;

/// One side's in-progress key exchange state.
pub struct LocalKeyExchange {
    keypair: SessionKeyPair,
    ephemeral_public: [u8; 32],
    signature: [u8; 64],
}

/// The channel key that the holder of `secret` derives with a peer's ephemeral key.
pub open spec fn exchanged_key(secret: Seq<u8>, peer_ephemeral: Seq<u8>) -> Seq<u8> {
    sealed::channel_key(session_keys::x25519_shared(secret, peer_ephemeral))
}

/// Whether the peer whose ephemeral key is `peer_ephemeral` derives `key` too,
/// from the ephemeral key of `secret`.
pub open spec fn is_shared(key: Seq<u8>, secret: Seq<u8>, peer_ephemeral: Seq<u8>) -> bool {
    forall|peer: Seq<u8>|
        peer.len() == 32 && peer_ephemeral == #[trigger] session_keys::x25519_public(peer) ==> key
            == exchanged_key(peer, session_keys::x25519_public(secret))
}

/// Begin a key exchange: generate an ephemeral keypair and sign its public
/// key with the long-term identity.
pub fn start(identity: &SigningKey) -> (exchange: LocalKeyExchange)
    ensures
        exchange.secret().len() == 32,
        exchange.public() == session_keys::x25519_public(exchange.secret()),
        exchange.signed() == primitives::ed25519_signature(identity@, exchange.public()),
        primitives::ed25519_verifies(
            primitives::ed25519_public(identity@),
            exchange.public(),
            exchange.signed(),
        ),
{
    let keypair = SessionKeyPair::generate();
    let ephemeral_public = *keypair.public_key();
    let signature = identity.sign(&ephemeral_public).to_bytes();
    LocalKeyExchange { keypair, ephemeral_public, signature }
}

impl LocalKeyExchange {
    /// The ephemeral secret.
    pub closed spec fn secret(&self) -> Seq<u8> {
        self.keypair.secret()
    }

    /// The ephemeral public key.
    pub closed spec fn public(&self) -> Seq<u8> {
        self.ephemeral_public@
    }

    /// The identity's signature over the ephemeral public key.
    pub closed spec fn signed(&self) -> Seq<u8> {
        self.signature@
    }

    /// The ephemeral x25519 public key bytes to transmit to the peer.
    pub fn ephemeral_public(&self) -> (public: &[u8; 32])
        ensures
            public@ == self.public(),
    {
        &self.ephemeral_public
    }

    /// The Ed25519 signature over the ephemeral key, to transmit to the peer.
    pub fn signature(&self) -> (signature: &[u8; 64])
        ensures
            signature@ == self.signed(),
    {
        &self.signature
    }

    /// Consume this exchange and derive the shared [`SealedChannel`] using the
    /// peer's ephemeral public key. A peer that derives with this side's
    /// ephemeral key holds a channel with the same key.
    pub fn into_channel(self, peer_ephemeral: &[u8; 32]) -> (channel: SealedChannel)
        ensures
            channel@ == exchanged_key(self.secret(), peer_ephemeral@),
            is_shared(channel@, self.secret(), peer_ephemeral@),
    {
        let shared = self.keypair.derive_shared_secret(peer_ephemeral);
        SealedChannel::from_shared_secret(shared.as_bytes())
    }
}

/// Verify the peer's signature over their ephemeral key against their trusted
/// identity public key.
pub fn verify_peer(
    peer_identity: &VerifyingKey,
    peer_ephemeral: &[u8; 32],
    peer_signature: &[u8; 64],
) -> (r: CryptoResult<()>)
    ensures
        r == (if primitives::ed25519_verifies(
            peer_identity@,
            peer_ephemeral@,
            peer_signature@,
        ) {
            Ok(())
        } else {
            Err(CryptoError::InvalidSignature)
        }),
{
    let signature = Signature::from_bytes(peer_signature);
    if peer_identity.verify(peer_ephemeral, &signature) {
        Ok(())
    } else {
        Err(CryptoError::InvalidSignature)
    }
}

/// What one side seals, the other opens: two exchanges that derive with each
/// other's ephemeral key, and verify each other under the identity that started
/// the other, hold channels with one key.
///
/// It is shown by running both sides: the result is what the host opens of the
/// client's `message`.
pub fn exchange_between(client_id: &SigningKey, host_id: &SigningKey, message: &[u8]) -> (r:
    CryptoResult<Vec<u8>>)
    requires
        message@.len() + sealed::NONCE_LEN + 16 <= isize::MAX,
    ensures
        r is Ok == sealed::aead_fits(message@.len()),
        r matches Ok(opened) ==> opened@ == message@,
{
    let client = start(client_id);
    let host = start(host_id);
    match verify_peer(&host_id.verifying_key(), host.ephemeral_public(), host.signature()) {
        Ok(()) => {},
        Err(e) => {
            return Err(e);
        },
    }
    match verify_peer(&client_id.verifying_key(), client.ephemeral_public(), client.signature()) {
        Ok(()) => {},
        Err(e) => {
            return Err(e);
        },
    }
    let client_ephemeral = *client.ephemeral_public();
    let host_ephemeral = *host.ephemeral_public();
    let client_channel = client.into_channel(&host_ephemeral);
    let host_channel = host.into_channel(&client_ephemeral);
    match client_channel.seal(message) {
        Ok(sealed_message) => host_channel.open(sealed_message.as_slice()),
        Err(e) => Err(e),
    }
}

/// The key of an exchange is that of a channel over what both ephemeral keys share, so
/// the two sides derive the same one where they share the same secret.
pub proof fn exchange_keys_the_channel(
    secret: Seq<u8>,
    peer_ephemeral: Seq<u8>,
    key: Seq<u8>,
    peer: Seq<u8>,
)
    requires
        is_shared(key, secret, peer_ephemeral),
        peer.len() == 32,
        peer_ephemeral == session_keys::x25519_public(peer),
    ensures
        key == sealed::channel_key(
            session_keys::x25519_shared(peer, session_keys::x25519_public(secret)),
        ),
        exchanged_key(secret, peer_ephemeral) == sealed::channel_key(
            session_keys::x25519_shared(secret, peer_ephemeral),
        ),
{
}

} // verus!
