//! Ephemeral x25519 key exchange for session establishment.

use vstd::prelude::*;
use x25519_dalek::{PublicKey, StaticSecret};

use super::primitives::{random_32, wipe, SecretBytes};

verus! {

broadcast use vstd::array::group_array_axioms;

/// The x25519 public key of a 32-byte secret.
pub uninterp spec fn x25519_public(secret: Seq<u8>) -> Seq<u8>;

/// The x25519 shared secret of a 32-byte secret and a peer's public key.
pub uninterp spec fn x25519_shared(secret: Seq<u8>, peer_public: Seq<u8>) -> Seq<u8>;

/// `PublicKey::from(&StaticSecret)`: the clamped secret times the base point.
#[verifier::external_body]
pub(crate) fn x25519_public_of(secret: &[u8; 32]) -> (public: [u8; 32])
    ensures
        public@ == x25519_public(secret@),
{
    PublicKey::from(&StaticSecret::from(*secret)).to_bytes()
}

/// `StaticSecret::diffie_hellman`: the clamped secret times the peer's point.
/// Scalar multiplication commutes, so a peer whose secret made `peer_public`
/// reaches the same bytes from this side's public key.
#[verifier::external_body]
fn x25519_agree(secret: &[u8; 32], peer_public: &[u8; 32]) -> (shared: [u8; 32])
    ensures
        shared@ == x25519_shared(secret@, peer_public@),
        forall|peer: Seq<u8>|
            peer.len() == 32 && peer_public@ == #[trigger] x25519_public(peer) ==> shared@
                == x25519_shared(peer, x25519_public(secret@)),
{
    let peer = PublicKey::from(*peer_public);
    StaticSecret::from(*secret).diffie_hellman(&peer).to_bytes()
}

/// An ephemeral x25519 key pair for Diffie-Hellman key exchange. The secret
/// leaves it only by [`SessionKeyPair::derive_shared_secret`], which consumes it.
pub struct SessionKeyPair {
    secret: SecretBytes,
    public: [u8; 32],
}

impl SessionKeyPair {
    /// The ephemeral secret.
    pub closed spec fn secret(&self) -> Seq<u8> {
        self.secret@
    }

    #[verifier::type_invariant]
    spec fn matched(self) -> bool {
        self.public@ == x25519_public(self.secret@)
    }

    /// Generates a new random ephemeral x25519 key pair.
    pub fn generate() -> (pair: Self)
        ensures
            pair.secret().len() == 32,
    {
        let secret = SecretBytes::new(random_32());
        let public = x25519_public_of(secret.as_bytes());
        SessionKeyPair { secret, public }
    }

    /// Returns a reference to the public key.
    pub fn public_key(&self) -> (public: &[u8; 32])
        ensures
            public@ == x25519_public(self.secret()),
    {
        proof {
            use_type_invariant(self);
        }
        &self.public
    }

    /// Performs Diffie-Hellman with the peer's public key to derive a shared
    /// secret. A peer that derives with this pair's public key gets the same
    /// secret.
    pub fn derive_shared_secret(self, peer_public: &[u8; 32]) -> (key: DerivedSessionKey)
        ensures
            key@ == x25519_shared(self.secret(), peer_public@),
            forall|peer: Seq<u8>|
                peer.len() == 32 && peer_public@ == #[trigger] x25519_public(peer) ==> key@
                    == x25519_shared(peer, x25519_public(self.secret())),
    {
        DerivedSessionKey { bytes: x25519_agree(self.secret.as_bytes(), peer_public) }
    }
}

/// A 32-byte shared secret derived from Diffie-Hellman key exchange.
pub struct DerivedSessionKey {
    bytes: [u8; 32],
}

impl View for DerivedSessionKey {
    type V = Seq<u8>;

    closed spec fn view(&self) -> Seq<u8> {
        self.bytes@
    }
}

impl DerivedSessionKey {
    /// Returns a reference to the 32-byte shared secret.
    pub fn as_bytes(&self) -> (bytes: &[u8; 32])
        ensures
            bytes@ == self@,
    {
        &self.bytes
    }
}

impl Drop for DerivedSessionKey {
    fn drop(&mut self)
        opens_invariants none
        no_unwind
    {
        wipe(&mut self.bytes);
    }
}

} // verus!
