//! Client identity: a persistent Ed25519 keypair.
//!
//! The client's identity public key is what the host trusts. The private key
//! signs the ephemeral session key during the handshake. It is stored as base64.

use vstd::prelude::*;
use vstd::string::*;

use super::error;
use super::error::{SdkError, SdkErrorView, SdkResult};
use crate::crypto::identity::SigningKey;
use crate::crypto::primitives;
use crate::crypto::primitives::{array_32, random_32};
use crate::encoding;
use crate::encoding::base64_decode;

verus! {

broadcast use vstd::array::group_array_axioms;

/// A loaded client identity.
pub struct Identity {
    signing_key: SigningKey,
}

impl View for Identity {
    type V = Seq<u8>;

    /// The secret seed.
    closed spec fn view(&self) -> Seq<u8> {
        self.signing_key@
    }
}

/// The fault of a stored secret.
pub open spec fn stored_fault(secret_b64: Seq<char>) -> Option<SdkErrorView> {
    match encoding::base64_decoded(secret_b64) {
        Err(fault) => Some(SdkErrorView::Base64(fault)),
        Ok(raw) => if raw.len() == 32 {
            None
        } else {
            Some(SdkErrorView::Identity("stored key wrong length"@))
        },
    }
}

impl Identity {
    /// A new random identity.
    pub fn generate() -> (identity: Self)
        ensures
            identity@.len() == 32,
    {
        let seed = random_32();
        Identity { signing_key: SigningKey::from_bytes(&seed) }
    }

    /// The identity of a signing key.
    pub fn from_signing_key(signing_key: SigningKey) -> (identity: Self)
        ensures
            identity@ == signing_key@,
    {
        Identity { signing_key }
    }

    /// The identity whose secret was stored as this base64 text.
    pub fn from_secret_b64(secret_b64: &str) -> (r: SdkResult<Self>)
        ensures
            error::fails_with(r, stored_fault(secret_b64@)),
            r matches Ok(identity) ==> identity@ == encoding::base64_decoded(secret_b64@)->Ok_0,
    {
        let raw = match base64_decode(secret_b64) {
            Ok(raw) => raw,
            Err(fault) => {
                return Err(SdkError::Base64(fault));
            },
        };
        if raw.len() != 32 {
            return Err(SdkError::Identity("stored key wrong length".to_owned()));
        }
        let seed = array_32(raw.as_slice());
        Ok(Identity { signing_key: SigningKey::from_bytes(&seed) })
    }

    /// The base64 text to store the secret as: it loads to the same identity.
    pub fn secret_b64(&self) -> (text: String)
        ensures
            text@ == encoding::base64_text(self@),
            stored_fault(text@) is None,
            encoding::base64_decoded(text@)->Ok_0 == self@,
    {
        encoding::encode(&self.signing_key.to_bytes())
    }

    /// Reference to the signing key for the session handshake.
    pub fn signing_key(&self) -> (key: &SigningKey)
        ensures
            key@ == self@,
    {
        &self.signing_key
    }

    /// Base64 of the 32-byte Ed25519 public key: what the host trusts.
    pub fn public_key_b64(&self) -> (text: String)
        ensures
            text@ == encoding::base64_text(primitives::ed25519_public(self@)),
            encoding::is_fixed(text@, 32),
            encoding::fixed_bytes(text@) == primitives::ed25519_public(self@),
            primitives::ed25519_is_key(encoding::fixed_bytes(text@)),
    {
        encoding::encode(&self.signing_key.verifying_key().to_bytes())
    }
}

/// A stored secret is good exactly if it is base64 of 32 bytes.
pub proof fn stored_secrets_have_32_bytes(secret_b64: Seq<char>)
    ensures
        stored_fault(secret_b64) is None <==> (encoding::base64_decoded(secret_b64) matches Ok(raw)
            && raw.len() == 32),
{
}

} // verus!
