//! Agent keystore: the host's long-term signing and key-exchange keys, as they
//! are stored.

use vstd::prelude::*;
use vstd::string::*;

use super::error;
use super::error::{AgentError, AgentErrorView, AgentResult};
use crate::crypto::primitives;
use crate::crypto::primitives::{array_32, ed25519_public_of, random_32};
use crate::crypto::session_keys;
use crate::crypto::session_keys::x25519_public_of;
use crate::encoding;
use crate::encoding::base64_decode;
use crate::text::{chars_of, joined};

verus! {

broadcast use vstd::array::group_array_axioms;

/// Ed25519 signing keypair material as raw bytes.
#[derive(Debug, Clone)]
pub struct SigningKey {
    pub secret: [u8; 32],
    pub public: [u8; 32],
}

/// X25519 ECDH keypair material as raw bytes.
#[derive(Debug, Clone)]
pub struct EncryptionKey {
    pub secret: [u8; 32],
    pub public: [u8; 32],
}

/// A key pair in its stored form.
#[derive(Debug)]
pub struct StoredKey {
    pub secret_b64: String,
    pub public_b64: String,
}

/// What is wrong with a stored key pair.
pub open spec fn stored_fault(secret_b64: Seq<char>, public_b64: Seq<char>) -> Option<
    AgentErrorView,
> {
    match (encoding::base64_decoded(secret_b64), encoding::base64_decoded(public_b64)) {
        (Err(fault), _) => Some(AgentErrorView::Base64(fault)),
        (Ok(_), Err(fault)) => Some(AgentErrorView::Base64(fault)),
        (Ok(secret), Ok(public)) => if secret.len() == 32 && public.len() == 32 {
            None
        } else {
            Some(AgentErrorView::Keystore("invalid key length"@))
        },
    }
}

impl StoredKey {
    /// The stored form of a key pair: [`StoredKey::decode`] gives it back.
    pub fn new(secret: &[u8; 32], public: &[u8; 32]) -> (stored: Self)
        ensures
            stored.secret_b64@ == encoding::base64_text(secret@),
            stored.public_b64@ == encoding::base64_text(public@),
            stored_fault(stored.secret_b64@, stored.public_b64@) is None,
            encoding::base64_decoded(stored.secret_b64@)->Ok_0 == secret@,
            encoding::base64_decoded(stored.public_b64@)->Ok_0 == public@,
    {
        StoredKey { secret_b64: encoding::encode(secret), public_b64: encoding::encode(public) }
    }

    /// The key pair of a stored form.
    pub fn decode(&self) -> (r: AgentResult<([u8; 32], [u8; 32])>)
        ensures
            error::fails_with(r, stored_fault(self.secret_b64@, self.public_b64@)),
            r matches Ok((secret, public)) ==> {
                &&& secret@ == encoding::base64_decoded(self.secret_b64@)->Ok_0
                &&& public@ == encoding::base64_decoded(self.public_b64@)->Ok_0
            },
    {
        let secret = match base64_decode(self.secret_b64.as_str()) {
            Ok(bytes) => bytes,
            Err(fault) => {
                return Err(AgentError::Base64(fault));
            },
        };
        let public = match base64_decode(self.public_b64.as_str()) {
            Ok(bytes) => bytes,
            Err(fault) => {
                return Err(AgentError::Base64(fault));
            },
        };
        if secret.len() != 32 || public.len() != 32 {
            return Err(AgentError::Keystore("invalid key length".to_owned()));
        }
        Ok((array_32(secret.as_slice()), array_32(public.as_slice())))
    }
}

/// Whether a stored form holds a secret and the key that belongs to it.
pub open spec fn stores_pair(stored: StoredKey, secret: Seq<u8>, public: Seq<u8>) -> bool {
    &&& secret.len() == 32
    &&& stored_fault(stored.secret_b64@, stored.public_b64@) is None
    &&& encoding::base64_decoded(stored.secret_b64@)->Ok_0 == secret
    &&& encoding::base64_decoded(stored.public_b64@)->Ok_0 == public
}

/// A new random signing key: the public half belongs to the secret one.
pub fn generate_signing() -> (stored: StoredKey)
    ensures
        exists|secret: Seq<u8>| #[trigger]
            stores_pair(stored, secret, primitives::ed25519_public(secret)),
{
    let secret = random_32();
    let public = ed25519_public_of(&secret);
    let stored = StoredKey::new(&secret, &public);
    assert(stores_pair(stored, secret@, primitives::ed25519_public(secret@)));
    stored
}

/// A new random encryption key: the public half belongs to the secret one.
pub fn generate_encryption() -> (stored: StoredKey)
    ensures
        exists|secret: Seq<u8>| #[trigger]
            stores_pair(stored, secret, session_keys::x25519_public(secret)),
{
    let secret = random_32();
    let public = x25519_public_of(&secret);
    let stored = StoredKey::new(&secret, &public);
    assert(stores_pair(stored, secret@, session_keys::x25519_public(secret@)));
    stored
}

/// File-backed keystore writing key material to a directory.
#[derive(Debug)]
pub struct FileKeyStore {
    dir: String,
}

/// The path of a file in a directory.
pub open spec fn path_in(dir: Seq<char>, file: Seq<char>) -> Seq<char> {
    if dir.len() == 0 || dir.last() == '/' {
        dir + file
    } else {
        dir + "/"@ + file
    }
}

impl View for FileKeyStore {
    type V = Seq<char>;

    /// The directory.
    closed spec fn view(&self) -> Seq<char> {
        self.dir@
    }
}

impl FileKeyStore {
    /// A keystore rooted at `dir`.
    pub fn new(dir: String) -> (store: Self)
        ensures
            store@ == dir@,
    {
        FileKeyStore { dir }
    }

    fn path_of(&self, file: &str) -> (path: String)
        ensures
            path@ == path_in(self@, file@),
    {
        let v = chars_of(self.dir.as_str());
        if v.len() == 0 || v[v.len() - 1] == '/' {
            joined(self.dir.as_str(), file)
        } else {
            let mut path = joined(self.dir.as_str(), "/");
            path.append(file);
            path
        }
    }

    /// Where the signing key is stored.
    pub fn signing_path(&self) -> (path: String)
        ensures
            path@ == path_in(self@, "signing.json"@),
    {
        self.path_of("signing.json")
    }

    /// Where the encryption key is stored.
    pub fn encryption_path(&self) -> (path: String)
        ensures
            path@ == path_in(self@, "encryption.json"@),
    {
        self.path_of("encryption.json")
    }

    /// Where the trusted clients are stored.
    pub fn trusted_path(&self) -> (path: String)
        ensures
            path@ == path_in(self@, "trusted_clients.json"@),
    {
        self.path_of("trusted_clients.json")
    }
}

/// A stored key pair is good exactly if both halves are base64 of 32 bytes.
pub proof fn stored_keys_have_32_bytes(secret_b64: Seq<char>, public_b64: Seq<char>)
    ensures
        stored_fault(secret_b64, public_b64) is None <==> {
            &&& encoding::base64_decoded(secret_b64) matches Ok(secret)
            &&& encoding::base64_decoded(public_b64) matches Ok(public)
            &&& secret.len() == 32
            &&& public.len() == 32
        },
{
}

/// A file of a directory stands behind one slash, whether the directory is named with it
/// or not; in no directory it stands by itself. So different files have different paths.
pub proof fn files_stand_below_the_directory(dir: Seq<char>, file: Seq<char>)
    ensures
        dir.is_prefix_of(path_in(dir, file)),
        file.is_suffix_of(path_in(dir, file)),
        dir.len() > 0 && dir.last() != '/' ==> path_in(dir, file) == path_in(dir.push('/'), file),
        path_in(Seq::empty(), file) == file,
        path_in(dir, file).len() <= dir.len() + 1 + file.len(),
{
    reveal_strlit("/");
    let path = path_in(dir, file);
    assert(path.subrange(0, dir.len() as int) =~= dir);
    assert(path.subrange(path.len() - file.len(), path.len() as int) =~= file);
    assert(Seq::<char>::empty() + file =~= file);
    if dir.len() > 0 && dir.last() != '/' {
        assert(dir + "/"@ + file =~= dir.push('/') + file);
    }
}

} // verus!
