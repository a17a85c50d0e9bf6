//! Direct LAN sessions: connect host and client without a relay.
//!
//! Two peers on the same network establish an end-to-end encrypted channel
//! over a plain byte stream. Authentication is one of:
//!
//! - **Key** (trust on first use): the client presents its Ed25519 identity; the
//!   host decides whether to trust it. The signed ephemeral key exchange binds
//!   the channel to both identities.
//! - **Password**: a shared PIN authenticates the channel via SPAKE2, with an
//!   explicit confirmation step so a wrong PIN fails the handshake.
//!
//! Each side is a chain of states. A step takes the message that came and gives
//! the message to send next.

use vstd::prelude::*;
use vstd::string::*;

use super::error;
use super::error::{crypto_error, SdkError, SdkErrorView, SdkResult};
use super::identity::Identity;
use crate::crypto::handshake;
use crate::crypto::handshake::LocalKeyExchange;
use crate::crypto::identity::VerifyingKey;
use crate::crypto::pake;
use crate::crypto::pake::PakeHandshake;
use crate::crypto::primitives;
use crate::crypto::sealed;
use crate::crypto::sealed::SealedChannel;
use crate::crypto::session_keys;
use crate::encoding;
use crate::encoding::{base64_decode, decode_fixed_32, decode_fixed_64, FixedBytesError};
use crate::framing;
use crate::text;
use crate::text::{joined, trim};

verus! {

broadcast use vstd::array::group_array_axioms;

/// Upper bound on a single handshake frame: handshakes are tiny.
pub const MAX_FRAME: usize = 16384;

/// Handshake wire messages.
#[derive(Debug)]
pub enum Wire {
    /// SPAKE2 message (password mode).
    Pake { msg: String },
    /// Signed ephemeral key exchange (key mode).
    Kex { eph: String, id: String, sig: String },
    /// Sealed confirmation token.
    Confirm { sealed: String },
}

/// A [`Wire`] message with its strings as characters.
pub enum WireView {
    Pake { msg: Seq<char> },
    Kex { eph: Seq<char>, id: Seq<char>, sig: Seq<char> },
    Confirm { sealed: Seq<char> },
}

impl View for Wire {
    type V = WireView;

    open spec fn view(&self) -> WireView {
        match *self {
            Wire::Pake { msg } => WireView::Pake { msg: msg@ },
            Wire::Kex { eph, id, sig } => WireView::Kex { eph: eph@, id: id@, sig: sig@ },
            Wire::Confirm { sealed } => WireView::Confirm { sealed: sealed@ },
        }
    }
}

/// Plaintext both sides seal to prove they derived the same channel.
pub open spec fn confirm_token() -> Seq<u8> {
    "rivetlink-direct-confirm-v1".spec_bytes()
}

/// Put an encoded handshake message into a frame.
pub fn frame_message(encoded: &Vec<u8>) -> (r: SdkResult<Vec<u8>>)
    ensures
        error::fails_with(
            r,
            if encoded@.len() <= u32::MAX {
                None
            } else {
                Some(SdkErrorView::Crypto("handshake frame too large"@))
            },
        ),
        r matches Ok(framed) ==> framing::is_frame(framed@, encoded@),
{
    match framing::frame(encoded) {
        Some(framed) => Ok(framed),
        None => Err(crypto_error("handshake frame too large")),
    }
}

/// How many bytes of a handshake message follow a header.
pub fn message_len(header: &[u8; 4]) -> (r: SdkResult<usize>)
    ensures
        error::fails_with(
            r,
            if framing::be_value(header@) <= MAX_FRAME {
                None
            } else {
                Some(SdkErrorView::Crypto("handshake frame too large"@))
            },
        ),
        r is Ok == (framing::be_value(header@) <= 16 * 1024),
        r matches Ok(n) ==> n == framing::be_value(header@),
{
    match framing::body_len(header, MAX_FRAME) {
        Some(n) => Ok(n),
        None => Err(crypto_error("handshake frame too large")),
    }
}

/// The fault of a text that should be base64.
pub open spec fn decode_fault(text: Seq<char>) -> Option<SdkErrorView> {
    match encoding::base64_decoded(text::trimmed(text)) {
        Ok(_) => None,
        Err(fault) => Some(SdkErrorView::Base64(fault)),
    }
}

/// The bytes that a base64 text stands for, white space around it aside.
pub fn decode(b64: &str) -> (r: SdkResult<Vec<u8>>)
    ensures
        error::fails_with(r, decode_fault(b64@)),
        r matches Ok(bytes) ==> bytes@ == encoding::fixed_bytes(b64@),
{
    match base64_decode(trim(b64).as_str()) {
        Ok(bytes) => Ok(bytes),
        Err(fault) => Err(SdkError::Base64(fault)),
    }
}

/// The fault of a text that should be base64 of 32 bytes.
pub open spec fn fault_32(text: Seq<char>) -> Option<SdkErrorView> {
    if decode_fault(text) is Some {
        decode_fault(text)
    } else if encoding::is_fixed(text, 32) {
        None
    } else {
        Some(SdkErrorView::Crypto("expected 32 bytes"@))
    }
}

/// The fault of a text that should be base64 of 64 bytes.
pub open spec fn fault_64(text: Seq<char>) -> Option<SdkErrorView> {
    if decode_fault(text) is Some {
        decode_fault(text)
    } else if encoding::is_fixed(text, 64) {
        None
    } else {
        Some(SdkErrorView::Crypto("expected 64 bytes"@))
    }
}

/// The fault of a text that should be an identity key.
pub open spec fn identity_fault(text: Seq<char>) -> Option<SdkErrorView> {
    if fault_32(text) is Some {
        fault_32(text)
    } else if primitives::ed25519_is_key(encoding::fixed_bytes(text)) {
        None
    } else {
        Some(
            SdkErrorView::Crypto(
                "bad identity key: "@ + "signature error: Cannot decompress Edwards point"@,
            ),
        )
    }
}

/// The 32 bytes that a base64 text stands for.
pub fn decode_32(b64: &str) -> (r: SdkResult<[u8; 32]>)
    ensures
        error::fails_with(r, fault_32(b64@)),
        r matches Ok(bytes) ==> bytes@ == encoding::fixed_bytes(b64@),
{
    match decode_fixed_32(b64) {
        Ok(bytes) => Ok(bytes),
        Err(FixedBytesError::Base64(fault)) => Err(SdkError::Base64(fault)),
        Err(FixedBytesError::Length(_)) => Err(crypto_error("expected 32 bytes")),
    }
}

/// The 64 bytes that a base64 text stands for.
pub fn decode_64(b64: &str) -> (r: SdkResult<[u8; 64]>)
    ensures
        error::fails_with(r, fault_64(b64@)),
        r matches Ok(bytes) ==> bytes@ == encoding::fixed_bytes(b64@),
{
    match decode_fixed_64(b64) {
        Ok(bytes) => Ok(bytes),
        Err(FixedBytesError::Base64(fault)) => Err(SdkError::Base64(fault)),
        Err(FixedBytesError::Length(_)) => Err(crypto_error("expected 64 bytes")),
    }
}

/// The identity key that a base64 text stands for.
pub fn parse_identity(b64: &str) -> (r: SdkResult<VerifyingKey>)
    ensures
        error::fails_with(r, identity_fault(b64@)),
        r matches Ok(key) ==> key@ == encoding::fixed_bytes(b64@),
{
    match decode_32(b64) {
        Ok(raw) => match VerifyingKey::from_bytes(&raw) {
            Ok(key) => Ok(key),
            Err(fault) => Err(SdkError::Crypto(joined("bad identity key: ", fault.as_str()))),
        },
        Err(e) => Err(e),
    }
}

/// Whether `message` is a confirmation that opens under `key` to the token.
pub open spec fn confirms(message: WireView, key: Seq<u8>) -> bool {
    &&& message is Confirm
    &&& decode_fault(message->sealed) is None
    &&& sealed::opened(key, encoding::fixed_bytes(message->sealed)) == Some(confirm_token())
}

/// The fault of a message that should be a confirmation under `key`.
pub open spec fn confirm_fault(message: WireView, key: Seq<u8>) -> Option<SdkErrorView> {
    match message {
        WireView::Confirm { sealed } => if decode_fault(sealed) is Some {
            decode_fault(sealed)
        } else if confirms(message, key) {
            None
        } else {
            Some(SdkErrorView::Crypto("authentication failed"@))
        },
        _ => Some(SdkErrorView::Crypto("expected confirmation"@)),
    }
}

/// The confirmation of a channel.
pub fn seal_token(channel: &SealedChannel) -> (r: SdkResult<Wire>)
    ensures
        r is Ok,
        confirms(r->Ok_0@, channel@),
{
    proof {
        token_is_short();
    }
    match channel.seal("rivetlink-direct-confirm-v1".as_bytes()) {
        Ok(blob) => Ok(Wire::Confirm { sealed: encoding::encode(blob.as_slice()) }),
        Err(e) => Err(SdkError::Crypto(e.to_string())),
    }
}

proof fn token_is_short()
    ensures
        confirm_token().len() == 27,
{
    reveal_strlit("rivetlink-direct-confirm-v1");
    assert(vstd::utf8::is_ascii_chars("rivetlink-direct-confirm-v1"@));
    vstd::utf8::is_ascii_chars_encode_utf8("rivetlink-direct-confirm-v1"@);
}

/// Check the peer's confirmation of a channel.
pub fn open_token(channel: &SealedChannel, message: &Wire) -> (r: SdkResult<()>)
    ensures
        error::fails_with(r, confirm_fault(message@, channel@)),
{
    let blob = match message {
        Wire::Confirm { sealed } => match decode(sealed.as_str()) {
            Ok(blob) => blob,
            Err(e) => {
                return Err(e);
            },
        },
        _ => {
            return Err(crypto_error("expected confirmation"));
        },
    };
    match channel.open(blob.as_slice()) {
        Ok(opened) => {
            if same_bytes(opened.as_slice(), "rivetlink-direct-confirm-v1".as_bytes()) {
                Ok(())
            } else {
                Err(crypto_error("authentication failed"))
            }
        },
        Err(_) => Err(crypto_error("authentication failed")),
    }
}

/// Whether two byte strings are the same.
fn same_bytes(a: &[u8], b: &[u8]) -> (same: bool)
    ensures
        same == (a@ == b@),
{
    if a.len() != b.len() {
        return false;
    }
    let mut i: usize = 0;
    while i < a.len()
        invariant
            i <= a@.len(),
            a@.len() == b@.len(),
            forall|j: int| 0 <= j < i ==> a@[j] == b@[j],
        decreases a@.len() - i,
    {
        if a[i] != b[i] {
            return false;
        }
        i = i + 1;
    }
    assert(a@ =~= b@);
    true
}

/// A client that has sent its SPAKE2 message.
pub struct ClientPassword {
    handshake: PakeHandshake,
}

/// A client that has derived a channel and sent its confirmation.
pub struct ClientConfirm {
    channel: SealedChannel,
}

/// The fault of a message that should be the peer's SPAKE2 message.
pub open spec fn pake_fault(message: WireView, password: Seq<u8>, seed: Seq<u8>) -> Option<
    SdkErrorView,
> {
    match message {
        WireView::Pake { msg } => if decode_fault(msg) is Some {
            decode_fault(msg)
        } else if pake::pake_channel_key(password, seed, encoding::fixed_bytes(msg)) is None {
            Some(SdkErrorView::Crypto("password authentication failed"@))
        } else {
            None
        },
        _ => Some(SdkErrorView::Crypto("expected pake message"@)),
    }
}

/// The channel key that a side with `password` and `seed` derives from the
/// peer's SPAKE2 message.
pub open spec fn pake_key(message: WireView, password: Seq<u8>, seed: Seq<u8>) -> Seq<u8> {
    pake::pake_channel_key(password, seed, encoding::fixed_bytes(message->msg))->0
}

/// The SPAKE2 message of the side with `password` and `seed`.
pub open spec fn pake_wire(password: Seq<u8>, seed: Seq<u8>) -> WireView {
    WireView::Pake { msg: encoding::base64_text(pake::pake_message(password, seed)) }
}

impl ClientPassword {
    /// The password.
    pub closed spec fn password(&self) -> Seq<u8> {
        self.handshake.password()
    }

    /// The randomness of this side.
    pub closed spec fn seed(&self) -> Seq<u8> {
        self.handshake.seed()
    }

    /// Begin a password-authenticated session: the message to send.
    pub fn start(password: &str) -> (r: (ClientPassword, Wire))
        ensures
            r.0.password() == password.spec_bytes(),
            r.0.seed().len() == 32,
            r.1@ == pake_wire(r.0.password(), r.0.seed()),
            encoding::fixed_bytes(r.1@->msg) == pake::pake_message(r.0.password(), r.0.seed()),
            decode_fault(r.1@->msg) is None,
    {
        let started = pake::start(password.as_bytes());
        let msg = encoding::encode(started.message.as_slice());
        (ClientPassword { handshake: started.handshake }, Wire::Pake { msg })
    }

    /// Take the host's SPAKE2 message: the initiator confirms first.
    pub fn on_pake(self, message: &Wire) -> (r: SdkResult<(ClientConfirm, Wire)>)
        ensures
            error::fails_with(r, pake_fault(message@, self.password(), self.seed())),
            r matches Ok((next, reply)) ==> {
                &&& next@ == pake_key(message@, self.password(), self.seed())
                &&& confirms(reply@, next@)
            },
            forall|peer: Seq<u8>|
                peer.len() == 32 && message@ is Pake && decode_fault(message@->msg) is None
                    && encoding::fixed_bytes(message@->msg) == #[trigger] pake::pake_message(
                    self.password(),
                    peer,
                ) ==> r is Ok && pake::pake_channel_key(
                    self.password(),
                    peer,
                    pake::pake_message(self.password(), self.seed()),
                ) == Some(r->Ok_0.0@),
    {
        let peer = match message {
            Wire::Pake { msg } => match decode(msg.as_str()) {
                Ok(peer) => peer,
                Err(e) => {
                    return Err(e);
                },
            },
            _ => {
                return Err(crypto_error("expected pake message"));
            },
        };
        match self.handshake.finish(peer.as_slice()) {
            Ok(channel) => match seal_token(&channel) {
                Ok(reply) => Ok((ClientConfirm { channel }, reply)),
                Err(e) => Err(e),
            },
            Err(e) => Err(SdkError::Crypto(e.to_string())),
        }
    }
}

impl View for ClientConfirm {
    type V = Seq<u8>;

    /// The key of the derived channel.
    closed spec fn view(&self) -> Seq<u8> {
        self.channel@
    }
}

impl ClientConfirm {
    /// Take the host's confirmation: the channel is established.
    pub fn on_confirm(self, message: &Wire) -> (r: SdkResult<SealedChannel>)
        ensures
            error::fails_with(r, confirm_fault(message@, self@)),
            r matches Ok(channel) ==> channel@ == self@,
    {
        match open_token(&self.channel, message) {
            Ok(()) => Ok(self.channel),
            Err(e) => Err(e),
        }
    }
}

/// A host that has answered the client's SPAKE2 message with its own.
pub struct HostPassword {
    handshake: PakeHandshake,
    peer: Vec<u8>,
}

/// A host that has derived a channel and waits for the client's confirmation.
pub struct HostConfirm {
    channel: SealedChannel,
}

impl HostPassword {
    /// The password.
    pub closed spec fn password(&self) -> Seq<u8> {
        self.handshake.password()
    }

    /// The randomness of this side.
    pub closed spec fn seed(&self) -> Seq<u8> {
        self.handshake.seed()
    }

    /// The client's SPAKE2 message.
    pub closed spec fn peer(&self) -> Seq<u8> {
        self.peer@
    }

    /// Take the client's SPAKE2 message: the message to answer with.
    pub fn start(password: &str, peer_msg_b64: &str) -> (r: SdkResult<(HostPassword, Wire)>)
        ensures
            error::fails_with(r, decode_fault(peer_msg_b64@)),
            r matches Ok((next, reply)) ==> {
                &&& next.password() == password.spec_bytes()
                &&& next.seed().len() == 32
                &&& next.peer() == encoding::fixed_bytes(peer_msg_b64@)
                &&& reply@ == pake_wire(next.password(), next.seed())
                &&& decode_fault(reply@->msg) is None
                &&& encoding::fixed_bytes(reply@->msg) == pake::pake_message(
                    next.password(),
                    next.seed(),
                )
            },
    {
        let peer = match decode(peer_msg_b64) {
            Ok(peer) => peer,
            Err(e) => {
                return Err(e);
            },
        };
        let started = pake::start(password.as_bytes());
        let msg = encoding::encode(started.message.as_slice());
        Ok((HostPassword { handshake: started.handshake, peer }, Wire::Pake { msg }))
    }

    /// Derive the channel, once the answer is sent.
    pub fn derive(self) -> (r: SdkResult<HostConfirm>)
        ensures
            error::fails_with(
                r,
                if pake::pake_channel_key(self.password(), self.seed(), self.peer()) is None {
                    Some(SdkErrorView::Crypto("password authentication failed"@))
                } else {
                    None
                },
            ),
            r matches Ok(next) ==> Some(next@) == pake::pake_channel_key(
                self.password(),
                self.seed(),
                self.peer(),
            ),
            forall|peer: Seq<u8>|
                peer.len() == 32 && self.peer() == #[trigger] pake::pake_message(
                    self.password(),
                    peer,
                ) ==> r is Ok && pake::pake_channel_key(
                    self.password(),
                    peer,
                    pake::pake_message(self.password(), self.seed()),
                ) == Some(r->Ok_0@),
    {
        match self.handshake.finish(self.peer.as_slice()) {
            Ok(channel) => Ok(HostConfirm { channel }),
            Err(e) => Err(SdkError::Crypto(e.to_string())),
        }
    }
}

impl View for HostConfirm {
    type V = Seq<u8>;

    /// The key of the derived channel.
    closed spec fn view(&self) -> Seq<u8> {
        self.channel@
    }
}

impl HostConfirm {
    /// Take the client's confirmation: the responder verifies first, then
    /// confirms.
    pub fn on_confirm(self, message: &Wire) -> (r: SdkResult<(SealedChannel, Wire)>)
        ensures
            error::fails_with(r, confirm_fault(message@, self@)),
            r matches Ok((channel, reply)) ==> channel@ == self@ && confirms(reply@, self@),
    {
        match open_token(&self.channel, message) {
            Ok(()) => match seal_token(&self.channel) {
                Ok(reply) => Ok((self.channel, reply)),
                Err(e) => Err(e),
            },
            Err(e) => Err(e),
        }
    }
}

/// The key-exchange message of the holder of `seed` for the ephemeral `secret`.
pub open spec fn kex_wire(seed: Seq<u8>, secret: Seq<u8>) -> WireView {
    let public = session_keys::x25519_public(secret);
    WireView::Kex {
        eph: encoding::base64_text(public),
        id: encoding::base64_text(primitives::ed25519_public(seed)),
        sig: encoding::base64_text(primitives::ed25519_signature(seed, public)),
    }
}

/// Whether the texts of `message` decode to the key exchange of `seed` and `secret`.
pub open spec fn kex_decodes(message: WireView, seed: Seq<u8>, secret: Seq<u8>) -> bool {
    let public = session_keys::x25519_public(secret);
    &&& message is Kex
    &&& identity_fault(message->id) is None
    &&& fault_32(message->eph) is None
    &&& fault_64(message->sig) is None
    &&& encoding::fixed_bytes(message->id) == primitives::ed25519_public(seed)
    &&& encoding::fixed_bytes(message->eph) == public
    &&& primitives::ed25519_verifies(
        primitives::ed25519_public(seed),
        public,
        encoding::fixed_bytes(message->sig),
    )
}

/// The key-exchange message of an identity.
fn kex_message(identity: &Identity, kex: &LocalKeyExchange) -> (message: Wire)
    requires
        kex.public() == session_keys::x25519_public(kex.secret()),
        kex.signed() == primitives::ed25519_signature(identity@, kex.public()),
        primitives::ed25519_verifies(
            primitives::ed25519_public(identity@),
            kex.public(),
            kex.signed(),
        ),
    ensures
        message@ == kex_wire(identity@, kex.secret()),
        kex_decodes(message@, identity@, kex.secret()),
{
    let id = identity.public_key_b64();
    let _ = identity.signing_key().verifying_key().to_bytes();
    Wire::Kex {
        eph: encoding::encode(kex.ephemeral_public()),
        id,
        sig: encoding::encode(kex.signature()),
    }
}

/// A client that has sent its key exchange.
pub struct ClientKey {
    kex: LocalKeyExchange,
    pinned_host: Option<VerifyingKey>,
}

/// The fault of the host's key exchange.
pub open spec fn host_kex_fault(message: WireView, pinned: Option<Seq<u8>>) -> Option<SdkErrorView> {
    match message {
        WireView::Kex { eph, id, sig } => if identity_fault(id) is Some {
            identity_fault(id)
        } else if pinned is Some && pinned->0 != encoding::fixed_bytes(id) {
            Some(SdkErrorView::Crypto("host identity mismatch"@))
        } else if fault_32(eph) is Some {
            fault_32(eph)
        } else if fault_64(sig) is Some {
            fault_64(sig)
        } else if !primitives::ed25519_verifies(
            encoding::fixed_bytes(id),
            encoding::fixed_bytes(eph),
            encoding::fixed_bytes(sig),
        ) {
            Some(SdkErrorView::Crypto("host key exchange invalid: "@ + "invalid signature"@))
        } else {
            None
        },
        _ => Some(SdkErrorView::Crypto("expected key exchange"@)),
    }
}

impl ClientKey {
    /// The secret of this side's ephemeral key.
    pub closed spec fn secret(&self) -> Seq<u8> {
        self.kex.secret()
    }

    /// The identity key that the host must have.
    pub closed spec fn pinned(&self) -> Option<Seq<u8>> {
        match self.pinned_host {
            Some(key) => Some(key@),
            None => None,
        }
    }

    /// Begin a key-authenticated session: the message to send. `pinned_host`, if
    /// given, must match the host's identity; otherwise any host is trusted on
    /// first use.
    pub fn start(identity: &Identity, pinned_host: Option<VerifyingKey>) -> (r: (ClientKey, Wire))
        ensures
            r.0.secret().len() == 32,
            r.0.pinned() == (match pinned_host {
                Some(key) => Some(key@),
                None => None,
            }),
            r.1@ == kex_wire(identity@, r.0.secret()),
            kex_decodes(r.1@, identity@, r.0.secret()),
    {
        let kex = handshake::start(identity.signing_key());
        let message = kex_message(identity, &kex);
        (ClientKey { kex, pinned_host }, message)
    }

    /// Take the host's key exchange: the channel is established.
    pub fn on_kex(self, message: &Wire) -> (r: SdkResult<SealedChannel>)
        ensures
            error::fails_with(r, host_kex_fault(message@, self.pinned())),
            r matches Ok(channel) ==> channel@ == handshake::exchanged_key(
                self.secret(),
                encoding::fixed_bytes(message@->eph),
            ),
            r matches Ok(channel) ==> handshake::is_shared(
                channel@,
                self.secret(),
                encoding::fixed_bytes(message@->eph),
            ),
    {
        let (eph, id, sig) = match message {
            Wire::Kex { eph, id, sig } => (eph, id, sig),
            _ => {
                return Err(crypto_error("expected key exchange"));
            },
        };
        let host_id = match parse_identity(id.as_str()) {
            Ok(key) => key,
            Err(e) => {
                return Err(e);
            },
        };
        if let Some(pin) = &self.pinned_host {
            if !same_bytes(&pin.to_bytes(), &host_id.to_bytes()) {
                return Err(crypto_error("host identity mismatch"));
            }
        }
        let host_eph = match decode_32(eph.as_str()) {
            Ok(bytes) => bytes,
            Err(e) => {
                return Err(e);
            },
        };
        let host_sig = match decode_64(sig.as_str()) {
            Ok(bytes) => bytes,
            Err(e) => {
                return Err(e);
            },
        };
        match handshake::verify_peer(&host_id, &host_eph, &host_sig) {
            Ok(()) => Ok(self.kex.into_channel(&host_eph)),
            Err(e) => Err(
                SdkError::Crypto(joined("host key exchange invalid: ", e.to_string().as_str())),
            ),
        }
    }
}

/// A client whose key exchange the host has verified, and whose trust is to be
/// decided.
pub struct HostKey {
    client_id: String,
    client_eph: [u8; 32],
}

/// The fault of the client's key exchange.
pub open spec fn client_kex_fault(eph: Seq<char>, id: Seq<char>, sig: Seq<char>) -> Option<
    SdkErrorView,
> {
    if identity_fault(id) is Some {
        identity_fault(id)
    } else if fault_32(eph) is Some {
        fault_32(eph)
    } else if fault_64(sig) is Some {
        fault_64(sig)
    } else if !primitives::ed25519_verifies(
        encoding::fixed_bytes(id),
        encoding::fixed_bytes(eph),
        encoding::fixed_bytes(sig),
    ) {
        Some(SdkErrorView::Crypto("client key exchange invalid: "@ + "invalid signature"@))
    } else {
        None
    }
}

impl HostKey {
    /// The client's identity key, as it was sent.
    pub closed spec fn client(&self) -> Seq<char> {
        self.client_id@
    }

    /// The client's ephemeral key.
    pub closed spec fn ephemeral(&self) -> Seq<u8> {
        self.client_eph@
    }

    /// Verify the client's key exchange.
    pub fn verify(eph: &str, id: &str, sig: &str) -> (r: SdkResult<HostKey>)
        ensures
            error::fails_with(r, client_kex_fault(eph@, id@, sig@)),
            r matches Ok(next) ==> next.client() == id@ && next.ephemeral()
                == encoding::fixed_bytes(eph@),
    {
        let client_id = match parse_identity(id) {
            Ok(key) => key,
            Err(e) => {
                return Err(e);
            },
        };
        let client_eph = match decode_32(eph) {
            Ok(bytes) => bytes,
            Err(e) => {
                return Err(e);
            },
        };
        let client_sig = match decode_64(sig) {
            Ok(bytes) => bytes,
            Err(e) => {
                return Err(e);
            },
        };
        match handshake::verify_peer(&client_id, &client_eph, &client_sig) {
            Ok(()) => Ok(HostKey { client_id: id.to_owned(), client_eph }),
            Err(e) => Err(
                SdkError::Crypto(joined("client key exchange invalid: ", e.to_string().as_str())),
            ),
        }
    }

    /// The client's identity key, for deciding whether to trust it.
    pub fn client_id(&self) -> (id: &str)
        ensures
            id@ == self.client(),
    {
        self.client_id.as_str()
    }

    /// Accept the client if it is trusted: the channel, the client's identity
    /// key, and the message to answer with.
    pub fn accept(self, identity: &Identity, trusted: bool) -> (r: SdkResult<
        (SealedChannel, String, Wire),
    >)
        ensures
            error::fails_with(
                r,
                if trusted {
                    None
                } else {
                    Some(SdkErrorView::Crypto("client not trusted"@))
                },
            ),
            r matches Ok((channel, id, reply)) ==> {
                &&& id@ == self.client()
                &&& exists|secret: Seq<u8>| #[trigger]
                    answers(reply@, channel@, identity@, secret, self.ephemeral())
            },
    {
        if !trusted {
            return Err(crypto_error("client not trusted"));
        }
        let kex = handshake::start(identity.signing_key());
        let reply = kex_message(identity, &kex);
        let ghost secret = kex.secret();
        let channel = kex.into_channel(&self.client_eph);
        let accepted = (channel, self.client_id, reply);
        assert(answers(accepted.2@, accepted.0@, identity@, secret, self.ephemeral()));
        Ok(accepted)
    }
}

/// Whether `reply` is the key exchange of `seed` for the ephemeral `secret`, and
/// `key` the channel key that it makes with the client's ephemeral key.
pub open spec fn answers(
    reply: WireView,
    key: Seq<u8>,
    seed: Seq<u8>,
    secret: Seq<u8>,
    client_eph: Seq<u8>,
) -> bool {
    &&& secret.len() == 32
    &&& reply == kex_wire(seed, secret)
    &&& kex_decodes(reply, seed, secret)
    &&& key == handshake::exchanged_key(secret, client_eph)
    &&& handshake::is_shared(key, secret, client_eph)
}

/// Which clients a host lets begin.
#[derive(Debug, Clone, Copy, PartialEq, Eq, Structural)]
pub enum HostMode {
    /// Only clients that know the password.
    Password,
    /// Only clients that present an identity key.
    Key,
    /// Either.
    Auto,
}

/// The first message of a client.
#[derive(Debug)]
pub enum FirstMessage {
    /// It uses the password: continue with [`HostPassword::start`].
    Password { msg: String },
    /// It uses its identity key: continue with [`HostKey::verify`].
    Key { eph: String, id: String, sig: String },
}

/// The fault of a client's first message.
pub open spec fn first_fault(mode: HostMode, message: WireView) -> Option<SdkErrorView> {
    match (mode, message) {
        (HostMode::Password, WireView::Pake { .. }) => None,
        (HostMode::Password, _) => Some(SdkErrorView::Crypto("expected pake message"@)),
        (HostMode::Key, WireView::Kex { .. }) => None,
        (HostMode::Key, _) => Some(SdkErrorView::Crypto("expected key exchange"@)),
        (HostMode::Auto, WireView::Confirm { .. }) => Some(
            SdkErrorView::Crypto("unexpected confirmation as first message"@),
        ),
        (HostMode::Auto, _) => None,
    }
}

/// Take a client's first message.
pub fn first_message(mode: HostMode, message: Wire) -> (r: SdkResult<FirstMessage>)
    ensures
        error::fails_with(r, first_fault(mode, message@)),
        r matches Ok(first) ==> match first {
            FirstMessage::Password { msg } => message@ == (WireView::Pake { msg: msg@ }),
            FirstMessage::Key { eph, id, sig } => message@ == (WireView::Kex {
                eph: eph@,
                id: id@,
                sig: sig@,
            }),
        },
{
    match (mode, message) {
        (HostMode::Password, Wire::Pake { msg }) => Ok(FirstMessage::Password { msg }),
        (HostMode::Password, _) => Err(crypto_error("expected pake message")),
        (HostMode::Key, Wire::Kex { eph, id, sig }) => Ok(FirstMessage::Key { eph, id, sig }),
        (HostMode::Key, _) => Err(crypto_error("expected key exchange")),
        (HostMode::Auto, Wire::Pake { msg }) => Ok(FirstMessage::Password { msg }),
        (HostMode::Auto, Wire::Kex { eph, id, sig }) => Ok(FirstMessage::Key { eph, id, sig }),
        (HostMode::Auto, Wire::Confirm { .. }) => Err(
            crypto_error("unexpected confirmation as first message"),
        ),
    }
}

/// A client and a host with one password, whose messages reach each other
/// unchanged, both complete and hold channels with one key.
///
/// It is shown by running both sides: the result is the two channels.
pub fn password_session_between(password: &str) -> (r: SdkResult<(SealedChannel, SealedChannel)>)
    ensures
        r is Ok,
        r->Ok_0.0@ == r->Ok_0.1@,
{
    let (client, hello) = ClientPassword::start(password);
    let msg = match first_message(HostMode::Password, hello) {
        Ok(FirstMessage::Password { msg }) => msg,
        Ok(FirstMessage::Key { .. }) => {
            return Err(crypto_error("expected pake message"));
        },
        Err(e) => {
            return Err(e);
        },
    };
    let (host, answer) = match HostPassword::start(password, msg.as_str()) {
        Ok(next) => next,
        Err(e) => {
            return Err(e);
        },
    };
    let ghost client_seed = client.seed();
    let ghost host_seed = host.seed();
    assert(host.peer() == pake::pake_message(host.password(), client_seed));
    let host = match host.derive() {
        Ok(next) => next,
        Err(e) => {
            return Err(e);
        },
    };
    assert(encoding::fixed_bytes(answer@->msg) == pake::pake_message(client.password(), host_seed));
    let (client, confirm) = match client.on_pake(&answer) {
        Ok(next) => next,
        Err(e) => {
            return Err(e);
        },
    };
    let (host_channel, confirm) = match host.on_confirm(&confirm) {
        Ok(next) => next,
        Err(e) => {
            return Err(e);
        },
    };
    match client.on_confirm(&confirm) {
        Ok(client_channel) => Ok((client_channel, host_channel)),
        Err(e) => Err(e),
    }
}

/// A client and a host that trusts it, whose messages reach each other
/// unchanged, hold channels with one key, and the host learns the client's
/// identity key.
///
/// It is shown by running both sides: the result is the two channels and the
/// identity key that the host learned.
pub fn key_session_between(client_id: &Identity, host_id: &Identity) -> (r: SdkResult<
    (SealedChannel, SealedChannel, String),
>)
    ensures
        r is Ok,
        (r->Ok_0).0@ == (r->Ok_0).1@,
        (r->Ok_0).2@ == encoding::base64_text(primitives::ed25519_public(client_id@)),
{
    let pin = host_id.signing_key().verifying_key();
    let (client, hello) = ClientKey::start(client_id, Some(pin));
    let ghost client_secret = client.secret();
    let (eph, id, sig) = match first_message(HostMode::Key, hello) {
        Ok(FirstMessage::Key { eph, id, sig }) => (eph, id, sig),
        Ok(FirstMessage::Password { .. }) => {
            return Err(crypto_error("expected key exchange"));
        },
        Err(e) => {
            return Err(e);
        },
    };
    let host = match HostKey::verify(eph.as_str(), id.as_str(), sig.as_str()) {
        Ok(next) => next,
        Err(e) => {
            return Err(e);
        },
    };
    assert(host.ephemeral() == session_keys::x25519_public(client_secret));
    let (host_channel, learned, answer) = match host.accept(host_id, true) {
        Ok(next) => next,
        Err(e) => {
            return Err(e);
        },
    };
    match client.on_kex(&answer) {
        Ok(client_channel) => Ok((client_channel, host_channel, learned)),
        Err(e) => Err(e),
    }
}

/// A confirmation is accepted exactly if it is one, its base64 is good, and it opens
/// under the channel's key to the token that both sides know. A message of another
/// kind never is.
pub proof fn confirmation_proves_the_key(message: WireView, key: Seq<u8>)
    ensures
        confirm_fault(message, key) is None <==> (message matches WireView::Confirm { sealed } && (
        encoding::base64_decoded(text::trimmed(sealed)) matches Ok(blob) && sealed::opened(key, blob)
            == Some("rivetlink-direct-confirm-v1".spec_bytes()))),
        message is Pake || message is Kex ==> confirm_fault(message, key) == Some(
            SdkErrorView::Crypto("expected confirmation"@),
        ),
{
}

/// A password handshake goes on exactly with a message of the kind, in good base64,
/// from which a key can be derived; the key is the one that the password and both
/// sides' randomness make.
pub proof fn password_handshake_needs_a_message(
    message: WireView,
    password: Seq<u8>,
    seed: Seq<u8>,
)
    ensures
        pake_fault(message, password, seed) is None <==> (message matches WireView::Pake { msg } && (
        encoding::base64_decoded(text::trimmed(msg)) matches Ok(peer) && pake::pake_channel_key(
            password,
            seed,
            peer,
        ) is Some)),
        pake_fault(message, password, seed) is None ==> Some(pake_key(message, password, seed))
            == pake::pake_channel_key(
            password,
            seed,
            encoding::base64_decoded(text::trimmed(message->msg))->Ok_0,
        ),
        pake_wire(password, seed) matches WireView::Pake { msg } && msg == encoding::base64_text(
            pake::pake_message(password, seed),
        ),
{
}

/// A client goes on exactly with a host that signed its ephemeral key with the
/// identity that it shows, and that has the pinned identity where one is pinned.
pub proof fn host_must_prove_the_pinned_identity(message: WireView, pinned: Option<Seq<u8>>)
    ensures
        host_kex_fault(message, pinned) is None <==> (message matches WireView::Kex { eph, id, sig }
            && {
            &&& encoding::is_fixed(id, 32) && encoding::is_fixed(eph, 32) && encoding::is_fixed(
                sig,
                64,
            )
            &&& primitives::ed25519_is_key(encoding::fixed_bytes(id))
            &&& pinned matches Some(key) ==> key == encoding::fixed_bytes(id)
            &&& primitives::ed25519_verifies(
                encoding::fixed_bytes(id),
                encoding::fixed_bytes(eph),
                encoding::fixed_bytes(sig),
            )
        }),
        host_kex_fault(message, None) is None && pinned is Some && pinned->0
            != encoding::fixed_bytes(message->id) ==> host_kex_fault(message, pinned) == Some(
            SdkErrorView::Crypto("host identity mismatch"@),
        ),
{
}

/// A host goes on exactly with a client that signed its ephemeral key with the
/// identity that it shows.
pub proof fn client_must_prove_its_identity(eph: Seq<char>, id: Seq<char>, sig: Seq<char>)
    ensures
        client_kex_fault(eph, id, sig) is None <==> {
            &&& encoding::is_fixed(id, 32) && encoding::is_fixed(eph, 32) && encoding::is_fixed(
                sig,
                64,
            )
            &&& primitives::ed25519_is_key(encoding::fixed_bytes(id))
            &&& primitives::ed25519_verifies(
                encoding::fixed_bytes(id),
                encoding::fixed_bytes(eph),
                encoding::fixed_bytes(sig),
            )
        },
{
}

/// A host of passwords lets only passwords begin, one of keys only keys, and one of
/// either both; a confirmation never begins.
pub proof fn hosts_let_begin_what_they_check(mode: HostMode, message: WireView)
    ensures
        first_fault(mode, message) is None <==> {
            ||| message is Pake && (mode is Password || mode is Auto)
            ||| message is Kex && (mode is Key || mode is Auto)
        },
        first_fault(mode, message) matches Some(fault) ==> fault is Crypto,
{
}

/// A key exchange shows the ephemeral key, the identity, and the identity's signature
/// of the ephemeral key, each in base64.
pub proof fn key_exchange_shows_a_signed_key(seed: Seq<u8>, secret: Seq<u8>)
    ensures
        kex_wire(seed, secret) matches WireView::Kex { eph, id, sig } && {
            let public = session_keys::x25519_public(secret);
            &&& eph == encoding::base64_text(public)
            &&& id == encoding::base64_text(primitives::ed25519_public(seed))
            &&& sig == encoding::base64_text(primitives::ed25519_signature(seed, public))
        },
{
}

/// A text stands for a key exactly if it is base64 of 32 bytes, and for a signature
/// exactly if it is base64 of 64, white space around it aside.
pub proof fn keys_and_signatures_have_their_length(text: Seq<char>)
    ensures
        fault_32(text) is None <==> (encoding::base64_decoded(crate::text::trimmed(text)) matches Ok(
            bytes,
        ) && bytes.len() == 32),
        fault_64(text) is None <==> (encoding::base64_decoded(crate::text::trimmed(text)) matches Ok(
            bytes,
        ) && bytes.len() == 64),
        decode_fault(text) is None <==> encoding::base64_decoded(crate::text::trimmed(text)) is Ok,
        fault_32(text) matches Some(fault) ==> (fault is Base64 <==> decode_fault(text) is Some),
        fault_64(text) matches Some(fault) ==> (fault is Base64 <==> decode_fault(text) is Some),
{
}

} // verus!
