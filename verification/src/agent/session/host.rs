//! The host's screenshot-session state machine.
//!
//! Per session it:
//! 1. receives `SessionRequest`, runs the consent check (a trusted-store match
//!    decides; otherwise the operator is asked: trust on first use)
//! 2. replies `SessionAccepted` and its own signed ephemeral key
//! 3. verifies the client's ephemeral key against the client's identity and
//!    derives the sealed channel
//! 4. on `ScreenshotRequest`, has the screen captured, seals it, and streams it
//!    back as ordered `ScreenshotData` chunks
//!
//! The host, never the relay, makes the trust decision. What has to be done
//! outside (asking the operator, capturing, replaying input) is named in a
//! [`HostAction`]; its outcome comes back by a further call.

use std::time::{Duration, Instant};
use vstd::prelude::*;
use vstd::string::*;

use crate::agent::error::{relay_error, AgentError, AgentErrorView, AgentResult};
use crate::agent::error;
use crate::agent::trusted;
use crate::agent::trusted::{TrustedClients, TrustedEntry};
use crate::chunks;
use crate::chunks::chunk_payload;
use crate::crypto::handshake;
use crate::crypto::handshake::LocalKeyExchange;
use crate::crypto::identity::{SigningKey, VerifyingKey};
use crate::crypto::primitives;
use crate::crypto::sealed;
use crate::crypto::sealed::SealedChannel;
use crate::crypto::session_keys;
use crate::encoding;
use crate::encoding::{base64_decode, decode_fixed_32, decode_fixed_64, FixedBytesError};
use crate::packets;
use crate::packets::{
    ConsoleInputPacket, HostConsoleState, SessionCapability, SignalPacket, SignalPacketView,
};
use crate::text;
use crate::text::{byte_len, chars_of, decimal, joined, trim};
use crate::time;
use crate::time::time_since;
use crate::types::{SessionId, SessionRole};

verus! {

broadcast use vstd::array::group_array_axioms;

/// Bytes that a sealed console input may have in base64.
pub const MAX_CONSOLE_INPUT: usize = 8192;

/// Bytes that a key code may have.
pub const MAX_KEY_CODE: usize = 64;

/// How the host decides whether to admit an unknown client.
#[derive(Debug, Clone, Copy, PartialEq, Eq)]
pub enum ConsentPolicy {
    /// Prompt the operator for unknown clients.
    Prompt,
    /// Screenshot-only unattended mode. This mode is intentionally narrower
    /// than a generic auto-accept: only a locally pre-trusted key with
    /// `can_view` is admitted and requests are bounded.
    HeadlessTrustedOnly {
        min_capture_interval: Duration,
        capture_timeout: Duration,
        max_capture_bytes: usize,
    },
    /// Capture from the physical console via a locally authenticated session
    /// worker. This requires the additional `can_unattended_console` owner
    /// opt-in; ordinary screenshot trust is not enough.
    UnattendedConsole {
        min_capture_interval: Duration,
        capture_timeout: Duration,
        max_capture_bytes: usize,
    },
}

/// What the trusted store and the policy say of a client.
#[derive(Debug, Clone, Copy, PartialEq, Eq, Structural)]
pub enum Consent {
    Allow,
    Deny,
    AskOperator,
}

/// What the trusted store and the policy say of the client with `key`.
pub open spec fn consent_for(
    trusted: Map<Seq<char>, TrustedEntry>,
    policy: ConsentPolicy,
    key: Seq<char>,
) -> Consent {
    let k = text::trimmed(key);
    if trusted.contains_key(k) {
        let allowed = if policy is UnattendedConsole {
            trusted::may_view_console(trusted, key)
        } else {
            trusted[k].can_view
        };
        if allowed {
            Consent::Allow
        } else {
            Consent::Deny
        }
    } else if policy is Prompt {
        Consent::AskOperator
    } else {
        Consent::Deny
    }
}

/// The fault of a text that should be base64 of `n` bytes.
pub open spec fn fixed_fault(text: Seq<char>, n: nat) -> Option<AgentErrorView> {
    match encoding::base64_decoded(text::trimmed(text)) {
        Err(fault) => Some(AgentErrorView::Base64(fault)),
        Ok(bytes) => if bytes.len() == n {
            None
        } else {
            Some(AgentErrorView::Relay(length_message(n, bytes.len())))
        },
    }
}

/// What is said of a byte string with the wrong length.
pub open spec fn length_message(expected: nat, got: nat) -> Seq<char> {
    "expected "@ + text::decimal_digits(expected) + " bytes, got "@ + text::decimal_digits(got)
}

/// The fault of a text that should be a client's identity key.
pub open spec fn identity_fault(text: Seq<char>) -> Option<AgentErrorView> {
    match fixed_fault(text, 32) {
        Some(fault) => Some(fault),
        None => if primitives::ed25519_is_key(encoding::fixed_bytes(text)) {
            None
        } else {
            Some(
                AgentErrorView::Relay(
                    "bad identity key: "@ + "signature error: Cannot decompress Edwards point"@,
                ),
            )
        },
    }
}

fn fixed_error(expected: u64, e: FixedBytesError) -> (r: AgentError)
    ensures
        match e {
            FixedBytesError::Base64(m) => r@ == AgentErrorView::Base64(m@),
            FixedBytesError::Length(n) => r@ == AgentErrorView::Relay(
                length_message(expected as nat, n as nat),
            ),
        },
{
    match e {
        FixedBytesError::Base64(m) => AgentError::Base64(m),
        FixedBytesError::Length(n) => {
            let mut m = joined("expected ", decimal(expected).as_str());
            m.append(" bytes, got ");
            m.append(decimal(n as u64).as_str());
            AgentError::Relay(m)
        },
    }
}

/// The 32 bytes that a base64 text stands for.
pub fn decode_32(b64: &str) -> (r: AgentResult<[u8; 32]>)
    ensures
        error::fails_with(r, fixed_fault(b64@, 32)),
        r matches Ok(bytes) ==> bytes@ == encoding::fixed_bytes(b64@),
{
    match decode_fixed_32(b64) {
        Ok(bytes) => Ok(bytes),
        Err(e) => Err(fixed_error(32, e)),
    }
}

/// The 64 bytes that a base64 text stands for.
pub fn decode_64(b64: &str) -> (r: AgentResult<[u8; 64]>)
    ensures
        error::fails_with(r, fixed_fault(b64@, 64)),
        r matches Ok(bytes) ==> bytes@ == encoding::fixed_bytes(b64@),
{
    match decode_fixed_64(b64) {
        Ok(bytes) => Ok(bytes),
        Err(e) => Err(fixed_error(64, e)),
    }
}

/// The identity key that a base64 text stands for.
pub fn parse_identity(b64: &str) -> (r: AgentResult<VerifyingKey>)
    ensures
        error::fails_with(r, identity_fault(b64@)),
        r matches Ok(key) ==> key@ == encoding::fixed_bytes(b64@),
{
    match decode_32(b64) {
        Ok(raw) => match VerifyingKey::from_bytes(&raw) {
            Ok(key) => Ok(key),
            Err(fault) => Err(AgentError::Relay(joined("bad identity key: ", fault.as_str()))),
        },
        Err(e) => Err(e),
    }
}

/// Whether an operator's line says yes: `y` or `yes`, in either case.
pub open spec fn is_yes(line: Seq<char>) -> bool {
    let answer = text::trimmed(line);
    let begins = answer.len() > 0 && (answer[0] == 'y' || answer[0] == 'Y');
    ||| answer.len() == 1 && begins
    ||| answer.len() == 3 && begins && (answer[1] == 'e' || answer[1] == 'E') && (answer[2] == 's'
        || answer[2] == 'S')
}

/// Whether the operator's answer to the consent prompt admits the client.
/// Whatever is no yes is a no.
pub fn operator_approves(line: &str) -> (approved: bool)
    ensures
        approved == is_yes(line@),
{
    let answer = chars_of(trim(line).as_str());
    if answer.len() != 1 && answer.len() != 3 {
        return false;
    }
    let begins = answer[0] == 'y' || answer[0] == 'Y';
    if answer.len() == 1 {
        begins
    } else {
        begins && (answer[1] == 'e' || answer[1] == 'E') && (answer[2] == 's' || answer[2] == 'S')
    }
}

/// The signing key of the host, with the base64 text of its public half.
pub struct HostIdentity {
    signing_key: SigningKey,
    public_b64: String,
}

impl HostIdentity {
    /// The secret seed.
    pub closed spec fn seed(&self) -> Seq<u8> {
        self.signing_key@
    }

    #[verifier::type_invariant]
    spec fn matched(self) -> bool {
        let public = primitives::ed25519_public(self.signing_key@);
        &&& self.public_b64@ == encoding::base64_text(public)
        &&& encoding::reads_back(public, 32)
        &&& primitives::ed25519_is_key(public)
    }

    fn new(signing_key: SigningKey) -> (identity: Self)
        ensures
            identity.seed() == signing_key@,
            encoding::reads_back(primitives::ed25519_public(signing_key@), 32),
            primitives::ed25519_is_key(primitives::ed25519_public(signing_key@)),
    {
        let public = signing_key.verifying_key().to_bytes();
        let public_b64 = encoding::encode(&public);
        HostIdentity { signing_key, public_b64 }
    }

    fn public_text(&self) -> (text: String)
        ensures
            text@ == encoding::base64_text(primitives::ed25519_public(self.seed())),
            encoding::reads_back(primitives::ed25519_public(self.seed()), 32),
            primitives::ed25519_is_key(primitives::ed25519_public(self.seed())),
    {
        proof {
            use_type_invariant(self);
        }
        self.public_b64.clone()
    }
}

/// Per-connection host session state.
pub struct ScreenshotHost {
    identity: HostIdentity,
    trusted: TrustedClients,
    policy: ConsentPolicy,
    // Active session state: a single session at a time.
    session_id: Option<SessionId>,
    capability: Option<SessionCapability>,
    client_identity: Option<VerifyingKey>,
    local_kex: Option<LocalKeyExchange>,
    channel: Option<SealedChannel>,
    last_capture: Option<Instant>,
}

/// The state of the active session.
pub struct HostSession {
    /// The session, if one was accepted.
    pub session_id: Option<SessionId>,
    /// What it was opened for.
    pub capability: Option<SessionCapability>,
    /// The client's identity key.
    pub client: Option<Seq<u8>>,
    /// The secret of this side's ephemeral key, until the client's has come.
    pub exchange: Option<Seq<u8>>,
    /// The key of the sealed channel.
    pub channel: Option<Seq<u8>>,
    /// When the last capture under a rate limit was taken, if one was.
    pub last_capture: Option<Instant>,
}

/// The state without a session.
pub open spec fn no_session() -> HostSession {
    HostSession {
        session_id: None,
        capability: None,
        client: None,
        exchange: None,
        channel: None,
        last_capture: None,
    }
}

/// What is to be done next for a packet.
pub enum HostAction {
    /// Send these packets.
    Reply(Vec<SignalPacket>),
    /// Ask the operator about the client, and hand the answer to
    /// [`ScreenshotHost::on_session_request`].
    AskOperator,
    /// Capture the screen for the session, and hand the outcome to
    /// [`ScreenshotHost::on_captured`].
    Capture(SessionId),
    /// Read the input event in these decrypted bytes, and replay it if
    /// [`validate_console_input`] accepts it.
    Inject(Vec<u8>),
}

/// How a session request is decided.
pub enum RequestDecision {
    /// The relay did not stamp a session: no reply.
    Ignore,
    /// Refused with this reason.
    Reject(Seq<char>),
    /// The operator has to be asked first.
    Ask,
    /// Accepted.
    Accept,
}

/// How a request of the client with `key` is decided; `answer` is the
/// operator's, where one was given.
pub open spec fn request_decision(
    trusted: Map<Seq<char>, TrustedEntry>,
    policy: ConsentPolicy,
    key: Seq<char>,
    capability: SessionCapability,
    session_id: Option<SessionId>,
    answer: Option<bool>,
) -> RequestDecision {
    let control = capability is ConsoleControl;
    if session_id is None {
        RequestDecision::Ignore
    } else if control && !(policy is UnattendedConsole) {
        RequestDecision::Reject("this host only permits screenshot sessions"@)
    } else if identity_fault(key) is Some {
        RequestDecision::Reject("invalid client identity key"@)
    } else if control && !trusted::may_control_console(trusted, key) {
        RequestDecision::Reject("local console-control permission is required"@)
    } else {
        match consent_for(trusted, policy, key) {
            Consent::Allow => RequestDecision::Accept,
            Consent::Deny => RequestDecision::Reject("host operator denied the connection"@),
            Consent::AskOperator => match answer {
                None => RequestDecision::Ask,
                Some(true) => RequestDecision::Accept,
                Some(false) => RequestDecision::Reject("host operator denied the connection"@),
            },
        }
    }
}

/// Whether `entry` is what an approved client is remembered with: it may view,
/// and nothing else.
pub open spec fn is_first_use(entry: TrustedEntry) -> bool {
    &&& entry.name@ == "approved-on-connect"@
    &&& entry.can_view
    &&& !entry.can_control
    &&& !entry.can_unattended_console
}

/// What an approved client is remembered with.
pub fn first_use() -> (entry: TrustedEntry)
    ensures
        is_first_use(entry),
{
    TrustedEntry {
        name: "approved-on-connect".to_owned(),
        can_view: true,
        can_control: false,
        can_unattended_console: false,
    }
}

/// The packet that refuses a session.
pub open spec fn rejection(session_id: SessionId, reason: Seq<char>) -> SignalPacketView {
    SignalPacketView::SessionRejected { session_id, reason }
}

/// The packet with which the holder of `seed` sends the ephemeral key of `secret`.
pub open spec fn exchange_packet(session_id: SessionId, seed: Seq<u8>, secret: Seq<u8>) -> SignalPacketView {
    let public = session_keys::x25519_public(secret);
    SignalPacketView::SessionKeyExchange {
        session_id,
        ephemeral_public_key: encoding::base64_text(public),
        identity_public_key: encoding::base64_text(primitives::ed25519_public(seed)),
        signature: encoding::base64_text(primitives::ed25519_signature(seed, public)),
    }
}

/// Whether a peer reads the texts of an [`exchange_packet`] back, and finds that
/// the holder of `seed` signed the ephemeral key of `secret`.
pub open spec fn is_genuine(seed: Seq<u8>, secret: Seq<u8>) -> bool {
    let public = session_keys::x25519_public(secret);
    let identity = primitives::ed25519_public(seed);
    let signature = primitives::ed25519_signature(seed, public);
    &&& encoding::reads_back(public, 32)
    &&& encoding::reads_back(identity, 32)
    &&& encoding::reads_back(signature, 64)
    &&& primitives::ed25519_is_key(identity)
    &&& primitives::ed25519_verifies(identity, public, signature)
}

/// The packets that accept a session.
pub open spec fn acceptance(
    session_id: SessionId,
    seed: Seq<u8>,
    secret: Seq<u8>,
    console: Option<(HostConsoleState, u64)>,
) -> Seq<SignalPacketView> {
    let first = seq![
        SignalPacketView::SessionAccepted { session_id, role: SessionRole::Controller },
        exchange_packet(session_id, seed, secret),
    ];
    match console {
        Some((state, generation)) => first.push(
            SignalPacketView::HostConsoleState { session_id, state, generation },
        ),
        None => first,
    }
}

/// The state right after a session was accepted.
pub open spec fn accepted_session(
    session_id: SessionId,
    capability: SessionCapability,
    key: Seq<char>,
    secret: Seq<u8>,
) -> HostSession {
    HostSession {
        session_id: Some(session_id),
        capability: Some(capability),
        client: Some(encoding::fixed_bytes(key)),
        exchange: Some(secret),
        channel: None,
        last_capture: None,
    }
}

/// The fault of a client's key exchange.
pub open spec fn exchange_fault(
    session: HostSession,
    ephemeral: Seq<char>,
    identity: Seq<char>,
    signature: Seq<char>,
) -> Option<AgentErrorView> {
    if session.client is None {
        Some(AgentErrorView::Relay("key exchange before session request"@))
    } else if identity_fault(identity) is Some {
        identity_fault(identity)
    } else if encoding::fixed_bytes(identity) != session.client->0 {
        Some(AgentErrorView::Relay("client identity changed mid-handshake"@))
    } else if fixed_fault(ephemeral, 32) is Some {
        fixed_fault(ephemeral, 32)
    } else if fixed_fault(signature, 64) is Some {
        fixed_fault(signature, 64)
    } else if !primitives::ed25519_verifies(
        session.client->0,
        encoding::fixed_bytes(ephemeral),
        encoding::fixed_bytes(signature),
    ) {
        Some(AgentErrorView::Relay("client key exchange invalid: "@ + "invalid signature"@))
    } else if session.exchange is None {
        Some(AgentErrorView::Relay("missing local key exchange"@))
    } else {
        None
    }
}

/// The limits that a policy puts on captures: the least interval between two in
/// nanoseconds, and the most bytes of one.
pub open spec fn limits_of(policy: ConsentPolicy) -> Option<(nat, usize)> {
    match policy {
        ConsentPolicy::Prompt => None,
        ConsentPolicy::HeadlessTrustedOnly { min_capture_interval, max_capture_bytes, .. } => Some(
            (time::nanos(min_capture_interval), max_capture_bytes),
        ),
        ConsentPolicy::UnattendedConsole { min_capture_interval, max_capture_bytes, .. } => Some(
            (time::nanos(min_capture_interval), max_capture_bytes),
        ),
    }
}

/// The fault of a screenshot request that comes `since` after the last capture.
pub open spec fn screenshot_fault(
    session: HostSession,
    policy: ConsentPolicy,
    session_id: SessionId,
    since: Option<nat>,
) -> Option<AgentErrorView> {
    if session.session_id != Some(session_id) {
        Some(AgentErrorView::Relay("screenshot request does not match active session"@))
    } else if session.channel is None {
        Some(AgentErrorView::Relay("screenshot requested before key exchange"@))
    } else if limits_of(policy) is Some && since is Some && since->0 < (limits_of(policy)->0).0 {
        Some(
            AgentErrorView::Relay(
                "screenshot rate limited; wait before requesting another capture"@,
            ),
        )
    } else {
        None
    }
}

/// Whether a captured image of `len` bytes is refused before it is sealed.
pub open spec fn is_refused(session: HostSession, policy: ConsentPolicy, len: nat) -> bool {
    session.channel is None || (limits_of(policy) is Some && len > (limits_of(policy)->0).1)
}

/// The fault of a captured image of `len` bytes.
pub open spec fn image_fault(session: HostSession, policy: ConsentPolicy, len: nat) -> Option<
    AgentErrorView,
> {
    if session.channel is None {
        Some(AgentErrorView::Relay("screenshot requested before key exchange"@))
    } else if limits_of(policy) is Some && len > (limits_of(policy)->0).1 {
        Some(AgentErrorView::Relay("captured screenshot exceeds configured size limit"@))
    } else if !sealed::aead_fits(len) {
        Some(AgentErrorView::Relay("seal failed: "@ + ("encryption failed: "@ + "aead::Error"@)))
    } else if chunks::chunk_count(encoding::base64_len((len + sealed::NONCE_LEN + 16) as nat))
        > u32::MAX {
        Some(AgentErrorView::Relay("screenshot too large to chunk"@))
    } else {
        None
    }
}

/// Whether `packets` carry `image` sealed as `blob` under `key`: they are the
/// chunks of the base64 of the blob, and the blob opens to the image.
pub open spec fn carries_blob(
    packets: Seq<SignalPacketView>,
    session_id: SessionId,
    key: Seq<u8>,
    image: Seq<u8>,
    blob: Seq<u8>,
) -> bool {
    &&& sealed::is_sealing(key, image, blob)
    &&& sealed::opened(key, blob) == Some(image)
    &&& encoding::decodes_back(blob)
    &&& packets == chunks::chunk_packets(session_id, encoding::base64_text(blob))
}

/// Whether `packets` carry `image` sealed under `key`.
pub open spec fn carries(
    packets: Seq<SignalPacketView>,
    session_id: SessionId,
    key: Seq<u8>,
    image: Seq<u8>,
) -> bool {
    exists|blob: Seq<u8>| #[trigger] carries_blob(packets, session_id, key, image, blob)
}

/// The reason given for a screenshot that failed.
pub open spec fn failure_reason(fault: AgentErrorView) -> Seq<char> {
    "screenshot unavailable: "@ + fault.text()
}

/// The fault of a console input.
pub open spec fn input_fault(
    session: HostSession,
    policy: ConsentPolicy,
    session_id: SessionId,
    payload: Seq<char>,
) -> Option<AgentErrorView> {
    if session.session_id != Some(session_id) || session.capability != Some(
        SessionCapability::ConsoleControl,
    ) {
        Some(AgentErrorView::Relay("console input does not match an active control session"@))
    } else if !(policy is UnattendedConsole) {
        Some(AgentErrorView::Relay("console input is unavailable for this host"@))
    } else if vstd::utf8::encode_utf8(payload).len() > MAX_CONSOLE_INPUT {
        Some(AgentErrorView::Relay("console input exceeds size limit"@))
    } else if session.channel is None {
        Some(AgentErrorView::Relay("console input arrived before key exchange"@))
    } else {
        match encoding::base64_decoded(payload) {
            Err(fault) => Some(AgentErrorView::Base64(fault)),
            Ok(blob) => if sealed::opened(session.channel->0, blob) is Some {
                None
            } else {
                Some(
                    AgentErrorView::Relay(
                        "console input decrypt failed: "@ + ("decryption failed: "@ + (
                        if blob.len() < sealed::NONCE_LEN {
                            "sealed message too short"@
                        } else {
                            "aead::Error"@
                        })),
                    ),
                )
            },
        }
    }
}

/// How a session request changes the host and what comes of it.
///
/// A request that is not accepted changes nothing. An accepted one starts the
/// session anew; an unknown client that the operator approved is remembered.
pub open spec fn request_handled(
    before: &ScreenshotHost,
    after: &ScreenshotHost,
    key: Seq<char>,
    capability: SessionCapability,
    session_id: Option<SessionId>,
    answer: Option<bool>,
    console: Option<(HostConsoleState, u64)>,
    action: HostAction,
) -> bool {
    let trusted = before.trusted_map();
    let policy = before.consent_policy();
    let unchanged = after.session() == before.session() && after.trusted_map() == trusted;
    &&& after.seed() == before.seed()
    &&& after.consent_policy() == policy
    &&& match request_decision(trusted, policy, key, capability, session_id, answer) {
        RequestDecision::Ignore => {
            &&& action matches HostAction::Reply(p) && p@.len() == 0
            &&& unchanged
        },
        RequestDecision::Reject(reason) => {
            &&& action matches HostAction::Reply(p) && packets::packet_views(p@) == seq![
                rejection(session_id->0, reason),
            ]
            &&& unchanged
        },
        RequestDecision::Ask => {
            &&& action is AskOperator
            &&& unchanged
        },
        RequestDecision::Accept => {
            let secret = after.session().exchange->0;
            &&& secret.len() == 32
            &&& is_genuine(before.seed(), secret)
            &&& after.session() == accepted_session(session_id->0, capability, key, secret)
            &&& action matches HostAction::Reply(p) && packets::packet_views(p@) == acceptance(
                session_id->0,
                before.seed(),
                secret,
                console,
            )
            &&& if consent_for(trusted, policy, key) is AskOperator {
                exists|entry: TrustedEntry| #[trigger]
                    is_first_use(entry) && after.trusted_map() == trusted.insert(
                        text::trimmed(key),
                        entry,
                    )
            } else {
                after.trusted_map() == trusted
            }
        },
    }
}

/// Whether an action sends nothing and asks for nothing.
pub open spec fn is_silent(action: HostAction) -> bool {
    action matches HostAction::Reply(p) && p@.len() == 0
}

/// How a key exchange is handled: on success the session has a sealed channel,
/// on failure nothing changes.
pub open spec fn exchange_handled(
    before: &ScreenshotHost,
    after: &ScreenshotHost,
    ephemeral: Seq<char>,
    identity: Seq<char>,
    signature: Seq<char>,
    r: AgentResult<HostAction>,
) -> bool {
    let fault = exchange_fault(before.session(), ephemeral, identity, signature);
    &&& error::fails_with(r, fault)
    &&& r matches Ok(action) ==> is_silent(action)
    &&& after.same_host(before)
    &&& fault is Some ==> after.session() == before.session()
    &&& fault is None ==> after.session() == (HostSession {
        exchange: None,
        channel: Some(
            handshake::exchanged_key(
                before.session().exchange->0,
                encoding::fixed_bytes(ephemeral),
            ),
        ),
        ..before.session()
    })
    &&& fault is None ==> handshake::is_shared(
        after.session().channel->0,
        before.session().exchange->0,
        encoding::fixed_bytes(ephemeral),
    )
}

/// How a console input is handled: it is replayed if it has no fault, and
/// dropped without an answer otherwise.
pub open spec fn input_handled(
    before: &ScreenshotHost,
    after: &ScreenshotHost,
    session_id: SessionId,
    payload: Seq<char>,
    r: AgentResult<HostAction>,
) -> bool {
    &&& after.session() == before.session()
    &&& r is Ok
    &&& if input_fault(before.session(), before.consent_policy(), session_id, payload) is Some {
        is_silent(r->Ok_0)
    } else {
        r->Ok_0 matches HostAction::Inject(event) && Some(event@) == sealed::opened(
            before.session().channel->0,
            encoding::base64_decoded(payload)->Ok_0,
        )
    }
}

/// The fault of a screenshot request at `now`.
pub open spec fn fault_at(
    session: HostSession,
    policy: ConsentPolicy,
    session_id: SessionId,
    now: Instant,
) -> Option<AgentErrorView> {
    screenshot_fault(session, policy, session_id, time::since(now, session.last_capture))
}

/// How a screenshot request at `now` is handled.
pub open spec fn screenshot_handled(
    before: &ScreenshotHost,
    after: &ScreenshotHost,
    session_id: SessionId,
    now: Instant,
    r: AgentResult<HostAction>,
) -> bool {
    &&& r is Ok
    &&& match fault_at(before.session(), before.consent_policy(), session_id, now) {
        None => {
            &&& r->Ok_0 matches HostAction::Capture(sid) && sid == session_id
            &&& after.session() == before.session()
        },
        Some(fault) => {
            &&& r->Ok_0 matches HostAction::Reply(p) && packets::packet_views(p@) == seq![
                rejection(session_id, failure_reason(fault)),
            ]
            &&& after.session() == no_session()
        },
    }
}

/// The session after an image was captured at `now`: under a limit, the next
/// interval is measured from then.
pub open spec fn captured_at(session: HostSession, policy: ConsentPolicy, now: Instant) -> HostSession {
    HostSession {
        last_capture: if limits_of(policy) is Some {
            Some(now)
        } else {
            session.last_capture
        },
        ..session
    }
}

/// How an image that was captured at `now` is sealed.
///
/// An image that is refused before it is sealed leaves the session as it was. One
/// that cannot be sealed or chunked counts as captured.
pub open spec fn image_sealed(
    before: &ScreenshotHost,
    after: &ScreenshotHost,
    session_id: SessionId,
    image: Seq<u8>,
    now: Instant,
    r: AgentResult<Vec<SignalPacket>>,
) -> bool {
    let session = before.session();
    let policy = before.consent_policy();
    &&& after.same_host(before)
    &&& error::fails_with(r, image_fault(session, policy, image.len()))
    &&& r matches Ok(frames) ==> carries(
        packets::packet_views(frames@),
        session_id,
        session.channel->0,
        image,
    )
    &&& after.session() == (if is_refused(session, policy, image.len()) {
        session
    } else {
        captured_at(session, policy, now)
    })
}

/// How the outcome of a capture at `now` is handled: the client gets the image, or
/// the session ends and the client is told why.
pub open spec fn capture_handled(
    before: &ScreenshotHost,
    after: &ScreenshotHost,
    session_id: SessionId,
    captured: AgentResult<Vec<u8>>,
    now: Instant,
    reply: Seq<SignalPacket>,
) -> bool {
    let session = before.session();
    let policy = before.consent_policy();
    let fault = match captured {
        Ok(image) => image_fault(session, policy, image@.len()),
        Err(e) => Some(e@),
    };
    &&& after.same_host(before)
    &&& match fault {
        None => {
            &&& carries(
                packets::packet_views(reply),
                session_id,
                session.channel->0,
                captured->Ok_0@,
            )
            &&& after.session() == captured_at(session, policy, now)
        },
        Some(fault) => {
            &&& packets::packet_views(reply) == seq![rejection(session_id, failure_reason(fault))]
            &&& after.session() == no_session()
        },
    }
}

/// Captures under a limit keep their distance: a request is served only if the
/// last capture was taken at least the least interval before.
pub proof fn captures_are_spaced(
    session: HostSession,
    policy: ConsentPolicy,
    session_id: SessionId,
    last: Instant,
    now: Instant,
)
    requires
        limits_of(policy) is Some,
    ensures
        fault_at(captured_at(session, policy, last), policy, session_id, now) is None
            ==> time::nanos_between(now, last) >= (limits_of(policy)->0).0,
{
}

/// A console-control session is accepted only on a host of the physical console,
/// and only for a client that the owner trusts to control it.
pub proof fn control_needs_permission(
    trusted: Map<Seq<char>, TrustedEntry>,
    policy: ConsentPolicy,
    key: Seq<char>,
    session_id: Option<SessionId>,
    answer: Option<bool>,
)
    ensures
        request_decision(
            trusted,
            policy,
            key,
            SessionCapability::ConsoleControl,
            session_id,
            answer,
        ) is Accept ==> policy is UnattendedConsole && trusted::may_control_console(trusted, key),
{
}

/// Without an operator at hand an unknown client is never admitted, whatever it
/// asks for and whatever answer is claimed.
pub proof fn unknown_client_needs_operator(
    trusted: Map<Seq<char>, TrustedEntry>,
    policy: ConsentPolicy,
    key: Seq<char>,
    capability: SessionCapability,
    session_id: Option<SessionId>,
    answer: Option<bool>,
)
    requires
        !trusted.contains_key(text::trimmed(key)),
    ensures
        request_decision(trusted, policy, key, capability, session_id, answer) is Accept ==> policy
            is Prompt && answer == Some(true),
{
}

/// A client that may not view is never admitted once it is in the store; on the
/// physical console one without the owner's opt-in is not either.
pub proof fn viewing_needs_permission(
    trusted: Map<Seq<char>, TrustedEntry>,
    policy: ConsentPolicy,
    key: Seq<char>,
    capability: SessionCapability,
    session_id: Option<SessionId>,
    answer: Option<bool>,
)
    requires
        trusted.contains_key(text::trimmed(key)),
    ensures
        request_decision(trusted, policy, key, capability, session_id, answer) is Accept ==> {
            &&& trusted[text::trimmed(key)].can_view
            &&& policy is UnattendedConsole ==> trusted[text::trimmed(key)].can_unattended_console
        },
{
}

/// Input reaches the console only in a control session of a physical-console
/// host, and only if it was sealed under the session's channel key.
pub proof fn input_needs_control_session(
    session: HostSession,
    policy: ConsentPolicy,
    session_id: SessionId,
    payload: Seq<char>,
)
    ensures
        input_fault(session, policy, session_id, payload) is None ==> {
            &&& policy is UnattendedConsole
            &&& session.session_id == Some(session_id)
            &&& session.capability == Some(SessionCapability::ConsoleControl)
            &&& session.channel is Some
            &&& sealed::opened(
                session.channel->0,
                encoding::base64_decoded(payload)->Ok_0,
            ) is Some
        },
{
}

impl ScreenshotHost {
    /// The secret seed of the host's identity.
    pub closed spec fn seed(&self) -> Seq<u8> {
        self.identity.seed()
    }

    /// The trusted clients.
    pub closed spec fn trusted_map(&self) -> Map<Seq<char>, TrustedEntry> {
        self.trusted@
    }

    /// The policy.
    pub closed spec fn consent_policy(&self) -> ConsentPolicy {
        self.policy
    }

    /// The state of the active session.
    pub closed spec fn session(&self) -> HostSession {
        HostSession {
            session_id: self.session_id,
            capability: self.capability,
            client: match self.client_identity {
                Some(key) => Some(key@),
                None => None,
            },
            exchange: match self.local_kex {
                Some(kex) => Some(kex.secret()),
                None => None,
            },
            channel: match self.channel {
                Some(channel) => Some(channel@),
                None => None,
            },
            last_capture: self.last_capture,
        }
    }

    /// Whether only the session differs between two states of the host.
    pub open spec fn same_host(&self, other: &Self) -> bool {
        &&& self.seed() == other.seed()
        &&& self.trusted_map() == other.trusted_map()
        &&& self.consent_policy() == other.consent_policy()
    }

    /// Create a host handler from the device signing key and the trusted store. A
    /// client reads the host's identity key back from its base64 text.
    pub fn new(signing_key: SigningKey, trusted: TrustedClients, policy: ConsentPolicy) -> (host:
        Self)
        ensures
            host.seed() == signing_key@,
            host.trusted_map() == trusted@,
            host.consent_policy() == policy,
            host.session() == no_session(),
            encoding::reads_back(primitives::ed25519_public(signing_key@), 32),
            primitives::ed25519_is_key(primitives::ed25519_public(signing_key@)),
    {
        ScreenshotHost {
            identity: HostIdentity::new(signing_key),
            trusted,
            policy,
            session_id: None,
            capability: None,
            client_identity: None,
            local_kex: None,
            channel: None,
            last_capture: None,
        }
    }

    /// The trusted clients.
    pub fn trusted(&self) -> (trusted: &TrustedClients)
        ensures
            trusted@ == self.trusted_map(),
    {
        &self.trusted
    }

    /// Add (or replace) a trusted client.
    pub fn trust(&mut self, public_key_b64: &str, entry: TrustedEntry)
        ensures
            final(self).trusted_map() == old(self).trusted_map().insert(
                text::trimmed(public_key_b64@),
                entry,
            ),
            final(self).seed() == old(self).seed(),
            final(self).consent_policy() == old(self).consent_policy(),
            final(self).session() == old(self).session(),
    {
        self.trusted.trust(public_key_b64, entry);
    }

    /// The policy.
    pub fn policy(&self) -> (policy: ConsentPolicy)
        ensures
            policy == self.consent_policy(),
    {
        self.policy
    }

    /// The active session.
    pub fn active_session(&self) -> (session_id: Option<SessionId>)
        ensures
            session_id == self.session().session_id,
    {
        self.session_id
    }

    /// Reset all per-session state (after close or failure).
    pub fn reset(&mut self)
        ensures
            final(self).session() == no_session(),
            final(self).same_host(old(self)),
    {
        self.session_id = None;
        self.capability = None;
        self.client_identity = None;
        self.local_kex = None;
        self.channel = None;
        self.last_capture = None;
    }

    /// What the trusted store and the policy say of a client.
    pub fn consent(&self, client_key_b64: &str) -> (consent: Consent)
        ensures
            consent == consent_for(self.trusted_map(), self.consent_policy(), client_key_b64@),
    {
        match self.trusted.get(client_key_b64) {
            Some(entry) => {
                let allowed = match self.policy {
                    ConsentPolicy::UnattendedConsole { .. } => {
                        self.trusted.may_view_unattended_console(client_key_b64)
                    },
                    _ => entry.can_view,
                };
                if allowed {
                    Consent::Allow
                } else {
                    Consent::Deny
                }
            },
            None => match self.policy {
                ConsentPolicy::Prompt => Consent::AskOperator,
                _ => Consent::Deny,
            },
        }
    }

    /// Handle an inbound `SessionRequest`.
    ///
    /// `answer` is the operator's answer, where the host asked for one before;
    /// `console` is the console state to report on acceptance. An unknown client
    /// that the operator approves is remembered as a viewer.
    pub fn on_session_request(
        &mut self,
        client_public_key: &str,
        requested_capability: SessionCapability,
        session_id: Option<SessionId>,
        answer: Option<bool>,
        console: Option<(HostConsoleState, u64)>,
    ) -> (action: HostAction)
        ensures
            request_handled(
                old(self),
                final(self),
                client_public_key@,
                requested_capability,
                session_id,
                answer,
                console,
                action,
            ),
    {
        let sid = match session_id {
            Some(sid) => sid,
            None => {
                return HostAction::Reply(Vec::new());
            },
        };
        let control = match requested_capability {
            SessionCapability::ConsoleControl => true,
            SessionCapability::Screenshot => false,
        };
        let physical = match self.policy {
            ConsentPolicy::UnattendedConsole { .. } => true,
            _ => false,
        };
        if control && !physical {
            return HostAction::Reply(
                reject(sid, "this host only permits screenshot sessions"),
            );
        }
        let client_identity = match parse_identity(client_public_key) {
            Ok(key) => key,
            Err(_) => {
                return HostAction::Reply(reject(sid, "invalid client identity key"));
            },
        };
        if control && !self.trusted.may_control_unattended_console(client_public_key) {
            return HostAction::Reply(
                reject(sid, "local console-control permission is required"),
            );
        }
        match self.consent(client_public_key) {
            Consent::Allow => {},
            Consent::Deny => {
                return HostAction::Reply(reject(sid, "host operator denied the connection"));
            },
            Consent::AskOperator => match answer {
                None => {
                    return HostAction::AskOperator;
                },
                Some(false) => {
                    return HostAction::Reply(reject(sid, "host operator denied the connection"));
                },
                Some(true) => {
                    let entry = first_use();
                    self.trusted.trust(client_public_key, entry);
                },
            },
        }
        self.reset();
        self.session_id = Some(sid);
        self.capability = Some(requested_capability);
        self.client_identity = Some(client_identity);
        let kex = handshake::start(&self.identity.signing_key);
        let exchange = self.key_exchange_packet(sid, &kex);
        self.local_kex = Some(kex);
        let mut outgoing: Vec<SignalPacket> = Vec::new();
        outgoing.push(
            SignalPacket::SessionAccepted { session_id: sid, role: SessionRole::Controller },
        );
        outgoing.push(exchange);
        if let Some((state, generation)) = console {
            outgoing.push(SignalPacket::HostConsoleState { session_id: sid, state, generation });
        }
        assert(packets::packet_views(outgoing@) =~= acceptance(
            sid,
            self.seed(),
            self.session().exchange->0,
            console,
        ));
        HostAction::Reply(outgoing)
    }

    /// Handle the client's `SessionKeyExchange`: on success the session has a
    /// sealed channel, on failure nothing changes.
    pub fn on_key_exchange(
        &mut self,
        ephemeral_public_key: &str,
        identity_public_key: &str,
        signature: &str,
    ) -> (r: AgentResult<()>)
        ensures
            final(self).same_host(old(self)),
            error::fails_with(
                r,
                exchange_fault(
                    old(self).session(),
                    ephemeral_public_key@,
                    identity_public_key@,
                    signature@,
                ),
            ),
            r is Err ==> final(self).session() == old(self).session(),
            r is Ok ==> final(self).session() == (HostSession {
                exchange: None,
                channel: Some(
                    handshake::exchanged_key(
                        old(self).session().exchange->0,
                        encoding::fixed_bytes(ephemeral_public_key@),
                    ),
                ),
                ..old(self).session()
            }),
            r is Ok ==> handshake::is_shared(
                final(self).session().channel->0,
                old(self).session().exchange->0,
                encoding::fixed_bytes(ephemeral_public_key@),
            ),
    {
        let client_identity = match &self.client_identity {
            Some(key) => key.clone(),
            None => {
                return Err(relay_error("key exchange before session request"));
            },
        };
        let asserted = match parse_identity(identity_public_key) {
            Ok(key) => key,
            Err(e) => {
                return Err(e);
            },
        };
        if !same_bytes(&asserted.to_bytes(), &client_identity.to_bytes()) {
            return Err(relay_error("client identity changed mid-handshake"));
        }
        let peer_eph = match decode_32(ephemeral_public_key) {
            Ok(bytes) => bytes,
            Err(e) => {
                return Err(e);
            },
        };
        let peer_sig = match decode_64(signature) {
            Ok(bytes) => bytes,
            Err(e) => {
                return Err(e);
            },
        };
        match handshake::verify_peer(&client_identity, &peer_eph, &peer_sig) {
            Ok(()) => {},
            Err(e) => {
                return Err(
                    AgentError::Relay(
                        joined("client key exchange invalid: ", e.to_string().as_str()),
                    ),
                );
            },
        }
        match self.local_kex.take() {
            Some(kex) => {
                self.channel = Some(kex.into_channel(&peer_eph));
                Ok(())
            },
            None => Err(relay_error("missing local key exchange")),
        }
    }

    /// Whether a screenshot may be captured for the session now.
    pub fn on_screenshot_request(&self, session_id: SessionId) -> (r: AgentResult<()>)
        ensures
            exists|now: Instant|
                error::fails_with(
                    r,
                    #[trigger] fault_at(self.session(), self.consent_policy(), session_id, now),
                ),
    {
        let now = Instant::now();
        self.screenshot_at(session_id, &now)
    }

    /// [`ScreenshotHost::on_screenshot_request`] at a given time.
    pub fn screenshot_at(&self, session_id: SessionId, now: &Instant) -> (r: AgentResult<()>)
        ensures
            error::fails_with(
                r,
                fault_at(self.session(), self.consent_policy(), session_id, *now),
            ),
    {
        let since = time_since(now, &self.last_capture);
        self.screenshot_after(session_id, since)
    }

    /// [`ScreenshotHost::on_screenshot_request`] at a given time after the last
    /// capture.
    pub fn screenshot_after(&self, session_id: SessionId, since: Option<Duration>) -> (r:
        AgentResult<()>)
        ensures
            error::fails_with(
                r,
                screenshot_fault(
                    self.session(),
                    self.consent_policy(),
                    session_id,
                    time::length(since),
                ),
            ),
    {
        let active = match self.session_id {
            Some(active) => active == session_id,
            None => false,
        };
        if !active {
            return Err(relay_error("screenshot request does not match active session"));
        }
        if self.channel.is_none() {
            return Err(relay_error("screenshot requested before key exchange"));
        }
        if let Some((min_capture_interval, _)) = capture_limits(self.policy) {
            if let Some(elapsed) = since {
                if elapsed.as_nanos() < min_capture_interval.as_nanos() {
                    return Err(
                        relay_error(
                            "screenshot rate limited; wait before requesting another capture",
                        ),
                    );
                }
            }
        }
        Ok(())
    }

    /// Seal an image that was captured now and split it into packets.
    pub fn seal_screenshot(&mut self, session_id: SessionId, image: &[u8]) -> (r: AgentResult<
        Vec<SignalPacket>,
    >)
        requires
            encoding::base64_len((image@.len() + sealed::NONCE_LEN + 16) as nat)
                + chunks::CHUNK_CHARS <= isize::MAX,
        ensures
            exists|now: Instant| #[trigger]
                image_sealed(old(self), final(self), session_id, image@, now, r),
    {
        let now = Instant::now();
        self.seal_screenshot_at(session_id, image, &now)
    }

    /// Seal an image that was captured at the given time and split it into packets.
    pub fn seal_screenshot_at(&mut self, session_id: SessionId, image: &[u8], now: &Instant) -> (r:
        AgentResult<Vec<SignalPacket>>)
        requires
            encoding::base64_len((image@.len() + sealed::NONCE_LEN + 16) as nat)
                + chunks::CHUNK_CHARS <= isize::MAX,
        ensures
            image_sealed(old(self), final(self), session_id, image@, *now, r),
    {
        let channel = match &self.channel {
            Some(channel) => channel,
            None => {
                return Err(relay_error("screenshot requested before key exchange"));
            },
        };
        if let Some((_, max_capture_bytes)) = capture_limits(self.policy) {
            if image.len() > max_capture_bytes {
                return Err(relay_error("captured screenshot exceeds configured size limit"));
            }
            self.last_capture = Some(*now);
        }
        let blob = match channel.seal(image) {
            Ok(blob) => blob,
            Err(e) => {
                return Err(AgentError::Relay(joined("seal failed: ", e.to_string().as_str())));
            },
        };
        let b64 = encoding::encode(blob.as_slice());
        proof {
            assert forall|i: int| 0 <= i < b64@.len() implies '\0' <= #[trigger] b64@[i]
                <= '\u{7f}' by {
                assert(encoding::is_base64_char(b64@[i]));
            }
        }
        match chunk_payload(session_id, b64.as_str()) {
            Some(frames) => {
                assert(carries_blob(
                    packets::packet_views(frames@),
                    session_id,
                    self.session().channel->0,
                    image@,
                    blob@,
                ));
                Ok(frames)
            },
            None => Err(relay_error("screenshot too large to chunk")),
        }
    }

    /// Give up a screenshot: the session ends, and the client is told why.
    pub fn fail_screenshot(&mut self, session_id: SessionId, e: &AgentError) -> (reply: Vec<
        SignalPacket,
    >)
        ensures
            final(self).same_host(old(self)),
            final(self).session() == no_session(),
            packets::packet_views(reply@) == seq![rejection(session_id, failure_reason(e@))],
    {
        self.reset();
        reject(session_id, joined("screenshot unavailable: ", e.to_string().as_str()).as_str())
    }

    /// Take the outcome of a capture: the packets to send. Failures end the
    /// session, not the agent.
    pub fn on_captured(&mut self, session_id: SessionId, captured: AgentResult<Vec<u8>>) -> (reply:
        Vec<SignalPacket>)
        requires
            captured matches Ok(image) ==> encoding::base64_len(
                (image@.len() + sealed::NONCE_LEN + 16) as nat,
            ) + chunks::CHUNK_CHARS <= isize::MAX,
        ensures
            exists|now: Instant| #[trigger]
                capture_handled(old(self), final(self), session_id, captured, now, reply@),
    {
        let now = Instant::now();
        self.on_captured_at(session_id, captured, &now)
    }

    /// [`ScreenshotHost::on_captured`] at a given time.
    pub fn on_captured_at(
        &mut self,
        session_id: SessionId,
        captured: AgentResult<Vec<u8>>,
        now: &Instant,
    ) -> (reply: Vec<SignalPacket>)
        requires
            captured matches Ok(image) ==> encoding::base64_len(
                (image@.len() + sealed::NONCE_LEN + 16) as nat,
            ) + chunks::CHUNK_CHARS <= isize::MAX,
        ensures
            capture_handled(old(self), final(self), session_id, captured, *now, reply@),
    {
        match captured {
            Ok(image) => match self.seal_screenshot_at(session_id, image.as_slice(), now) {
                Ok(frames) => frames,
                Err(e) => self.fail_screenshot(session_id, &e),
            },
            Err(e) => self.fail_screenshot(session_id, &e),
        }
    }

    /// Decrypt a console input: the bytes of the event.
    pub fn on_console_input(&self, session_id: SessionId, payload: &str) -> (r: AgentResult<
        Vec<u8>,
    >)
        ensures
            error::fails_with(
                r,
                input_fault(self.session(), self.consent_policy(), session_id, payload@),
            ),
            r matches Ok(event) ==> Some(event@) == sealed::opened(
                self.session().channel->0,
                encoding::base64_decoded(payload@)->Ok_0,
            ),
    {
        let active = match self.session_id {
            Some(active) => active == session_id,
            None => false,
        };
        let control = match self.capability {
            Some(SessionCapability::ConsoleControl) => true,
            _ => false,
        };
        if !active || !control {
            return Err(relay_error("console input does not match an active control session"));
        }
        let physical = match self.policy {
            ConsentPolicy::UnattendedConsole { .. } => true,
            _ => false,
        };
        if !physical {
            return Err(relay_error("console input is unavailable for this host"));
        }
        if byte_len(payload) > MAX_CONSOLE_INPUT {
            return Err(relay_error("console input exceeds size limit"));
        }
        let channel = match &self.channel {
            Some(channel) => channel,
            None => {
                return Err(relay_error("console input arrived before key exchange"));
            },
        };
        let blob = match base64_decode(payload) {
            Ok(blob) => blob,
            Err(fault) => {
                return Err(AgentError::Base64(fault));
            },
        };
        match channel.open(blob.as_slice()) {
            Ok(event) => Ok(event),
            Err(e) => Err(
                AgentError::Relay(joined("console input decrypt failed: ", e.to_string().as_str())),
            ),
        }
    }

    fn handle_screenshot_request(&mut self, session_id: SessionId) -> (r: AgentResult<HostAction>)
        ensures
            final(self).same_host(old(self)),
            exists|now: Instant| #[trigger]
                screenshot_handled(old(self), final(self), session_id, now, r),
    {
        let now = Instant::now();
        let r = match self.screenshot_at(session_id, &now) {
            Ok(()) => Ok(HostAction::Capture(session_id)),
            Err(e) => Ok(HostAction::Reply(self.fail_screenshot(session_id, &e))),
        };
        assert(screenshot_handled(old(self), self, session_id, now, r));
        r
    }

    /// Take a packet from the relay, and say what is to be done next.
    ///
    /// A failed screenshot request ends the session and is answered; a refused
    /// console input is dropped without an answer; a failed key exchange is an
    /// error.
    pub fn handle(&mut self, packet: &SignalPacket, console: Option<(HostConsoleState, u64)>) -> (r:
        AgentResult<HostAction>)
        ensures
            packet matches SignalPacket::SessionRequest {
                client_public_key,
                requested_capability,
                session_id,
                ..
            } ==> (r matches Ok(action) && request_handled(
                old(self),
                final(self),
                client_public_key@,
                *requested_capability,
                *session_id,
                None,
                console,
                action,
            )),
            packet matches SignalPacket::SessionKeyExchange {
                ephemeral_public_key,
                identity_public_key,
                signature,
                ..
            } ==> exchange_handled(
                old(self),
                final(self),
                ephemeral_public_key@,
                identity_public_key@,
                signature@,
                r,
            ),
            packet matches SignalPacket::ScreenshotRequest { session_id } ==> final(self).same_host(old(self)) && exists|now: Instant| #[trigger]
                screenshot_handled(old(self), final(self), *session_id, now, r),
            packet matches SignalPacket::ConsoleInput { session_id, payload } ==> final(self).same_host(old(self)) && input_handled(
                old(self),
                final(self),
                *session_id,
                payload@,
                r,
            ),
            packet is SessionClosed ==> {
                &&& final(self).same_host(old(self))
                &&& final(self).session() == no_session()
                &&& r is Ok && is_silent(r->Ok_0)
            },
            !(packet is SessionRequest || packet is SessionKeyExchange || packet
                is ScreenshotRequest || packet is ConsoleInput || packet is SessionClosed) ==> {
                &&& final(self).same_host(old(self))
                &&& final(self).session() == old(self).session()
                &&& r is Ok && is_silent(r->Ok_0)
            },
    {
        match packet {
            SignalPacket::SessionRequest {
                client_public_key,
                requested_capability,
                session_id,
                ..
            } => Ok(
                self.on_session_request(
                    client_public_key.as_str(),
                    *requested_capability,
                    *session_id,
                    None,
                    console,
                ),
            ),
            SignalPacket::SessionKeyExchange {
                ephemeral_public_key,
                identity_public_key,
                signature,
                ..
            } => match self.on_key_exchange(
                ephemeral_public_key.as_str(),
                identity_public_key.as_str(),
                signature.as_str(),
            ) {
                Ok(()) => Ok(HostAction::Reply(Vec::new())),
                Err(e) => Err(e),
            },
            SignalPacket::ScreenshotRequest { session_id } => self.handle_screenshot_request(*session_id),
            SignalPacket::ConsoleInput { session_id, payload } => {
                match self.on_console_input(*session_id, payload.as_str()) {
                    Ok(event) => Ok(HostAction::Inject(event)),
                    Err(_) => Ok(HostAction::Reply(Vec::new())),
                }
            },
            SignalPacket::SessionClosed { .. } => {
                self.reset();
                Ok(HostAction::Reply(Vec::new()))
            },
            _ => Ok(HostAction::Reply(Vec::new())),
        }
    }

    fn key_exchange_packet(&self, session_id: SessionId, kex: &LocalKeyExchange) -> (packet:
        SignalPacket)
        requires
            kex.public() == session_keys::x25519_public(kex.secret()),
            kex.signed() == primitives::ed25519_signature(self.seed(), kex.public()),
            primitives::ed25519_verifies(
                primitives::ed25519_public(self.seed()),
                kex.public(),
                kex.signed(),
            ),
        ensures
            packet@ == exchange_packet(session_id, self.seed(), kex.secret()),
            is_genuine(self.seed(), kex.secret()),
    {
        SignalPacket::SessionKeyExchange {
            session_id,
            ephemeral_public_key: encoding::encode(kex.ephemeral_public()),
            identity_public_key: self.identity.public_text(),
            signature: encoding::encode(kex.signature()),
        }
    }
}

/// Whether two keys are the same bytes.
fn same_bytes(a: &[u8; 32], b: &[u8; 32]) -> (same: bool)
    ensures
        same == (a@ == b@),
{
    let mut i: usize = 0;
    while i < 32
        invariant
            i <= 32,
            forall|j: int| 0 <= j < i ==> a@[j] == b@[j],
        decreases 32 - i,
    {
        if a[i] != b[i] {
            return false;
        }
        i = i + 1;
    }
    assert(a@ =~= b@);
    true
}

/// Whether `code` is a normalized key code: 1 to 64 letters, digits and hyphens.
pub open spec fn is_key_code(code: Seq<char>) -> bool {
    &&& 1 <= code.len() <= MAX_KEY_CODE
    &&& forall|i: int| 0 <= i < code.len() ==> is_key_char(#[trigger] code[i])
}

/// Whether `c` may stand in a key code.
pub open spec fn is_key_char(c: char) -> bool {
    'a' <= c <= 'z' || 'A' <= c <= 'Z' || '0' <= c <= '9' || c == '-'
}

/// Whether `code` is a normalized key code.
pub fn is_valid_key_code(code: &str) -> (valid: bool)
    ensures
        valid == is_key_code(code@),
{
    let v = chars_of(code);
    if v.len() == 0 || v.len() > MAX_KEY_CODE {
        return false;
    }
    let mut i: usize = 0;
    while i < v.len()
        invariant
            i <= v@.len(),
            v@ == code@,
            forall|j: int| 0 <= j < i ==> is_key_char(#[trigger] v@[j]),
        decreases v@.len() - i,
    {
        let c: char = v[i];
        let allowed = ('a' <= c && c <= 'z') || ('A' <= c && c <= 'Z') || ('0' <= c && c <= '9')
            || c == '-';
        if !allowed {
            return false;
        }
        i = i + 1;
    }
    true
}

/// Refuses a key event whose code is no normalized key code.
pub fn validate_console_input(event: &ConsoleInputPacket) -> (r: AgentResult<()>)
    ensures
        error::fails_with(
            r,
            match *event {
                ConsoleInputPacket::Key { code, .. } => if is_key_code(code@) {
                    None
                } else {
                    Some(AgentErrorView::Relay("invalid console key code"@))
                },
                _ => None,
            },
        ),
{
    if let ConsoleInputPacket::Key { code, .. } = event {
        if !is_valid_key_code(code.as_str()) {
            return Err(relay_error("invalid console key code"));
        }
    }
    Ok(())
}

/// The limits that a policy puts on captures.
pub fn capture_limits(policy: ConsentPolicy) -> (limits: Option<(Duration, usize)>)
    ensures
        limits is Some == limits_of(policy) is Some,
        limits matches Some((interval, bytes)) ==> limits_of(policy) == Some(
            (time::nanos(interval), bytes),
        ),
{
    match policy {
        ConsentPolicy::HeadlessTrustedOnly { min_capture_interval, max_capture_bytes, .. } => Some(
            (min_capture_interval, max_capture_bytes),
        ),
        ConsentPolicy::UnattendedConsole { min_capture_interval, max_capture_bytes, .. } => Some(
            (min_capture_interval, max_capture_bytes),
        ),
        ConsentPolicy::Prompt => None,
    }
}

/// The reply that refuses a session.
fn reject(session_id: SessionId, reason: &str) -> (reply: Vec<SignalPacket>)
    ensures
        packets::packet_views(reply@) == seq![rejection(session_id, reason@)],
{
    let mut reply: Vec<SignalPacket> = Vec::new();
    reply.push(SignalPacket::SessionRejected { session_id, reason: reason.to_owned() });
    assert(packets::packet_views(reply@) =~= seq![rejection(session_id, reason@)]);
    reply
}

/// What a session request needs whatever it asks for: a session of the relay, and an
/// identity key.
pub open spec fn is_presentable(key: Seq<char>, session_id: Option<SessionId>) -> bool {
    session_id is Some && identity_fault(key) is None
}

/// A client that the owner trusts to view is admitted to a screenshot session
/// without a question; on the physical console it needs the owner's opt-in besides,
/// and to control it the right to control as well.
pub proof fn trusted_client_is_admitted(
    trusted: Map<Seq<char>, TrustedEntry>,
    policy: ConsentPolicy,
    key: Seq<char>,
    capability: SessionCapability,
    session_id: Option<SessionId>,
    answer: Option<bool>,
)
    requires
        is_presentable(key, session_id),
        trusted.contains_key(text::trimmed(key)),
    ensures
        ({
            let entry = trusted[text::trimmed(key)];
            let decision = request_decision(trusted, policy, key, capability, session_id, answer);
            &&& decision is Accept || decision is Reject
            &&& capability is Screenshot && !(policy is UnattendedConsole) ==> (
            decision is Accept <==> entry.can_view)
            &&& capability is Screenshot && policy is UnattendedConsole ==> (
            decision is Accept <==> entry.can_view && entry.can_unattended_console)
            &&& capability is ConsoleControl && policy is UnattendedConsole ==> (
            decision is Accept <==> entry.can_view && entry.can_unattended_console
                && entry.can_control)
            &&& capability is ConsoleControl && !(policy is UnattendedConsole) ==> decision
                is Reject
        }),
{
}

/// About an unknown client that asks for a screenshot session the operator decides:
/// without an answer the operator is asked, a yes admits the client, a no refuses it.
/// A host without an operator refuses.
pub proof fn operator_decides_about_strangers(
    trusted: Map<Seq<char>, TrustedEntry>,
    policy: ConsentPolicy,
    key: Seq<char>,
    session_id: Option<SessionId>,
    answer: Option<bool>,
)
    requires
        is_presentable(key, session_id),
        !trusted.contains_key(text::trimmed(key)),
    ensures
        ({
            let decision = request_decision(
                trusted,
                policy,
                key,
                SessionCapability::Screenshot,
                session_id,
                answer,
            );
            &&& policy is Prompt && answer is None ==> decision is Ask
            &&& policy is Prompt && answer == Some(true) ==> decision is Accept
            &&& policy is Prompt && answer == Some(false) ==> decision is Reject
            &&& !(policy is Prompt) ==> decision is Reject
        }),
{
}

/// A refusal says why: the host does not permit control, the key is no key, the
/// client may not control, or it was denied. Without a session there is nobody to
/// answer.
pub proof fn refusals_say_why(
    trusted: Map<Seq<char>, TrustedEntry>,
    policy: ConsentPolicy,
    key: Seq<char>,
    capability: SessionCapability,
    session_id: Option<SessionId>,
    answer: Option<bool>,
)
    ensures
        ({
            let decision = request_decision(trusted, policy, key, capability, session_id, answer);
            let physical = policy is UnattendedConsole;
            let control = capability is ConsoleControl;
            &&& decision is Ignore <==> session_id is None
            &&& decision matches RequestDecision::Reject(reason) ==> reason == (if control
                && !physical {
                "this host only permits screenshot sessions"@
            } else if identity_fault(key) is Some {
                "invalid client identity key"@
            } else if control && !trusted::may_control_console(trusted, key) {
                "local console-control permission is required"@
            } else {
                "host operator denied the connection"@
            })
            &&& session_id is Some && identity_fault(key) is Some ==> decision is Reject
        }),
{
}

/// What a request comes to: a refused or put off one changes nothing and is answered
/// by one refusal of the session, by a question to the operator, or not at all.
pub proof fn refused_request_changes_nothing(
    before: &ScreenshotHost,
    after: &ScreenshotHost,
    key: Seq<char>,
    capability: SessionCapability,
    session_id: Option<SessionId>,
    answer: Option<bool>,
    console: Option<(HostConsoleState, u64)>,
    action: HostAction,
)
    requires
        request_handled(before, after, key, capability, session_id, answer, console, action),
    ensures
        after.seed() == before.seed(),
        after.consent_policy() == before.consent_policy(),
        ({
            let decision = request_decision(
                before.trusted_map(),
                before.consent_policy(),
                key,
                capability,
                session_id,
                answer,
            );
            &&& !(decision is Accept) ==> after.session() == before.session() && after.trusted_map()
                == before.trusted_map()
            &&& decision is Ask <==> action is AskOperator
            &&& decision is Ignore ==> is_silent(action)
            &&& decision matches RequestDecision::Reject(reason) ==> (
            action matches HostAction::Reply(p) && p@.len() == 1 && (
            p@[0]@ matches SignalPacketView::SessionRejected { session_id: of, reason: said } && Some(
                of,
            ) == session_id && said == reason))
        }),
{
    if let HostAction::Reply(p) = action {
        if let RequestDecision::Reject(reason) = request_decision(
            before.trusted_map(),
            before.consent_policy(),
            key,
            capability,
            session_id,
            answer,
        ) {
            assert(packets::packet_views(p@).len() == 1);
            assert(packets::packet_views(p@)[0] == p@[0]@);
        }
    }
}

/// An accepted request starts a session anew: it has the identifier, the capability
/// and the client of the request, an ephemeral key of its own and no channel yet. The
/// client is told of the acceptance as a controller first, then gets the host's signed
/// ephemeral key, and then the state of the console if there is one to report.
pub proof fn accepted_request_starts_anew(
    before: &ScreenshotHost,
    after: &ScreenshotHost,
    key: Seq<char>,
    capability: SessionCapability,
    session_id: Option<SessionId>,
    answer: Option<bool>,
    console: Option<(HostConsoleState, u64)>,
    action: HostAction,
)
    requires
        request_handled(before, after, key, capability, session_id, answer, console, action),
        request_decision(
            before.trusted_map(),
            before.consent_policy(),
            key,
            capability,
            session_id,
            answer,
        ) is Accept,
    ensures
        after.session().session_id == session_id,
        after.session().capability == Some(capability),
        after.session().client == Some(encoding::fixed_bytes(key)),
        after.session().exchange is Some,
        after.session().channel is None,
        after.session().last_capture is None,
        action matches HostAction::Reply(p) && {
            let secret = after.session().exchange->0;
            let public = session_keys::x25519_public(secret);
            &&& p@.len() == (if console is Some {
                3int
            } else {
                2
            })
            &&& p@[0]@ matches SignalPacketView::SessionAccepted { session_id: of, role }
            &&& Some(of) == session_id && role == SessionRole::Controller
            &&& p@[1]@ matches SignalPacketView::SessionKeyExchange {
                session_id: of,
                ephemeral_public_key,
                identity_public_key,
                signature,
            }
            &&& Some(of) == session_id
            &&& ephemeral_public_key == encoding::base64_text(public)
            &&& identity_public_key == encoding::base64_text(
                primitives::ed25519_public(before.seed()),
            )
            &&& encoding::fixed_bytes(ephemeral_public_key) == public
            &&& primitives::ed25519_verifies(
                encoding::fixed_bytes(identity_public_key),
                public,
                encoding::fixed_bytes(signature),
            )
            &&& console matches Some((state, generation)) ==> (
            p@[2]@ matches SignalPacketView::HostConsoleState {
                session_id: of,
                state: told,
                generation: at,
            } && Some(of) == session_id && told == state && at == generation)
        },
{
    if let HostAction::Reply(p) = action {
        let views = packets::packet_views(p@);
        assert(views.len() == p@.len());
        assert forall|i: int| 0 <= i < views.len() implies views[i] == (#[trigger] p@[i])@ by {}
        assert(views[0] == p@[0]@);
        assert(views[1] == p@[1]@);
        if console is Some {
            assert(views[2] == p@[2]@);
        }
    }
}

/// Only an operator's yes adds to the trusted clients: the new one may view, and
/// neither control nor use the unattended console; all others stay as they were.
pub proof fn approval_trusts_to_view_only(
    before: &ScreenshotHost,
    after: &ScreenshotHost,
    key: Seq<char>,
    capability: SessionCapability,
    session_id: Option<SessionId>,
    answer: Option<bool>,
    console: Option<(HostConsoleState, u64)>,
    action: HostAction,
)
    requires
        request_handled(before, after, key, capability, session_id, answer, console, action),
    ensures
        before.trusted_map().contains_key(text::trimmed(key)) ==> after.trusted_map()
            == before.trusted_map(),
        answer != Some(true) ==> after.trusted_map() == before.trusted_map(),
        after.trusted_map() != before.trusted_map() ==> {
            let k = text::trimmed(key);
            &&& after.trusted_map().contains_key(k)
            &&& after.trusted_map()[k].can_view
            &&& !after.trusted_map()[k].can_control
            &&& !after.trusted_map()[k].can_unattended_console
            &&& after.trusted_map()[k].name@ == "approved-on-connect"@
            &&& after.trusted_map().remove(k) =~= before.trusted_map().remove(k)
        },
        is_presentable(key, session_id) && capability is Screenshot && before.consent_policy()
            is Prompt && answer == Some(true) ==> after.trusted_map().contains_key(
            text::trimmed(key),
        ) || before.trusted_map().contains_key(text::trimmed(key)),
{
}

/// A key exchange succeeds exactly if a session was accepted and still waits for it,
/// the client shows the identity that it was accepted under, and that identity signed
/// the ephemeral key.
pub proof fn exchange_is_bound_to_the_client(
    session: HostSession,
    ephemeral: Seq<char>,
    identity: Seq<char>,
    signature: Seq<char>,
)
    ensures
        exchange_fault(session, ephemeral, identity, signature) is None <==> {
            &&& session.client is Some
            &&& session.exchange is Some
            &&& identity_fault(identity) is None
            &&& session.client == Some(encoding::fixed_bytes(identity))
            &&& fixed_fault(ephemeral, 32) is None
            &&& fixed_fault(signature, 64) is None
            &&& primitives::ed25519_verifies(
                encoding::fixed_bytes(identity),
                encoding::fixed_bytes(ephemeral),
                encoding::fixed_bytes(signature),
            )
        },
{
}

/// After a successful exchange the session has a channel with the key that both
/// sides derive, and cannot exchange again; all else stays. A failed one changes
/// nothing and is an error.
pub proof fn exchange_opens_the_channel(
    before: &ScreenshotHost,
    after: &ScreenshotHost,
    ephemeral: Seq<char>,
    identity: Seq<char>,
    signature: Seq<char>,
    r: AgentResult<HostAction>,
)
    requires
        exchange_handled(before, after, ephemeral, identity, signature, r),
    ensures
        after.same_host(before),
        r is Ok <==> exchange_fault(before.session(), ephemeral, identity, signature) is None,
        r is Err ==> after.session() == before.session(),
        r matches Ok(action) ==> {
            let now = after.session();
            let was = before.session();
            &&& is_silent(action)
            &&& now.session_id == was.session_id && now.capability == was.capability && now.client
                == was.client && now.last_capture == was.last_capture
            &&& now.exchange is None
            &&& now.channel == Some(
                sealed::channel_key(
                    session_keys::x25519_shared(was.exchange->0, encoding::fixed_bytes(ephemeral)),
                ),
            )
        },
{
}

/// A screenshot is captured exactly if it is asked for in the active session, the
/// channel is open, and the last capture under a limit was at least the least interval
/// before; a first one is never put off, nor is any without a limit.
pub proof fn screenshot_is_served_when_due(
    session: HostSession,
    policy: ConsentPolicy,
    session_id: SessionId,
    now: Instant,
)
    ensures
        fault_at(session, policy, session_id, now) is None <==> {
            &&& session.session_id == Some(session_id)
            &&& session.channel is Some
            &&& limits_of(policy) is Some && session.last_capture is Some ==> time::nanos_between(
                now,
                session.last_capture->0,
            ) >= (limits_of(policy)->0).0
        },
{
}

/// The operator's own desktop has no limits; both unattended modes have those of
/// their policy.
pub proof fn unattended_captures_are_limited(policy: ConsentPolicy)
    ensures
        limits_of(policy) is None <==> policy is Prompt,
        policy matches ConsentPolicy::HeadlessTrustedOnly {
            min_capture_interval,
            max_capture_bytes,
            ..
        } ==> (limits_of(policy)->0).0 == time::nanos(min_capture_interval) && (limits_of(
            policy,
        )->0).1 == max_capture_bytes,
        policy matches ConsentPolicy::UnattendedConsole {
            min_capture_interval,
            max_capture_bytes,
            ..
        } ==> (limits_of(policy)->0).0 == time::nanos(min_capture_interval) && (limits_of(
            policy,
        )->0).1 == max_capture_bytes,
{
}

/// A screenshot request leads to a capture for that session, which stays as it is, or
/// ends the session with one refusal that says why.
pub proof fn screenshot_request_is_served_or_ends(
    before: &ScreenshotHost,
    after: &ScreenshotHost,
    session_id: SessionId,
    now: Instant,
    r: AgentResult<HostAction>,
)
    requires
        screenshot_handled(before, after, session_id, now, r),
    ensures
        r is Ok,
        r->Ok_0 is Capture <==> fault_at(
            before.session(),
            before.consent_policy(),
            session_id,
            now,
        ) is None,
        r->Ok_0 matches HostAction::Capture(sid) ==> sid == session_id && after.session()
            == before.session(),
        fault_at(before.session(), before.consent_policy(), session_id, now) matches Some(fault)
            ==> {
            &&& after.session().session_id is None && after.session().channel is None
            &&& after.session().client is None && after.session().exchange is None
            &&& after.session().capability is None && after.session().last_capture is None
            &&& r->Ok_0 matches HostAction::Reply(p)
            &&& p@.len() == 1
            &&& p@[0]@ matches SignalPacketView::SessionRejected { session_id: of, reason }
            &&& of == session_id && reason == "screenshot unavailable: "@ + fault.text()
        },
{
    if let Ok(HostAction::Reply(p)) = r {
        if fault_at(before.session(), before.consent_policy(), session_id, now) is Some {
            assert(packets::packet_views(p@).len() == 1);
            assert(packets::packet_views(p@)[0] == p@[0]@);
        }
    }
}

/// A captured image goes out exactly if the channel is open, the image is within the
/// size limit, and it can be sealed and chunked.
pub proof fn image_goes_out_within_limits(session: HostSession, policy: ConsentPolicy, len: nat)
    ensures
        image_fault(session, policy, len) is None <==> {
            &&& session.channel is Some
            &&& limits_of(policy) is Some ==> len <= (limits_of(policy)->0).1
            &&& sealed::aead_fits(len)
            &&& chunks::chunk_count(encoding::base64_len(len + 28)) <= u32::MAX
        },
        is_refused(session, policy, len) <==> session.channel is None || (limits_of(policy) is Some
            && len > (limits_of(policy)->0).1),
{
}

/// What is sent of a capture opens to the captured image under the session's key, in
/// chunks of that session. The session goes on, and under a limit the next interval
/// is measured from the capture. Where nothing can be sent the session ends and the
/// client is told why.
pub proof fn capture_reaches_the_client(
    before: &ScreenshotHost,
    after: &ScreenshotHost,
    session_id: SessionId,
    captured: AgentResult<Vec<u8>>,
    now: Instant,
    reply: Seq<SignalPacket>,
)
    requires
        capture_handled(before, after, session_id, captured, now, reply),
    ensures
        after.same_host(before),
        captured matches Ok(image) ==> (image_fault(
            before.session(),
            before.consent_policy(),
            image@.len(),
        ) is None ==> {
            &&& exists|blob: Seq<u8>|
                packets::packet_views(reply) == chunks::chunk_packets(
                    session_id,
                    encoding::base64_text(blob),
                ) && #[trigger] sealed::opened(before.session().channel->0, blob) == Some(image@)
            &&& after.session().session_id == before.session().session_id
            &&& after.session().channel == before.session().channel
            &&& after.session().client == before.session().client
            &&& after.session().capability == before.session().capability
            &&& after.session().last_capture == (if limits_of(before.consent_policy()) is Some {
                Some(now)
            } else {
                before.session().last_capture
            })
        }),
        captured matches Err(e) ==> {
            &&& after.session().session_id is None && after.session().channel is None
            &&& after.session().client is None && after.session().exchange is None
            &&& reply.len() == 1
            &&& reply[0]@ matches SignalPacketView::SessionRejected { session_id: of, reason }
            &&& of == session_id && reason == "screenshot unavailable: "@ + e@.text()
        },
        captured matches Ok(image) ==> (image_fault(
            before.session(),
            before.consent_policy(),
            image@.len(),
        ) matches Some(fault) ==> {
            &&& after.session().session_id is None && after.session().channel is None
            &&& after.session().client is None && after.session().exchange is None
            &&& reply.len() == 1
            &&& reply[0]@ matches SignalPacketView::SessionRejected { session_id: of, reason }
            &&& of == session_id && reason == "screenshot unavailable: "@ + fault.text()
        }),
{
    let views = packets::packet_views(reply);
    assert(views.len() == reply.len());
    if views.len() == 1 {
        assert(views[0] == reply[0]@);
    }
    if let Ok(image) = captured {
        if image_fault(before.session(), before.consent_policy(), image@.len()) is None {
            let blob = choose|blob: Seq<u8>| #[trigger]
                carries_blob(views, session_id, before.session().channel->0, image@, blob);
            assert(sealed::opened(before.session().channel->0, blob) == Some(image@));
        }
    }
}

/// Console input is replayed exactly in the active control session of a host of the
/// physical console, with the channel open, within 8192 bytes of base64, and if it
/// opens under the session's key. Then the very bytes that were sealed are replayed;
/// all else is dropped without an answer, and nothing changes either way.
pub proof fn console_input_is_replayed_or_dropped(
    before: &ScreenshotHost,
    after: &ScreenshotHost,
    session_id: SessionId,
    payload: Seq<char>,
    r: AgentResult<HostAction>,
)
    requires
        input_handled(before, after, session_id, payload, r),
    ensures
        ({
            let session = before.session();
            let due = {
                &&& session.session_id == Some(session_id)
                &&& session.capability == Some(SessionCapability::ConsoleControl)
                &&& before.consent_policy() is UnattendedConsole
                &&& vstd::utf8::encode_utf8(payload).len() <= 8192
                &&& session.channel is Some
                &&& encoding::base64_decoded(payload) is Ok
                &&& sealed::opened(
                    session.channel->0,
                    encoding::base64_decoded(payload)->Ok_0,
                ) is Some
            };
            &&& r is Ok
            &&& due <==> r->Ok_0 is Inject
            &&& !due ==> is_silent(r->Ok_0)
            &&& r->Ok_0 matches HostAction::Inject(event) ==> Some(event@) == sealed::opened(
                session.channel->0,
                encoding::base64_decoded(payload)->Ok_0,
            )
        }),
        after.session() == before.session(),
{
}

/// Whether `c` is `letter`, in lower or in upper case.
pub open spec fn is_letter(c: char, lower: char, upper: char) -> bool {
    c == lower || c == upper
}

/// The operator says yes with the letter `y` or the word `yes`, in any case and with
/// white space around it, and with nothing else.
pub proof fn yes_is_said_in_any_case(line: Seq<char>)
    ensures
        text::trimmed(line).len() == 1 ==> (is_yes(line) <==> is_letter(
            text::trimmed(line)[0],
            'y',
            'Y',
        )),
        text::trimmed(line).len() == 3 ==> (is_yes(line) <==> is_letter(
            text::trimmed(line)[0],
            'y',
            'Y',
        ) && is_letter(text::trimmed(line)[1], 'e', 'E') && is_letter(
            text::trimmed(line)[2],
            's',
            'S',
        )),
        text::trimmed(line).len() != 1 && text::trimmed(line).len() != 3 ==> !is_yes(line),
{
}

/// A key code has 1 to 64 characters, and none but ASCII letters, digits and hyphens.
pub proof fn key_codes_are_plain(code: Seq<char>, i: int)
    ensures
        is_key_code(code) ==> 1 <= code.len() <= 64,
        is_key_code(code) && 0 <= i < code.len() ==> ('a' <= code[i] <= 'z' || 'A' <= code[i]
            <= 'Z' || '0' <= code[i] <= '9' || code[i] == '-'),
        1 <= code.len() <= 64 && (forall|j: int|
            0 <= j < code.len() ==> ('a' <= #[trigger] code[j] <= 'z' || 'A' <= code[j] <= 'Z'
                || '0' <= code[j] <= '9' || code[j] == '-')) ==> is_key_code(code),
{
}

/// A text is fixed bytes exactly if it is base64 of that many, white space around it
/// aside, and an identity key exactly if it is 32 bytes that encode a point; else it is
/// said what is wrong.
pub proof fn identity_keys_are_points(text: Seq<char>, n: nat)
    ensures
        fixed_fault(text, n) is None <==> (encoding::base64_decoded(
            text::trimmed(text),
        ) matches Ok(bytes) && bytes.len() == n),
        encoding::base64_decoded(text::trimmed(text)) matches Ok(bytes) ==> (fixed_fault(
            text,
            n,
        ) matches Some(fault) ==> fault == AgentErrorView::Relay(
            "expected "@ + text::decimal_digits(n) + " bytes, got "@ + text::decimal_digits(
                bytes.len(),
            ),
        )),
        identity_fault(text) is None <==> fixed_fault(text, 32) is None
            && primitives::ed25519_is_key(encoding::fixed_bytes(text)),
{
}

/// A host that is silent replies with no packet at all.
pub proof fn silence_sends_nothing(action: HostAction)
    ensures
        is_silent(action) <==> (action matches HostAction::Reply(packets) && packets@ =~= Seq::<
            SignalPacket,
        >::empty()),
{
}

} // verus!
