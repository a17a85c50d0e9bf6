//! Client-side session flow: request, handshake, receive screenshot.
//!
//! State machine over the packets of the relay, after the user is
//! authenticated:
//! 1. send `SessionRequest` carrying our identity public key (host trusts it)
//! 2. on `SessionAccepted`: send our signed ephemeral key, await the host's
//! 3. verify the host's ephemeral key against its pinned identity, derive the
//!    sealed channel
//! 4. send the console input, if there is one, and `ScreenshotRequest`;
//!    reassemble the base64 chunks and decrypt them
//!
//! `SessionRejected` at any point aborts with the host's reason.

use vstd::prelude::*;
use vstd::string::*;

use super::error;
use super::error::{crypto_error, SdkError, SdkErrorView, SdkResult};
use super::identity::Identity;
use crate::chunks;
use crate::crypto::handshake;
use crate::crypto::handshake::LocalKeyExchange;
use crate::crypto::identity::VerifyingKey;
use crate::crypto::primitives;
use crate::crypto::sealed;
use crate::crypto::sealed::SealedChannel;
use crate::encoding;
use crate::encoding::{base64_decode, decode_fixed_32, decode_fixed_64, FixedBytesError};
use crate::json;
use crate::json::member_text;
use crate::packets;
use crate::packets::{HostConsoleState, SessionCapability, SignalPacket, SignalPacketView};
use crate::text;
use crate::text::{decimal, joined, same_text, trim};
use crate::types::{DeviceId, SessionId};

verus! {

broadcast use vstd::array::group_array_axioms;

/// The fault of a text that should be base64 of `n` bytes.
pub open spec fn fixed_fault(text: Seq<char>, n: nat) -> Option<SdkErrorView> {
    match encoding::base64_decoded(text::trimmed(text)) {
        Err(fault) => Some(SdkErrorView::Base64(fault)),
        Ok(bytes) => if bytes.len() == n {
            None
        } else {
            Some(
                SdkErrorView::Crypto(
                    "expected "@ + text::decimal_digits(n) + " bytes, got "@
                        + text::decimal_digits(bytes.len()),
                ),
            )
        },
    }
}

/// The fault of a text that should be the host's identity key.
pub open spec fn host_key_fault(text: Seq<char>) -> Option<SdkErrorView> {
    match fixed_fault(text, 32) {
        Some(fault) => Some(fault),
        None => if primitives::ed25519_is_key(encoding::fixed_bytes(text)) {
            None
        } else {
            Some(
                SdkErrorView::Crypto(
                    "bad host key: "@ + "signature error: Cannot decompress Edwards point"@,
                ),
            )
        },
    }
}

fn fixed_error(expected: u64, e: FixedBytesError) -> (r: SdkError)
    ensures
        match e {
            FixedBytesError::Base64(m) => r@ == SdkErrorView::Base64(m@),
            FixedBytesError::Length(n) => r@ == SdkErrorView::Crypto(
                "expected "@ + text::decimal_digits(expected as nat) + " bytes, got "@
                    + text::decimal_digits(n as nat),
            ),
        },
{
    match e {
        FixedBytesError::Base64(m) => SdkError::Base64(m),
        FixedBytesError::Length(n) => {
            let mut m = joined("expected ", decimal(expected).as_str());
            m.append(" bytes, got ");
            m.append(decimal(n as u64).as_str());
            SdkError::Crypto(m)
        },
    }
}

/// The 32 bytes that a base64 text stands for.
pub fn decode_32(b64: &str) -> (r: SdkResult<[u8; 32]>)
    ensures
        error::fails_with(r, fixed_fault(b64@, 32)),
        r matches Ok(bytes) ==> bytes@ == encoding::fixed_bytes(b64@),
{
    match decode_fixed_32(b64) {
        Ok(bytes) => Ok(bytes),
        Err(e) => Err(fixed_error(32, e)),
    }
}

/// The 64 bytes that a base64 text stands for.
pub fn decode_64(b64: &str) -> (r: SdkResult<[u8; 64]>)
    ensures
        error::fails_with(r, fixed_fault(b64@, 64)),
        r matches Ok(bytes) ==> bytes@ == encoding::fixed_bytes(b64@),
{
    match decode_fixed_64(b64) {
        Ok(bytes) => Ok(bytes),
        Err(e) => Err(fixed_error(64, e)),
    }
}

/// The host's identity key that a base64 text stands for.
pub fn parse_identity(b64: &str) -> (r: SdkResult<VerifyingKey>)
    ensures
        error::fails_with(r, host_key_fault(b64@)),
        r matches Ok(key) ==> key@ == encoding::fixed_bytes(b64@),
{
    match decode_32(b64) {
        Ok(raw) => match VerifyingKey::from_bytes(&raw) {
            Ok(key) => Ok(key),
            Err(fault) => Err(SdkError::Crypto(joined("bad host key: ", fault.as_str()))),
        },
        Err(e) => Err(e),
    }
}

/// What the relay's connection gives.
#[derive(Debug)]
pub enum Received {
    /// A text frame.
    Text(String),
    /// A close frame.
    Close,
    /// Another frame.
    Other,
    /// The stream has ended.
    Ended,
    /// The stream has failed; the description of the failure.
    Failed(String),
}

/// The text of what was received; `None` where a further frame has to be awaited.
pub fn received_text(received: Received) -> (r: SdkResult<Option<String>>)
    ensures
        error::fails_with(
            r,
            match received {
                Received::Text(_) | Received::Other => None,
                Received::Close => Some(SdkErrorView::Relay("connection closed"@)),
                Received::Ended => Some(SdkErrorView::Relay("stream ended"@)),
                Received::Failed(fault) => Some(SdkErrorView::WebSocket(fault@)),
            },
        ),
        r matches Ok(text) ==> text == (match received {
            Received::Text(t) => Some(t),
            _ => None,
        }),
{
    match received {
        Received::Text(text) => Ok(Some(text)),
        Received::Other => Ok(None),
        Received::Close => Err(SdkError::Relay("connection closed".to_owned())),
        Received::Ended => Err(SdkError::Relay("stream ended".to_owned())),
        Received::Failed(fault) => Err(SdkError::WebSocket(fault)),
    }
}

/// What is wrong with the relay's answer to a token.
pub open spec fn authentication_fault(answer: Seq<char>) -> Option<SdkErrorView> {
    match json::json_member(answer, "type"@) {
        Err(fault) => Some(SdkErrorView::Serde(fault)),
        Ok(kind) => kind_fault(kind, answer),
    }
}

/// What is wrong with an answer to a token whose `type` member is `kind`.
pub open spec fn kind_fault(kind: Option<Seq<char>>, answer: Seq<char>) -> Option<SdkErrorView> {
    if kind == Some("AUTHENTICATED"@) {
        None
    } else {
        Some(SdkErrorView::Auth("unexpected auth response: "@ + answer))
    }
}

/// Check the relay's answer to a token: it accepts exactly by a JSON object whose
/// `type` is `AUTHENTICATED`.
pub fn check_authenticated(answer: &str) -> (r: SdkResult<()>)
    ensures
        error::fails_with(r, authentication_fault(answer@)),
        r is Ok <==> json::json_member(answer@, "type"@) == Ok::<Option<Seq<char>>, Seq<char>>(
            Some("AUTHENTICATED"@),
        ),
{
    match member_text(answer, "type") {
        Ok(kind) => check_kind(kind, answer),
        Err(fault) => Err(SdkError::Serde(fault)),
    }
}

/// Check the relay's answer to a token, by its `type` member.
pub fn check_kind(kind: Option<String>, answer: &str) -> (r: SdkResult<()>)
    ensures
        error::fails_with(
            r,
            kind_fault(
                match kind {
                    Some(k) => Some(k@),
                    None => None,
                },
                answer@,
            ),
        ),
{
    if let Some(kind) = kind {
        if same_text(kind.as_str(), "AUTHENTICATED") {
            return Ok(());
        }
    }
    Err(SdkError::Auth(joined("unexpected auth response: ", answer)))
}

/// A chunk that has come: its place and its characters.
pub type Chunk = (u32, Seq<char>);

/// Put a chunk behind all that do not belong behind it.
pub open spec fn insert_chunk(chunks: Seq<Chunk>, chunk: Chunk) -> Seq<Chunk>
    decreases chunks.len(),
{
    if chunks.len() == 0 || chunks.last().0 <= chunk.0 {
        chunks.push(chunk)
    } else {
        insert_chunk(chunks.drop_last(), chunk).push(chunks.last())
    }
}

/// Chunks in the order of their places; of one place, the earlier comes first.
pub open spec fn in_order(arrived: Seq<Chunk>) -> Seq<Chunk>
    decreases arrived.len(),
{
    if arrived.len() == 0 {
        arrived
    } else {
        insert_chunk(in_order(arrived.drop_last()), arrived.last())
    }
}

/// The characters of all chunks in a row.
pub open spec fn chunk_row(chunks: Seq<Chunk>) -> Seq<char>
    decreases chunks.len(),
{
    if chunks.len() == 0 {
        Seq::empty()
    } else {
        chunk_row(chunks.drop_last()) + chunks.last().1
    }
}

/// The views of received chunks.
pub open spec fn chunk_views(chunks: Seq<(u32, String)>) -> Seq<Chunk> {
    chunks.map_values(|c: (u32, String)| (c.0, c.1@))
}

/// The fault of putting chunks together in their order and opening them.
pub open spec fn assembly_fault(arrived: Seq<Chunk>, total: u32, key: Seq<u8>) -> Option<
    SdkErrorView,
> {
    let chunks = in_order(arrived);
    if chunks.len() != total {
        Some(
            SdkErrorView::Relay(
                "incomplete capture: "@ + text::decimal_digits(chunks.len()) + " of "@
                    + text::decimal_digits(total as nat) + " chunks"@,
            ),
        )
    } else {
        match encoding::base64_decoded(chunk_row(chunks)) {
            Err(fault) => Some(SdkErrorView::Base64(fault)),
            Ok(blob) => if sealed::opened(key, blob) is Some {
                None
            } else {
                Some(
                    SdkErrorView::Crypto(
                        "decrypt failed: "@ + ("decryption failed: "@ + (if blob.len()
                            < sealed::NONCE_LEN {
                            "sealed message too short"@
                        } else {
                            "aead::Error"@
                        })),
                    ),
                )
            },
        }
    }
}

/// The image in chunks, in whatever order they arrived.
pub open spec fn assembled(arrived: Seq<Chunk>, key: Seq<u8>) -> Seq<u8> {
    sealed::opened(key, encoding::base64_decoded(chunk_row(in_order(arrived)))->Ok_0)->0
}

/// The chunks after an attempt to assemble them: in their order, unless some are
/// missing.
pub open spec fn chunks_after(arrived: Seq<Chunk>, total: u32) -> Seq<Chunk> {
    if arrived.len() == total {
        in_order(arrived)
    } else {
        arrived
    }
}

/// Put chunks in the order of their places and together, and decrypt the captured
/// image. The order in which they arrived does not matter.
pub fn finalize(chunks: &mut Vec<(u32, String)>, total: u32, channel: &SealedChannel) -> (r:
    SdkResult<Vec<u8>>)
    ensures
        error::fails_with(r, assembly_fault(chunk_views(old(chunks)@), total, channel@)),
        r matches Ok(image) ==> image@ == assembled(chunk_views(old(chunks)@), channel@),
        chunk_views(final(chunks)@) == chunks_after(chunk_views(old(chunks)@), total),
{
    proof {
        in_order_sorts(chunk_views(chunks@));
    }
    if chunks.len() != total as usize {
        let mut m = joined("incomplete capture: ", decimal(chunks.len() as u64).as_str());
        m.append(" of ");
        m.append(decimal(total as u64).as_str());
        m.append(" chunks");
        return Err(SdkError::Relay(m));
    }
    sort_chunks(chunks);
    let mut b64 = String::new();
    let mut i: usize = 0;
    assert(chunk_views(chunks@).take(0) =~= Seq::empty());
    while i < chunks.len()
        invariant
            i <= chunks@.len(),
            b64@ == chunk_row(chunk_views(chunks@).take(i as int)),
        decreases chunks@.len() - i,
    {
        b64.append(chunks[i].1.as_str());
        proof {
            let all = chunk_views(chunks@);
            assert(all.take(i as int + 1).drop_last() =~= all.take(i as int));
        }
        i = i + 1;
    }
    assert(chunk_views(chunks@).take(chunks@.len() as int) =~= chunk_views(chunks@));
    let blob = match base64_decode(b64.as_str()) {
        Ok(blob) => blob,
        Err(fault) => {
            return Err(SdkError::Base64(fault));
        },
    };
    match channel.open(blob.as_slice()) {
        Ok(image) => Ok(image),
        Err(e) => Err(SdkError::Crypto(joined("decrypt failed: ", e.to_string().as_str()))),
    }
}

/// Put chunks in the order of their places.
fn sort_chunks(chunks: &mut Vec<(u32, String)>)
    ensures
        chunk_views(final(chunks)@) == in_order(chunk_views(old(chunks)@)),
{
    let ghost arrived = chunk_views(chunks@);
    let mut sorted: Vec<(u32, String)> = Vec::new();
    let ghost mut done: int = 0;
    assert(arrived.take(0) =~= Seq::empty());
    assert(chunk_views(sorted@) =~= Seq::empty());
    assert(arrived.skip(0) =~= arrived);
    let count: usize = chunks.len();
    while chunks.len() > 0
        invariant
            0 <= done <= arrived.len(),
            count == arrived.len(),
            chunk_views(chunks@) == arrived.skip(done),
            chunk_views(sorted@) == in_order(arrived.take(done)),
            sorted@.len() == done,
        decreases chunks@.len(),
    {
        let ghost rest = chunks@;
        let (sequence, payload) = chunks.remove(0);
        proof {
            assert(chunk_views(rest).len() == rest.len());
            assert(chunk_views(rest)[0] == arrived[done]);
            assert(chunks@ =~= rest.skip(1));
            assert(chunk_views(chunks@) =~= chunk_views(rest).skip(1));
            assert(chunk_views(rest).skip(1) =~= arrived.skip(done + 1));
            assert(arrived.take(done + 1).drop_last() =~= arrived.take(done));
            in_order_sorts(arrived.take(done));
            in_order_sorts(arrived.take(done + 1));
        }
        place_chunk(&mut sorted, sequence, payload);
        proof {
            assert(chunk_views(sorted@).len() == sorted@.len());
            done = done + 1;
        }
    }
    proof {
        assert(chunk_views(chunks@).len() == 0);
        assert(arrived.take(done) =~= arrived);
    }
    std::mem::swap(chunks, &mut sorted);
}

/// Put a chunk in its place among ordered chunks.
fn place_chunk(chunks: &mut Vec<(u32, String)>, sequence: u32, payload: String)
    requires
        old(chunks)@.len() < usize::MAX,
    ensures
        chunk_views(final(chunks)@) == insert_chunk(
            chunk_views(old(chunks)@),
            (sequence, payload@),
        ),
{
    let ghost before = chunk_views(chunks@);
    let ghost chunk = (sequence, payload@);
    let mut at: usize = chunks.len();
    assert(before.take(at as int) =~= before);
    assert(before.skip(at as int) =~= Seq::empty());
    assert(insert_chunk(before, chunk) =~= insert_chunk(before.take(at as int), chunk)
        + before.skip(at as int));
    while at > 0 && chunks[at - 1].0 > sequence
        invariant
            at <= chunks@.len(),
            chunks@ == old(chunks)@,
            before == chunk_views(chunks@),
            chunk == (sequence, payload@),
            insert_chunk(before, chunk) == insert_chunk(before.take(at as int), chunk)
                + before.skip(at as int),
        decreases at,
    {
        proof {
            let head = before.take(at as int);
            assert(head.drop_last() =~= before.take(at as int - 1));
            assert(insert_chunk(before.take(at as int - 1), chunk).push(head.last())
                + before.skip(at as int) =~= insert_chunk(before.take(at as int - 1), chunk)
                + before.skip(at as int - 1));
        }
        at = at - 1;
    }
    proof {
        let head = before.take(at as int);
        assert(insert_chunk(head, chunk) == head.push(chunk));
    }
    chunks.insert(at, (sequence, payload));
    assert(chunk_views(chunks@) =~= insert_chunk(before, chunk));
}

/// Inputs for a single screenshot session.
pub struct CaptureParams {
    pub identity: Identity,
    pub device_id: DeviceId,
    /// Base64 Ed25519 identity key of the host, from the authenticated REST API.
    pub host_public_key_b64: String,
    pub requested_capability: SessionCapability,
    /// The encoded console event to send before the capture, if there is one.
    pub console_input: Option<Vec<u8>>,
}

/// The client's side of one screenshot session.
pub struct CaptureSession {
    identity: Identity,
    host_identity: VerifyingKey,
    host_public_key_b64: String,
    console_input: Option<Vec<u8>>,
    local_kex: Option<LocalKeyExchange>,
    channel: Option<SealedChannel>,
    session_id: Option<SessionId>,
    console_state: Option<(HostConsoleState, u64)>,
    chunks: Vec<(u32, String)>,
}

/// The state of a [`CaptureSession`].
pub struct CaptureState {
    /// The secret seed of the client's identity.
    pub seed: Seq<u8>,
    /// The pinned identity key of the host, as text.
    pub host_key: Seq<char>,
    /// The console event to send before the capture.
    pub console_input: Option<Seq<u8>>,
    /// The secret of this side's ephemeral key, until the host's has come.
    pub exchange: Option<Seq<u8>>,
    /// The key of the sealed channel.
    pub channel: Option<Seq<u8>>,
    /// The session.
    pub session_id: Option<SessionId>,
    /// The last console state that the host reported.
    pub console_state: Option<(HostConsoleState, u64)>,
    /// The chunks that have come.
    pub chunks: Seq<Chunk>,
}

/// What is to be done next for a packet.
pub enum CaptureAction {
    /// Send these packets and wait for more.
    Send(Vec<SignalPacket>),
    /// The image is complete. Close the session with this packet, if there is one.
    Finished { image: Vec<u8>, close: Option<SignalPacket> },
}

/// The fault of the host's key exchange.
pub open spec fn exchange_fault(
    state: CaptureState,
    ephemeral: Seq<char>,
    identity: Seq<char>,
    signature: Seq<char>,
) -> Option<SdkErrorView> {
    if text::trimmed(identity) != text::trimmed(state.host_key) {
        Some(SdkErrorView::Crypto("host identity key mismatch — possible MITM"@))
    } else if fixed_fault(ephemeral, 32) is Some {
        fixed_fault(ephemeral, 32)
    } else if fixed_fault(signature, 64) is Some {
        fixed_fault(signature, 64)
    } else if !primitives::ed25519_verifies(
        encoding::fixed_bytes(state.host_key),
        encoding::fixed_bytes(ephemeral),
        encoding::fixed_bytes(signature),
    ) {
        Some(SdkErrorView::Crypto("host key exchange invalid: "@ + "invalid signature"@))
    } else if state.exchange is None {
        Some(SdkErrorView::Crypto("host key exchange arrived before accept"@))
    } else if state.console_input is Some && !sealed::aead_fits(state.console_input->0.len()) {
        Some(SdkErrorView::Crypto("seal failed: "@ + ("encryption failed: "@ + "aead::Error"@)))
    } else {
        None
    }
}

/// Whether `packets` ask for a screenshot, after the sealed console event where
/// there is one.
pub open spec fn asks_for_capture(
    packets: Seq<SignalPacketView>,
    session_id: SessionId,
    key: Seq<u8>,
    console_input: Option<Seq<u8>>,
) -> bool {
    let request = SignalPacketView::ScreenshotRequest { session_id };
    match console_input {
        None => packets == seq![request],
        Some(event) => packets.len() == 2 && carries_input(
            packets[0],
            session_id,
            key,
            event,
        ) && packets[1] == request,
    }
}

/// Whether `packet` carries the console event `event` sealed under `key`.
pub open spec fn carries_input(
    packet: SignalPacketView,
    session_id: SessionId,
    key: Seq<u8>,
    event: Seq<u8>,
) -> bool {
    exists|blob: Seq<u8>| #[trigger]
        sealed::is_sealing(key, event, blob) && sealed::opened(key, blob) == Some(event)
            && encoding::decodes_back(blob) && packet == (SignalPacketView::ConsoleInput {
            session_id,
            payload: encoding::base64_text(blob),
        })
}

/// The packet that closes the session, where there is one.
pub open spec fn closing(session_id: Option<SessionId>) -> Option<SignalPacketView> {
    match session_id {
        Some(session_id) => Some(SignalPacketView::SessionClosed { session_id }),
        None => None,
    }
}

/// The packet with which a session is asked for.
pub open spec fn request_packet(
    device_id: DeviceId,
    seed: Seq<u8>,
    capability: SessionCapability,
) -> SignalPacketView {
    SignalPacketView::SessionRequest {
        device_id,
        client_public_key: encoding::base64_text(primitives::ed25519_public(seed)),
        requested_capability: capability,
        session_id: None,
    }
}

/// How `SessionAccepted` is handled: the client sends its ephemeral key.
pub open spec fn accepted(
    before: CaptureState,
    after: CaptureState,
    session_id: SessionId,
    r: SdkResult<CaptureAction>,
) -> bool {
    &&& after.exchange is Some
    &&& after.exchange->0.len() == 32
    &&& crate::agent::session::host::is_genuine(before.seed, after.exchange->0)
    &&& after == (CaptureState {
        session_id: Some(session_id),
        exchange: after.exchange,
        ..before
    })
    &&& r is Ok
    &&& r->Ok_0 matches CaptureAction::Send(p) && packets::packet_views(p@) == seq![
        crate::agent::session::host::exchange_packet(
            session_id,
            before.seed,
            after.exchange->0,
        ),
    ]
}

/// How the host's key exchange is handled.
pub open spec fn exchanged(
    before: CaptureState,
    after: CaptureState,
    session_id: SessionId,
    ephemeral: Seq<char>,
    identity: Seq<char>,
    signature: Seq<char>,
    r: SdkResult<CaptureAction>,
) -> bool {
    let fault = exchange_fault(before, ephemeral, identity, signature);
    &&& error::fails_with(r, fault)
    &&& fault is Some ==> {
        ||| after == before
        ||| before.console_input is Some && !sealed::aead_fits(before.console_input->0.len())
            && after == (CaptureState { exchange: None, console_input: None, ..before })
    }
    &&& fault is None ==> {
        let key = handshake::exchanged_key(before.exchange->0, encoding::fixed_bytes(ephemeral));
        &&& after == (CaptureState {
            session_id: Some(session_id),
            exchange: None,
            channel: Some(key),
            console_input: None,
            ..before
        })
        &&& r->Ok_0 matches CaptureAction::Send(p) && asks_for_capture(
            packets::packet_views(p@),
            session_id,
            key,
            before.console_input,
        )
    }
}

/// How a chunk is handled: it is kept, and the last one ends the session with the
/// image.
pub open spec fn received(
    before: CaptureState,
    after: CaptureState,
    sequence: u32,
    total: u32,
    last: bool,
    payload: Seq<char>,
    r: SdkResult<CaptureAction>,
) -> bool {
    let chunks = before.chunks.push((sequence, payload));
    if !last && chunks.len() < total {
        &&& after == (CaptureState { chunks, ..before })
        &&& r is Ok && is_waiting(r->Ok_0)
    } else if before.channel is None {
        &&& after == (CaptureState { chunks, ..before })
        &&& r matches Err(e) && e@ == SdkErrorView::Crypto("data before key exchange"@)
    } else {
        let key = before.channel->0;
        &&& after == (CaptureState { chunks: chunks_after(chunks, total), ..before })
        &&& error::fails_with(r, assembly_fault(chunks, total, key))
        &&& r is Ok ==> (r->Ok_0 matches CaptureAction::Finished { image, close } && image@
            == assembled(chunks, key) && close_view(close) == closing(before.session_id))
    }
}

/// The view of the packet that closes a session.
pub open spec fn close_view(close: Option<SignalPacket>) -> Option<SignalPacketView> {
    match close {
        Some(packet) => Some(packet@),
        None => None,
    }
}

/// Whether an action sends nothing.
pub open spec fn is_waiting(action: CaptureAction) -> bool {
    action matches CaptureAction::Send(p) && p@.len() == 0
}

impl CaptureSession {
    /// The state of the session.
    pub closed spec fn state(&self) -> CaptureState {
        CaptureState {
            seed: self.identity@,
            host_key: self.host_public_key_b64@,
            console_input: match self.console_input {
                Some(event) => Some(event@),
                None => None,
            },
            exchange: match self.local_kex {
                Some(kex) => Some(kex.secret()),
                None => None,
            },
            channel: match self.channel {
                Some(channel) => Some(channel@),
                None => None,
            },
            session_id: self.session_id,
            console_state: self.console_state,
            chunks: chunk_views(self.chunks@),
        }
    }

    #[verifier::type_invariant]
    spec fn pinned(self) -> bool {
        &&& self.host_identity@ == encoding::fixed_bytes(self.host_public_key_b64@)
        &&& self.console_input matches Some(event) ==> encoding::base64_len(
            (event@.len() + sealed::NONCE_LEN + 16) as nat,
        ) <= isize::MAX
    }

    /// Begin a session: the packet to send once the user is authenticated. A host
    /// reads the client's identity key back from it.
    pub fn begin(params: CaptureParams) -> (r: SdkResult<(CaptureSession, SignalPacket)>)
        requires
            params.console_input matches Some(event) ==> encoding::base64_len(
                (event@.len() + sealed::NONCE_LEN + 16) as nat,
            ) <= isize::MAX,
        ensures
            error::fails_with(r, host_key_fault(params.host_public_key_b64@)),
            r matches Ok((session, request)) ==> {
                &&& session.state() == (CaptureState {
                    seed: params.identity@,
                    host_key: params.host_public_key_b64@,
                    console_input: match params.console_input {
                        Some(event) => Some(event@),
                        None => None,
                    },
                    exchange: None,
                    channel: None,
                    session_id: None,
                    console_state: None,
                    chunks: Seq::empty(),
                })
                &&& request@ == request_packet(
                    params.device_id,
                    params.identity@,
                    params.requested_capability,
                )
                &&& encoding::reads_back(primitives::ed25519_public(params.identity@), 32)
                &&& primitives::ed25519_is_key(primitives::ed25519_public(params.identity@))
            },
    {
        let host_identity = match parse_identity(params.host_public_key_b64.as_str()) {
            Ok(key) => key,
            Err(e) => {
                return Err(e);
            },
        };
        let request = SignalPacket::SessionRequest {
            device_id: params.device_id,
            client_public_key: params.identity.public_key_b64(),
            requested_capability: params.requested_capability,
            session_id: None,
        };
        let session = CaptureSession {
            identity: params.identity,
            host_identity,
            host_public_key_b64: params.host_public_key_b64,
            console_input: params.console_input,
            local_kex: None,
            channel: None,
            session_id: None,
            console_state: None,
            chunks: Vec::new(),
        };
        assert(session.state().chunks =~= Seq::empty());
        Ok((session, request))
    }

    /// The last console state that the host reported.
    pub fn console_state(&self) -> (state: Option<(HostConsoleState, u64)>)
        ensures
            state == self.state().console_state,
    {
        self.console_state
    }

    fn on_accepted(&mut self, session_id: SessionId) -> (r: SdkResult<CaptureAction>)
        ensures
            accepted(old(self).state(), final(self).state(), session_id, r),
    {
        proof {
            use_type_invariant(&*self);
        }
        let kex = handshake::start(self.identity.signing_key());
        let packet = SignalPacket::SessionKeyExchange {
            session_id,
            ephemeral_public_key: encoding::encode(kex.ephemeral_public()),
            identity_public_key: self.identity.public_key_b64(),
            signature: encoding::encode(kex.signature()),
        };
        let ghost sent = packet@;
        self.session_id = Some(session_id);
        self.local_kex = Some(kex);
        let mut outgoing: Vec<SignalPacket> = Vec::new();
        outgoing.push(packet);
        assert(packets::packet_views(outgoing@) =~= seq![sent]);
        Ok(CaptureAction::Send(outgoing))
    }

    fn on_key_exchange(
        &mut self,
        session_id: SessionId,
        ephemeral_public_key: &str,
        identity_public_key: &str,
        signature: &str,
    ) -> (r: SdkResult<CaptureAction>)
        ensures
            exchanged(
                old(self).state(),
                final(self).state(),
                session_id,
                ephemeral_public_key@,
                identity_public_key@,
                signature@,
                r,
            ),
    {
        proof {
            use_type_invariant(&*self);
        }
        if trim(identity_public_key) != trim(self.host_public_key_b64.as_str()) {
            return Err(crypto_error("host identity key mismatch — possible MITM"));
        }
        let peer_eph = match decode_32(ephemeral_public_key) {
            Ok(bytes) => bytes,
            Err(e) => {
                return Err(e);
            },
        };
        let peer_sig = match decode_64(signature) {
            Ok(bytes) => bytes,
            Err(e) => {
                return Err(e);
            },
        };
        match handshake::verify_peer(&self.host_identity, &peer_eph, &peer_sig) {
            Ok(()) => {},
            Err(e) => {
                return Err(
                    SdkError::Crypto(joined("host key exchange invalid: ", e.to_string().as_str())),
                );
            },
        }
        let mut local_kex: Option<LocalKeyExchange> = None;
        std::mem::swap(&mut local_kex, &mut self.local_kex);
        let kex = match local_kex {
            Some(kex) => kex,
            None => {
                return Err(crypto_error("host key exchange arrived before accept"));
            },
        };
        let channel = kex.into_channel(&peer_eph);
        let mut outgoing: Vec<SignalPacket> = Vec::new();
        let mut console_input: Option<Vec<u8>> = None;
        std::mem::swap(&mut console_input, &mut self.console_input);
        match console_input {
            Some(input) => match channel.seal(input.as_slice()) {
                Ok(blob) => {
                    outgoing.push(
                        SignalPacket::ConsoleInput {
                            session_id,
                            payload: encoding::encode(blob.as_slice()),
                        },
                    );
                    outgoing.push(SignalPacket::ScreenshotRequest { session_id });
                    assert(sealed::is_sealing(channel@, input@, blob@));
                    assert(packets::packet_views(outgoing@) =~= seq![
                        SignalPacketView::ConsoleInput {
                            session_id,
                            payload: encoding::base64_text(blob@),
                        },
                        SignalPacketView::ScreenshotRequest { session_id },
                    ]);
                },
                Err(e) => {
                    return Err(SdkError::Crypto(joined("seal failed: ", e.to_string().as_str())));
                },
            },
            None => {
                outgoing.push(SignalPacket::ScreenshotRequest { session_id });
                assert(packets::packet_views(outgoing@) =~= seq![
                    SignalPacketView::ScreenshotRequest { session_id },
                ]);
            },
        }
        self.channel = Some(channel);
        self.session_id = Some(session_id);
        Ok(CaptureAction::Send(outgoing))
    }

    fn on_data(&mut self, sequence: u32, total: u32, last: bool, payload: &String) -> (r: SdkResult<
        CaptureAction,
    >)
        requires
            old(self).state().chunks.len() < usize::MAX,
        ensures
            received(
                old(self).state(),
                final(self).state(),
                sequence,
                total,
                last,
                payload@,
                r,
            ),
    {
        proof {
            use_type_invariant(&*self);
        }
        let mut chunks: Vec<(u32, String)> = Vec::new();
        std::mem::swap(&mut chunks, &mut self.chunks);
        let ghost before = chunk_views(chunks@);
        chunks.push((sequence, payload.clone()));
        assert(chunk_views(chunks@) =~= before.push((sequence, payload@)));
        let r = if last || chunks.len() >= total as usize {
            match &self.channel {
                None => Err(crypto_error("data before key exchange")),
                Some(channel) => match finalize(&mut chunks, total, channel) {
                    Ok(image) => {
                        let close = match self.session_id {
                            Some(session_id) => Some(SignalPacket::SessionClosed { session_id }),
                            None => None,
                        };
                        Ok(CaptureAction::Finished { image, close })
                    },
                    Err(e) => Err(e),
                },
            }
        } else {
            Ok(CaptureAction::Send(Vec::new()))
        };
        self.chunks = chunks;
        r
    }

    /// Take a packet from the relay, and say what is to be done next.
    pub fn on_packet(&mut self, packet: &SignalPacket) -> (r: SdkResult<CaptureAction>)
        requires
            old(self).state().chunks.len() < usize::MAX,
        ensures
            packet matches SignalPacket::SessionAccepted { session_id, .. } ==> accepted(
                old(self).state(),
                final(self).state(),
                *session_id,
                r,
            ),
            packet matches SignalPacket::SessionRejected { reason, .. } ==> (r matches Err(e) && e@
                == SdkErrorView::SessionRejected(reason@)),
            packet is SessionRejected ==> final(self).state() == old(self).state(),
            packet matches SignalPacket::SessionKeyExchange {
                session_id,
                ephemeral_public_key,
                identity_public_key,
                signature,
            } ==> exchanged(
                old(self).state(),
                final(self).state(),
                *session_id,
                ephemeral_public_key@,
                identity_public_key@,
                signature@,
                r,
            ),
            packet matches SignalPacket::ScreenshotData { sequence, total, last, payload, .. }
                ==> received(
                old(self).state(),
                final(self).state(),
                *sequence,
                *total,
                *last,
                payload@,
                r,
            ),
            packet is SessionClosed ==> (r matches Err(e) && e@ == SdkErrorView::Relay(
                "host closed the session"@,
            )),
            packet is SessionClosed ==> final(self).state() == old(self).state(),
            packet matches SignalPacket::HostConsoleState { state, generation, .. } ==> {
                &&& r is Ok && is_waiting(r->Ok_0)
                &&& final(self).state() == (CaptureState {
                    console_state: Some((*state, *generation)),
                    ..old(self).state()
                })
            },
            packet is SessionRequest || packet is AuthChallenge || packet is AuthResponse || packet
                is IceCandidate || packet is ScreenshotRequest || packet is ConsoleInput || packet
                is Heartbeat ==> {
                &&& r is Ok && is_waiting(r->Ok_0)
                &&& final(self).state() == old(self).state()
            },
    {
        proof {
            use_type_invariant(&*self);
        }
        match packet {
            SignalPacket::SessionAccepted { session_id, .. } => self.on_accepted(*session_id),
            SignalPacket::SessionRejected { reason, .. } => Err(
                SdkError::SessionRejected(reason.clone()),
            ),
            SignalPacket::SessionKeyExchange {
                session_id,
                ephemeral_public_key,
                identity_public_key,
                signature,
            } => self.on_key_exchange(
                *session_id,
                ephemeral_public_key.as_str(),
                identity_public_key.as_str(),
                signature.as_str(),
            ),
            SignalPacket::ScreenshotData { sequence, total, last, payload, .. } => self.on_data(
                *sequence,
                *total,
                *last,
                payload,
            ),
            SignalPacket::HostConsoleState { state, generation, .. } => {
                self.console_state = Some((*state, *generation));
                Ok(CaptureAction::Send(Vec::new()))
            },
            SignalPacket::SessionClosed { .. } => Err(
                SdkError::Relay("host closed the session".to_owned()),
            ),
            _ => Ok(CaptureAction::Send(Vec::new())),
        }
    }
}

/// Whether chunks are in the order of their places.
pub open spec fn is_ordered(chunks: Seq<Chunk>) -> bool {
    forall|i: int, j: int|
        0 <= i < j < chunks.len() ==> (#[trigger] chunks[i]).0 <= (#[trigger] chunks[j]).0
}

/// Inserting keeps the order, and adds just the one chunk.
proof fn insert_keeps(chunks: Seq<Chunk>, chunk: Chunk)
    requires
        is_ordered(chunks),
    ensures
        is_ordered(insert_chunk(chunks, chunk)),
        insert_chunk(chunks, chunk).len() == chunks.len() + 1,
        insert_chunk(chunks, chunk).to_multiset() == chunks.to_multiset().insert(chunk),
        forall|k: u32|
            (forall|i: int| 0 <= i < chunks.len() ==> (#[trigger] chunks[i]).0 <= k) && chunk.0 <= k
                ==> #[trigger] all_at_most(insert_chunk(chunks, chunk), k),
    decreases chunks.len(),
{
    broadcast use vstd::seq_lib::group_to_multiset_ensures;

    if chunks.len() == 0 || chunks.last().0 <= chunk.0 {
        assert forall|i: int, j: int| 0 <= i < j < chunks.push(chunk).len() implies (
        #[trigger] chunks.push(chunk)[i]).0 <= (#[trigger] chunks.push(chunk)[j]).0 by {
            if j == chunks.len() && i < chunks.len() - 1 {
                assert(chunks[i].0 <= chunks[chunks.len() - 1].0);
            }
        }
    } else {
        let front = chunks.drop_last();
        let last = chunks.last();
        assert forall|i: int, j: int| 0 <= i < j < front.len() implies (#[trigger] front[i]).0 <= (
        #[trigger] front[j]).0 by {
            assert(chunks[i].0 <= chunks[j].0);
        }
        insert_keeps(front, chunk);
        let inner = insert_chunk(front, chunk);
        assert forall|i: int| 0 <= i < front.len() implies (#[trigger] front[i]).0 <= last.0 by {
            assert(chunks[i].0 <= chunks[chunks.len() - 1].0);
        }
        assert(all_at_most(inner, last.0));
        let whole = inner.push(last);
        assert forall|i: int, j: int| 0 <= i < j < whole.len() implies (#[trigger] whole[i]).0 <= (
        #[trigger] whole[j]).0 by {
            if j == inner.len() {
                assert(inner[i].0 <= last.0);
            }
        }
        assert(chunks =~= front.push(last));
        assert(front.push(last).to_multiset() == front.to_multiset().insert(last));
        assert(whole.to_multiset() == inner.to_multiset().insert(last));
        assert(whole.to_multiset() =~= chunks.to_multiset().insert(chunk));
        assert forall|k: u32|
            (forall|i: int| 0 <= i < chunks.len() ==> (#[trigger] chunks[i]).0 <= k) && chunk.0
                <= k implies #[trigger] all_at_most(whole, k) by {
            assert(chunks[chunks.len() - 1].0 <= k);
            assert forall|i: int| 0 <= i < front.len() implies (#[trigger] front[i]).0 <= k by {
                assert(chunks[i].0 <= k);
            }
            assert(all_at_most(inner, k));
        }
    }
}

spec fn all_at_most(chunks: Seq<Chunk>, k: u32) -> bool {
    forall|i: int| 0 <= i < chunks.len() ==> (#[trigger] chunks[i]).0 <= k
}

/// Putting chunks in order orders them, and loses and adds none.
pub proof fn in_order_sorts(arrived: Seq<Chunk>)
    ensures
        is_ordered(in_order(arrived)),
        in_order(arrived).to_multiset() == arrived.to_multiset(),
        in_order(arrived).len() == arrived.len(),
    decreases arrived.len(),
{
    broadcast use vstd::seq_lib::group_to_multiset_ensures;

    if arrived.len() > 0 {
        let front = arrived.drop_last();
        in_order_sorts(front);
        insert_keeps(in_order(front), arrived.last());
        assert(arrived =~= front.push(arrived.last()));
    }
}

/// Ordered chunks with distinct places are determined by which chunks they are.
proof fn ordered_is_unique(a: Seq<Chunk>, b: Seq<Chunk>)
    requires
        is_ordered(a),
        forall|i: int, j: int|
            0 <= i < j < b.len() ==> (#[trigger] b[i]).0 < (#[trigger] b[j]).0,
        a.to_multiset() == b.to_multiset(),
    ensures
        a == b,
    decreases a.len(),
{
    broadcast use vstd::seq_lib::group_to_multiset_ensures;

    assert(a.len() == a.to_multiset().len());
    assert(b.len() == b.to_multiset().len());
    if a.len() > 0 {
        let n = a.len() as int;
        let top = b.last();
        assert(b[n - 1] == top);
        assert(b.to_multiset().count(top) > 0) by {
            assert(b.contains(top));
        }
        assert(a.contains(top));
        let i = choose|i: int| 0 <= i < n && a[i] == top;
        assert(a[i].0 <= a[n - 1].0);
        assert(a.contains(a[n - 1]));
        assert(b.contains(a[n - 1])) by {
            assert(b.to_multiset().count(a[n - 1]) > 0) by {
                assert(a.to_multiset().count(a[n - 1]) > 0);
            }
        }
        let j = choose|j: int| 0 <= j < n && b[j] == a[n - 1];
        assert(b[j].0 <= b[n - 1].0);
        assert(a[n - 1].0 == top.0);
        assert(j == n - 1) by {
            if j < n - 1 {
                assert(b[j].0 < b[n - 1].0);
            }
        }
        assert(a.last() == b.last());
        let af = a.drop_last();
        let bf = b.drop_last();
        assert(a =~= af.push(a.last()));
        assert(b =~= bf.push(b.last()));
        assert(af.to_multiset() =~= a.to_multiset().remove(a.last()));
        assert(bf.to_multiset() =~= b.to_multiset().remove(b.last()));
        assert forall|x: int, y: int| 0 <= x < y < af.len() implies (#[trigger] af[x]).0 <= (
        #[trigger] af[y]).0 by {
            assert(a[x].0 <= a[y].0);
        }
        assert forall|x: int, y: int| 0 <= x < y < bf.len() implies (#[trigger] bf[x]).0 < (
        #[trigger] bf[y]).0 by {
            assert(b[x].0 < b[y].0);
        }
        ordered_is_unique(af, bf);
    } else {
        assert(a =~= b);
    }
}

/// The chunks that a text is split into.
pub open spec fn split(text: Seq<char>) -> Seq<Chunk> {
    Seq::new(
        chunks::chunk_count(text.len()),
        |i: int| (i as u32, chunks::chunk_text(text, i as nat)),
    )
}

proof fn row_joins(text: Seq<char>, n: nat)
    requires
        n <= chunks::chunk_count(text.len()),
    ensures
        chunk_row(split(text).take(n as int)) + chunks::joined_from(text, n)
            == chunks::joined_from(text, 0),
    decreases n,
{
    if n == 0 {
        assert(split(text).take(0) =~= Seq::empty());
        assert(chunk_row(split(text).take(0)) + chunks::joined_from(text, 0)
            =~= chunks::joined_from(text, 0));
    } else {
        let m = (n - 1) as nat;
        row_joins(text, m);
        assert(split(text).take(n as int).drop_last() =~= split(text).take(m as int));
        assert(split(text).take(n as int).last().1 == chunks::chunk_text(text, m));
        assert(chunks::joined_from(text, m) == chunks::chunk_text(text, m) + chunks::joined_from(
            text,
            n,
        ));
        assert(chunk_row(split(text).take(n as int)) + chunks::joined_from(text, n) =~= chunk_row(
            split(text).take(m as int),
        ) + chunks::joined_from(text, m));
    }
}

/// The chunks of a text give the text again, in whatever order they arrive.
pub proof fn split_reassembles(text: Seq<char>, arrived: Seq<Chunk>)
    requires
        chunks::chunk_count(text.len()) <= u32::MAX,
        arrived.to_multiset() == split(text).to_multiset(),
    ensures
        chunk_row(in_order(arrived)) == text,
        in_order(arrived).len() == chunks::chunk_count(text.len()),
{
    broadcast use vstd::seq_lib::group_to_multiset_ensures;

    in_order_sorts(arrived);
    ordered_is_unique(in_order(arrived), split(text));
    let n = chunks::chunk_count(text.len());
    row_joins(text, n);
    assert(split(text).take(n as int) =~= split(text));
    chunks::chunks_are_whole(text);
    assert(chunks::joined_from(text, n) =~= Seq::empty());
    assert(chunk_row(split(text)) + Seq::<char>::empty() =~= chunk_row(split(text)));
}

/// A capture comes through: whatever order the packets that carry an image
/// arrive in, a client with the same channel key assembles the image from them.
pub proof fn capture_comes_through(
    packets: Seq<SignalPacketView>,
    session_id: SessionId,
    key: Seq<u8>,
    image: Seq<u8>,
    arrived: Seq<Chunk>,
)
    requires
        crate::agent::session::host::carries(packets, session_id, key, image),
        packets.len() <= u32::MAX,
        arrived.to_multiset() == packets.map_values(|p: SignalPacketView| chunk_of(p)).to_multiset(),
    ensures
        assembly_fault(arrived, packets.len() as u32, key) is None,
        assembled(arrived, key) == image,
{
    let blob = choose|blob: Seq<u8>| #[trigger]
        crate::agent::session::host::carries_blob(packets, session_id, key, image, blob);
    let text = encoding::base64_text(blob);
    assert(packets.map_values(|p: SignalPacketView| chunk_of(p)) =~= split(text));
    split_reassembles(text, arrived);
}

/// The chunk in a packet.
pub open spec fn chunk_of(packet: SignalPacketView) -> Chunk {
    match packet {
        SignalPacketView::ScreenshotData { sequence, payload, .. } => (sequence, payload),
        _ => (0, Seq::empty()),
    }
}

/// A client goes on exactly with the host that it pinned: the host shows the pinned
/// key, signed its ephemeral key with it, and answers after it accepted; and the
/// console event, where there is one, can be sealed.
pub proof fn exchange_is_bound_to_the_pinned_host(
    state: CaptureState,
    ephemeral: Seq<char>,
    identity: Seq<char>,
    signature: Seq<char>,
)
    ensures
        exchange_fault(state, ephemeral, identity, signature) is None <==> {
            &&& text::trimmed(identity) == text::trimmed(state.host_key)
            &&& encoding::is_fixed(ephemeral, 32)
            &&& encoding::is_fixed(signature, 64)
            &&& primitives::ed25519_verifies(
                encoding::fixed_bytes(state.host_key),
                encoding::fixed_bytes(ephemeral),
                encoding::fixed_bytes(signature),
            )
            &&& state.exchange is Some
            &&& state.console_input matches Some(event) ==> sealed::aead_fits(event.len())
        },
        text::trimmed(identity) != text::trimmed(state.host_key) ==> exchange_fault(
            state,
            ephemeral,
            identity,
            signature,
        ) == Some(SdkErrorView::Crypto("host identity key mismatch — possible MITM"@)),
{
}

/// An acceptance is answered with one packet, the client's signed ephemeral key for
/// that session, and changes nothing but the session and that key.
pub proof fn acceptance_is_answered_with_a_signed_key(
    before: CaptureState,
    after: CaptureState,
    session_id: SessionId,
    r: SdkResult<CaptureAction>,
)
    requires
        accepted(before, after, session_id, r),
    ensures
        after.session_id == Some(session_id),
        after.exchange is Some,
        after.seed == before.seed && after.host_key == before.host_key && after.console_input
            == before.console_input && after.channel == before.channel && after.console_state
            == before.console_state && after.chunks == before.chunks,
        r matches Ok(CaptureAction::Send(p)) && p@.len() == 1 && (
        p@[0]@ matches SignalPacketView::SessionKeyExchange {
            session_id: of,
            ephemeral_public_key,
            identity_public_key,
            signature,
        } && {
            let public = crate::crypto::session_keys::x25519_public(after.exchange->0);
            &&& of == session_id
            &&& encoding::fixed_bytes(ephemeral_public_key) == public
            &&& encoding::fixed_bytes(identity_public_key) == primitives::ed25519_public(before.seed)
            &&& primitives::ed25519_verifies(
                primitives::ed25519_public(before.seed),
                public,
                encoding::fixed_bytes(signature),
            )
        }),
{
    if let Ok(CaptureAction::Send(p)) = r {
        assert(packets::packet_views(p@).len() == 1);
        assert(packets::packet_views(p@)[0] == p@[0]@);
    }
}

/// Once the host's key is verified the client has the channel, and asks for one
/// screenshot of that session; before it goes the console event, where there is one,
/// sealed so that the host opens it, and it is sent only once. A failed exchange is an
/// error and makes no channel.
pub proof fn exchange_is_followed_by_the_request(
    before: CaptureState,
    after: CaptureState,
    session_id: SessionId,
    ephemeral: Seq<char>,
    identity: Seq<char>,
    signature: Seq<char>,
    r: SdkResult<CaptureAction>,
)
    requires
        exchanged(before, after, session_id, ephemeral, identity, signature, r),
    ensures
        r is Ok <==> exchange_fault(before, ephemeral, identity, signature) is None,
        r is Err ==> after.channel == before.channel && after.chunks == before.chunks
            && after.session_id == before.session_id,
        after.seed == before.seed && after.host_key == before.host_key && after.console_state
            == before.console_state && after.chunks == before.chunks,
        r matches Ok(action) ==> {
            let key = sealed::channel_key(
                crate::crypto::session_keys::x25519_shared(
                    before.exchange->0,
                    encoding::fixed_bytes(ephemeral),
                ),
            );
            &&& after.session_id == Some(session_id)
            &&& after.channel == Some(key)
            &&& after.exchange is None && after.console_input is None
            &&& action matches CaptureAction::Send(p)
            &&& p@.len() == (if before.console_input is Some {
                2int
            } else {
                1
            })
            &&& p@.last()@ == (SignalPacketView::ScreenshotRequest { session_id })
            &&& before.console_input matches Some(event) ==> (
            p@[0]@ matches SignalPacketView::ConsoleInput { session_id: of, payload } && of
                == session_id && (encoding::base64_decoded(payload) matches Ok(blob)
                && sealed::opened(key, blob) == Some(event)))
        },
{
    if let Ok(CaptureAction::Send(p)) = r {
        let views = packets::packet_views(p@);
        assert(views.len() == p@.len());
        assert(views.last() == p@.last()@);
        if p@.len() > 0 {
            assert(views[0] == p@[0]@);
        }
        if let Some(event) = before.console_input {
            assert(views[1] == views.last());
        }
    }
}

/// A chunk is kept behind those that came before. The client waits for more until the
/// last one or as many as there are have come; then it gives the image and closes the
/// session, or says what is wrong.
pub proof fn chunks_are_kept_until_complete(
    before: CaptureState,
    after: CaptureState,
    sequence: u32,
    total: u32,
    last: bool,
    payload: Seq<char>,
    r: SdkResult<CaptureAction>,
)
    requires
        received(before, after, sequence, total, last, payload, r),
    ensures
        ({
            let chunks = before.chunks.push((sequence, payload));
            let complete = last || chunks.len() >= total;
            &&& after.chunks.to_multiset() == chunks.to_multiset()
            &&& !complete ==> (r matches Ok(action) && is_waiting(action)) && after.chunks == chunks
            &&& complete && before.channel is None ==> r is Err
            &&& complete && before.channel is Some ==> {
                &&& r is Ok <==> assembly_fault(chunks, total, before.channel->0) is None
                &&& r matches Ok(action) ==> (action matches CaptureAction::Finished { image, close }
                    && image@ == assembled(chunks, before.channel->0) && (match before.session_id {
                    Some(session_id) => close matches Some(packet) && packet@ == (
                    SignalPacketView::SessionClosed { session_id }),
                    None => close is None,
                }))
            }
        }),
        after.channel == before.channel && after.session_id == before.session_id && after.exchange
            == before.exchange && after.seed == before.seed && after.host_key == before.host_key
            && after.console_state == before.console_state && after.console_input
            == before.console_input,
{
    in_order_sorts(before.chunks.push((sequence, payload)));
}

/// Chunks give an image exactly if there are as many as announced, their characters in
/// order are base64, and the bytes open under the channel's key; the image is what they
/// open to.
pub proof fn complete_chunks_give_the_image(arrived: Seq<Chunk>, total: u32, key: Seq<u8>)
    ensures
        assembly_fault(arrived, total, key) is None <==> {
            &&& arrived.len() == total
            &&& encoding::base64_decoded(chunk_row(in_order(arrived))) matches Ok(blob)
            &&& sealed::opened(key, blob) is Some
        },
        assembly_fault(arrived, total, key) is None ==> Some(assembled(arrived, key))
            == sealed::opened(
            key,
            encoding::base64_decoded(chunk_row(in_order(arrived)))->Ok_0,
        ),
        arrived.len() != total ==> assembly_fault(arrived, total, key) == Some(
            SdkErrorView::Relay(
                "incomplete capture: "@ + text::decimal_digits(arrived.len()) + " of "@
                    + text::decimal_digits(total as nat) + " chunks"@,
            ),
        ),
{
    in_order_sorts(arrived);
}

/// A session is asked for with the client's own identity, for the device and the
/// capability that are wanted, and the relay is left to stamp it.
pub proof fn request_names_device_and_capability(
    device_id: DeviceId,
    seed: Seq<u8>,
    capability: SessionCapability,
)
    ensures
        request_packet(device_id, seed, capability) matches SignalPacketView::SessionRequest {
            device_id: to,
            client_public_key,
            requested_capability,
            session_id,
        } && to == device_id && requested_capability == capability && session_id is None
            && client_public_key == encoding::base64_text(primitives::ed25519_public(seed)),
{
}

/// The relay accepts a token exactly by an answer whose `type` says so.
pub proof fn only_authenticated_is_accepted(answer: Seq<char>)
    ensures
        authentication_fault(answer) is None <==> (json::json_member(answer, "type"@) matches Ok(kind)
            && kind == Some("AUTHENTICATED"@)),
        json::json_member(answer, "type"@) matches Ok(kind) ==> (kind != Some("AUTHENTICATED"@)
            ==> authentication_fault(answer) == Some(
            SdkErrorView::Auth("unexpected auth response: "@ + answer),
        )),
{
}

/// The host's identity key is base64 of 32 bytes that encode a point.
pub proof fn host_keys_are_points(text: Seq<char>, n: nat)
    ensures
        fixed_fault(text, n) is None <==> encoding::is_fixed(text, n),
        host_key_fault(text) is None <==> encoding::is_fixed(text, 32)
            && primitives::ed25519_is_key(encoding::fixed_bytes(text)),
{
}

/// Decoded bytes are taken exactly where there are as many as were asked for; an error
/// tells text that is not base64 from bytes of another number.
pub proof fn bytes_have_the_asked_number(text: Seq<char>, n: nat)
    ensures
        fixed_fault(text, n) is None <==> (encoding::base64_decoded(text::trimmed(text)) matches Ok(
            bytes,
        ) && bytes.len() == n),
        fixed_fault(text, n) matches Some(fault) ==> (fault is Base64 <==> encoding::base64_decoded(
            text::trimmed(text),
        ) is Err),
        fixed_fault(text, n) matches Some(SdkErrorView::Crypto(message)) ==> message == "expected "@
            + text::decimal_digits(n) + " bytes, got "@ + text::decimal_digits(
            (encoding::base64_decoded(text::trimmed(text))->Ok_0).len(),
        ),
{
}

/// A client that waits sends nothing.
pub proof fn waiting_sends_nothing(action: CaptureAction)
    ensures
        is_waiting(action) <==> (action matches CaptureAction::Send(packets) && packets@ =~= Seq::<
            SignalPacket,
        >::empty()),
{
}

/// Chunks are put in order exactly when as many are there as were announced, and stay as
/// they came until then.
pub proof fn complete_chunks_are_put_in_order(arrived: Seq<Chunk>, total: u32)
    ensures
        arrived.len() == total ==> chunks_after(arrived, total) == in_order(arrived),
        arrived.len() != total ==> chunks_after(arrived, total) == arrived,
        chunks_after(arrived, total).to_multiset() == arrived.to_multiset(),
{
    in_order_sorts(arrived);
}

/// A capture that cannot be opened is told from one that is too short to hold a nonce.
pub proof fn closed_captures_say_why(arrived: Seq<Chunk>, total: u32, key: Seq<u8>, blob: Seq<u8>)
    requires
        arrived.len() == total,
        encoding::base64_decoded(chunk_row(in_order(arrived))) == Ok::<Seq<u8>, Seq<char>>(blob),
        sealed::opened(key, blob) is None,
    ensures
        blob.len() < 12 ==> assembly_fault(arrived, total, key) == Some(
            SdkErrorView::Crypto(
                "decrypt failed: "@ + ("decryption failed: "@ + "sealed message too short"@),
            ),
        ),
        blob.len() >= 12 ==> assembly_fault(arrived, total, key) == Some(
            SdkErrorView::Crypto("decrypt failed: "@ + ("decryption failed: "@ + "aead::Error"@)),
        ),
{
    in_order_sorts(arrived);
}

} // verus!
