//! What a client and a host reach together over the relay.

use vstd::prelude::*;

use crate::agent::session::host;
use crate::agent::session::host::{
    ConsentPolicy, HostAction, HostSession, RequestDecision, ScreenshotHost,
};
use crate::agent::trusted::{TrustedClients, TrustedEntry};
use crate::chunks;
use crate::crypto::identity::SigningKey;
use crate::crypto::primitives;
use crate::crypto::sealed;
use crate::encoding;
use crate::packets;
use crate::packets::{SessionCapability, SignalPacket, SignalPacketView};
use crate::sdk::error::{SdkError, SdkErrorView, SdkResult};
use crate::sdk::session;
use crate::sdk::session::{CaptureAction, CaptureParams, CaptureSession, CaptureState};
use crate::types::SessionId;

verus! {

/// Whether an image of `len` bytes is within the limits of a host with `policy`.
pub open spec fn within_limits(policy: ConsentPolicy, len: nat) -> bool {
    &&& host::limits_of(policy) matches Some((_, most)) ==> len <= most
    &&& sealed::aead_fits(len)
    &&& chunks::chunk_count(encoding::base64_len((len + sealed::NONCE_LEN + 16) as nat))
        <= u32::MAX
}

/// Whether `packet` is one of `total` chunks, and the last one if it is at the end.
spec fn is_chunk(packet: SignalPacketView, index: int, total: u32) -> bool {
    packet matches SignalPacketView::ScreenshotData { total: of, last, .. } && of == total && last
        == (index + 1 == total)
}

/// The error for a side that does what the other does not await.
fn out_of_step() -> (e: SdkError)
    ensures
        e@ == SdkErrorView::Relay("out of step"@),
{
    SdkError::Relay("out of step".to_owned())
}

/// The request as the relay hands it to the host: with the session stamped on it.
fn stamped(request: SignalPacket, session_id: SessionId) -> (packet: SignalPacket)
    ensures
        packet@ == (match request@ {
            SignalPacketView::SessionRequest {
                device_id,
                client_public_key,
                requested_capability,
                ..
            } => SignalPacketView::SessionRequest {
                device_id,
                client_public_key,
                requested_capability,
                session_id: Some(session_id),
            },
            other => other,
        }),
{
    match request {
        SignalPacket::SessionRequest {
            device_id,
            client_public_key,
            requested_capability,
            ..
        } => SignalPacket::SessionRequest {
            device_id,
            client_public_key,
            requested_capability,
            session_id: Some(session_id),
        },
        other => other,
    }
}

/// How a host decides the request of a client with the secret seed `client`.
pub open spec fn decision(
    trusted: Map<Seq<char>, TrustedEntry>,
    policy: ConsentPolicy,
    client: Seq<u8>,
    capability: SessionCapability,
    session_id: SessionId,
) -> RequestDecision {
    host::request_decision(
        trusted,
        policy,
        encoding::base64_text(primitives::ed25519_public(client)),
        capability,
        Some(session_id),
        None,
    )
}

/// Whether a client with `params` knows the host with the secret seed `host`, and
/// this host accepts its request.
pub open spec fn is_admitted(
    params: CaptureParams,
    host: Seq<u8>,
    trusted: Map<Seq<char>, TrustedEntry>,
    policy: ConsentPolicy,
    session_id: SessionId,
) -> bool {
    &&& params.host_public_key_b64@ == encoding::base64_text(primitives::ed25519_public(host))
    &&& decision(
        trusted,
        policy,
        params.identity@,
        params.requested_capability,
        session_id,
    ) is Accept
}

/// Whether `client` and `host` share a session: both hold its channel under one
/// key, and neither has sent or taken a capture.
pub open spec fn share_session(
    client: CaptureState,
    host: HostSession,
    capability: SessionCapability,
    session_id: SessionId,
) -> bool {
    &&& client.channel is Some
    &&& client.channel == host.channel
    &&& client.session_id == Some(session_id)
    &&& client.chunks.len() == 0
    &&& host.session_id == Some(session_id)
    &&& host.capability == Some(capability)
    &&& host.last_capture is None
}

/// A client and a host that accepts its request, whose packets reach each other
/// unchanged, hold channels with one key.
///
/// It is shown by running both sides: the result is the client, which awaits the
/// capture, the host, and the packets with which the client asks for the
/// capture, after its console event where there is one.
pub fn session_between(
    params: CaptureParams,
    host_key: SigningKey,
    trusted: TrustedClients,
    policy: ConsentPolicy,
    session_id: SessionId,
) -> (r: SdkResult<(CaptureSession, ScreenshotHost, Vec<SignalPacket>)>)
    requires
        params.console_input matches Some(event) ==> encoding::base64_len(
            (event@.len() + sealed::NONCE_LEN + 16) as nat,
        ) <= isize::MAX && sealed::aead_fits(event@.len()),
    ensures
        is_admitted(params, host_key@, trusted@, policy, session_id) ==> r is Ok,
        r matches Ok((client, host, asked)) ==> {
            &&& share_session(
                client.state(),
                host.session(),
                params.requested_capability,
                session_id,
            )
            &&& host.consent_policy() == policy
            &&& session::asks_for_capture(
                packets::packet_views(asked@),
                session_id,
                host.session().channel->0,
                match params.console_input {
                    Some(event) => Some(event@),
                    None => None,
                },
            )
        },
{
    let mut host = ScreenshotHost::new(host_key, trusted, policy);
    let (mut client, request) = match CaptureSession::begin(params) {
        Ok(begun) => begun,
        Err(e) => {
            return Err(e);
        },
    };
    let request = stamped(request, session_id);
    let accepted = match host.handle(&request, None) {
        Ok(HostAction::Reply(accepted)) => accepted,
        _ => {
            return Err(out_of_step());
        },
    };
    assert(packets::packet_views(accepted@).len() == accepted@.len());
    if accepted.len() != 2 {
        return Err(out_of_step());
    }
    assert(packets::packet_views(accepted@)[0] == accepted@[0]@);
    assert(packets::packet_views(accepted@)[1] == accepted@[1]@);
    let exchange = match client.on_packet(&accepted[0]) {
        Ok(CaptureAction::Send(exchange)) => exchange,
        _ => {
            return Err(out_of_step());
        },
    };
    assert(packets::packet_views(exchange@).len() == 1);
    if exchange.len() != 1 {
        return Err(out_of_step());
    }
    assert(packets::packet_views(exchange@)[0] == exchange@[0]@);
    match host.handle(&exchange[0], None) {
        Ok(_) => {},
        Err(_) => {
            return Err(out_of_step());
        },
    }
    match client.on_packet(&accepted[1]) {
        Ok(CaptureAction::Send(asked)) => Ok((client, host, asked)),
        _ => Err(out_of_step()),
    }
}

/// Console input comes through: the event that a client sends is what the host
/// that accepts its control session replays, if the packets reach the other side
/// unchanged and the sealed event is within the host's limit.
///
/// It is shown by running both sides: the result is the event that the host
/// would replay.
pub fn input_between(
    params: CaptureParams,
    host_key: SigningKey,
    trusted: TrustedClients,
    policy: ConsentPolicy,
    session_id: SessionId,
) -> (r: SdkResult<Vec<u8>>)
    requires
        params.requested_capability is ConsoleControl,
        params.console_input matches Some(event) && encoding::base64_len(
            (event@.len() + sealed::NONCE_LEN + 16) as nat,
        ) <= host::MAX_CONSOLE_INPUT,
    ensures
        is_admitted(params, host_key@, trusted@, policy, session_id) ==> r is Ok,
        r matches Ok(replayed) ==> replayed@ == params.console_input->0@,
{
    let ghost event = params.console_input->0@;
    let (_, mut host, asked) = match session_between(params, host_key, trusted, policy, session_id) {
        Ok(established) => established,
        Err(e) => {
            return Err(e);
        },
    };
    let ghost key = host.session().channel->0;
    if asked.len() == 0 {
        return Err(out_of_step());
    }
    proof {
        let sent = packets::packet_views(asked@)[0];
        assert(sent == asked@[0]@);
        let blob = choose|blob: Seq<u8>| #[trigger]
            sealed::is_sealing(key, event, blob) && sealed::opened(key, blob) == Some(event)
                && encoding::decodes_back(blob) && sent == (SignalPacketView::ConsoleInput {
                session_id,
                payload: encoding::base64_text(blob),
            });
        let payload = encoding::base64_text(blob);
        assert forall|i: int| 0 <= i < payload.len() implies '\0' <= #[trigger] payload[i]
            <= '\u{7f}' by {
            assert(encoding::is_base64_char(payload[i]));
        }
        vstd::utf8::is_ascii_chars_encode_utf8(payload);
        host::control_needs_permission(
            trusted@,
            policy,
            encoding::base64_text(primitives::ed25519_public(params.identity@)),
            Some(session_id),
            None,
        );
    }
    match host.handle(&asked[0], None) {
        Ok(HostAction::Inject(replayed)) => Ok(replayed),
        _ => Err(out_of_step()),
    }
}

/// A capture comes through: a client that a host admits gets the very image that
/// the host captured, if the packets reach the other side unchanged and in order.
///
/// It is shown by running both sides: the result is the image that the client
/// assembles.
pub fn capture_between(
    params: CaptureParams,
    host_key: SigningKey,
    trusted: TrustedClients,
    policy: ConsentPolicy,
    session_id: SessionId,
    image: Vec<u8>,
) -> (r: SdkResult<Vec<u8>>)
    requires
        params.console_input is None,
        encoding::base64_len((image@.len() + sealed::NONCE_LEN + 16) as nat) + chunks::CHUNK_CHARS
            <= isize::MAX,
    ensures
        is_admitted(params, host_key@, trusted@, policy, session_id) && within_limits(
            policy,
            image@.len(),
        ) ==> r is Ok,
        r matches Ok(received) ==> received@ == image@,
{
    let (mut client, mut host, asked) = match session_between(
        params,
        host_key,
        trusted,
        policy,
        session_id,
    ) {
        Ok(established) => established,
        Err(e) => {
            return Err(e);
        },
    };
    let ghost key = host.session().channel->0;
    assert(packets::packet_views(asked@).len() == 1);
    if asked.len() == 0 {
        return Err(out_of_step());
    }
    assert(packets::packet_views(asked@)[0] == asked@[0]@);
    match host.handle(&asked[0], None) {
        Ok(HostAction::Capture(_)) => {},
        _ => {
            return Err(out_of_step());
        },
    }
    let ghost captured = image@;
    let ghost refused = host::image_fault(host.session(), policy, image@.len());
    let frames = host.on_captured(session_id, Ok(image));
    let ghost sent = packets::packet_views(frames@);
    let ghost arrived = sent.map_values(|p: SignalPacketView| session::chunk_of(p));
    let ghost total = sent.len() as u32;
    proof {
        if refused is None {
            let blob = choose|blob: Seq<u8>| #[trigger]
                host::carries_blob(sent, session_id, key, captured, blob);
            assert(sent.len() == chunks::chunk_count(encoding::base64_text(blob).len()));
            session::capture_comes_through(sent, session_id, key, captured, arrived);
        }
        assert(arrived.take(0) =~= Seq::empty());
    }
    let mut i: usize = 0;
    while i < frames.len()
        invariant
            i < frames@.len() <= u32::MAX,
            sent == packets::packet_views(frames@),
            arrived == sent.map_values(|p: SignalPacketView| session::chunk_of(p)),
            total == sent.len(),
            captured == image@,
            client.state().channel == Some(key),
            client.state().chunks == arrived.take(i as int),
            within_limits(policy, image@.len()) ==> refused is None,
            refused matches Some(fault) ==> i == 0 && sent == seq![
                host::rejection(session_id, host::failure_reason(fault)),
            ],
            refused is None ==> {
                &&& forall|j: int| 0 <= j < sent.len() ==> is_chunk(#[trigger] sent[j], j, total)
                &&& session::assembly_fault(arrived, total, key) is None
                &&& session::assembled(arrived, key) == captured
            },
        decreases frames@.len() - i,
    {
        proof {
            assert(sent[i as int] == frames@[i as int]@);
            let next = arrived.take(i as int + 1);
            assert(next.drop_last() =~= arrived.take(i as int));
            assert(next.last() == session::chunk_of(sent[i as int]));
            assert(arrived.take(i as int).push(next.last()) =~= next);
            if i + 1 == frames@.len() {
                assert(next =~= arrived);
            }
        }
        match client.on_packet(&frames[i]) {
            Ok(CaptureAction::Finished { image: received, .. }) => {
                return Ok(received);
            },
            Ok(CaptureAction::Send(_)) => {},
            Err(e) => {
                return Err(e);
            },
        }
        i = i + 1;
    }
    Err(out_of_step())
}

/// An image is within the limits exactly if a host that has opened the channel sends it.
pub proof fn images_within_limits_are_sent(session: HostSession, policy: ConsentPolicy, len: nat)
    requires
        session.channel is Some,
    ensures
        within_limits(policy, len) <==> host::image_fault(session, policy, len) is None,
{
}

/// A client is admitted exactly if it pins this host's own identity and the host, asked
/// under the client's own key, accepts it without an operator.
pub proof fn admitted_clients_pin_the_host(
    params: CaptureParams,
    host: Seq<u8>,
    trusted: Map<Seq<char>, TrustedEntry>,
    policy: ConsentPolicy,
    session_id: SessionId,
)
    ensures
        is_admitted(params, host, trusted, policy, session_id) <==> {
            &&& params.host_public_key_b64@ == encoding::base64_text(
                primitives::ed25519_public(host),
            )
            &&& host::request_decision(
                trusted,
                policy,
                encoding::base64_text(primitives::ed25519_public(params.identity@)),
                params.requested_capability,
                Some(session_id),
                None,
            ) is Accept
        },
{
}

} // verus!
