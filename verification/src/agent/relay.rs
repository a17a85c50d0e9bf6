//! The device's side of authenticating at the relay, and what its frames mean.

use vstd::prelude::*;
use vstd::string::*;

use super::error;
use super::error::{relay_error, AgentError, AgentErrorView, AgentResult};
use crate::crypto::identity::SigningKey;
use crate::crypto::primitives;
use crate::encoding;
use crate::encoding::base64_decode;
use crate::text::joined;

verus! {

broadcast use vstd::array::group_array_axioms;

/// What the WebSocket gave.
#[derive(Debug)]
pub enum Inbound {
    /// A text frame.
    Text(String),
    /// A close frame, by its description.
    Close(String),
    /// Another frame, by its description.
    Other(String),
    /// The stream has ended.
    Ended,
    /// The stream has failed; the description of the failure.
    Failed(String),
}

/// What a device waits for while it authenticates.
#[derive(Debug, Clone, Copy, PartialEq, Eq, Structural)]
pub enum Awaiting {
    /// The answer to a user's token.
    AuthAck,
    /// The challenge for a device.
    Challenge,
    /// The answer to a device's signature.
    DeviceAck,
}

/// The fault of a frame that should be the awaited text.
pub open spec fn frame_fault(inbound: Inbound, awaiting: Awaiting) -> Option<AgentErrorView> {
    match inbound {
        Inbound::Text(_) => None,
        Inbound::Ended => Some(
            AgentErrorView::Relay(
                match awaiting {
                    Awaiting::AuthAck => "relay closed before AUTH ack"@,
                    Awaiting::Challenge => "relay closed before DEVICE_CHALLENGE"@,
                    Awaiting::DeviceAck => "relay closed before AUTHENTICATED"@,
                },
            ),
        ),
        Inbound::Failed(fault) => Some(AgentErrorView::WebSocket(fault@)),
        Inbound::Close(frame) => Some(
            AgentErrorView::Relay(
                match awaiting {
                    Awaiting::AuthAck => "relay closed during AUTH"@,
                    _ => unexpected(awaiting) + frame@,
                },
            ),
        ),
        Inbound::Other(frame) => Some(AgentErrorView::Relay(unexpected(awaiting) + frame@)),
    }
}

/// What is said of a frame that was not awaited.
pub open spec fn unexpected(awaiting: Awaiting) -> Seq<char> {
    match awaiting {
        Awaiting::AuthAck => "unexpected message during AUTH: "@,
        Awaiting::Challenge => "unexpected message awaiting challenge: "@,
        Awaiting::DeviceAck => "unexpected message awaiting AUTHENTICATED: "@,
    }
}

fn unexpected_frame(awaiting: Awaiting, frame: &str) -> (e: AgentError)
    ensures
        e@ == AgentErrorView::Relay(unexpected(awaiting) + frame@),
{
    AgentError::Relay(
        match awaiting {
            Awaiting::AuthAck => joined("unexpected message during AUTH: ", frame),
            Awaiting::Challenge => joined("unexpected message awaiting challenge: ", frame),
            Awaiting::DeviceAck => joined("unexpected message awaiting AUTHENTICATED: ", frame),
        },
    )
}

/// The awaited text of a frame.
pub fn expect_text(inbound: Inbound, awaiting: Awaiting) -> (r: AgentResult<String>)
    ensures
        error::fails_with(r, frame_fault(inbound, awaiting)),
        r matches Ok(text) ==> inbound == Inbound::Text(text),
{
    match inbound {
        Inbound::Text(text) => Ok(text),
        Inbound::Ended => Err(
            relay_error(
                match awaiting {
                    Awaiting::AuthAck => "relay closed before AUTH ack",
                    Awaiting::Challenge => "relay closed before DEVICE_CHALLENGE",
                    Awaiting::DeviceAck => "relay closed before AUTHENTICATED",
                },
            ),
        ),
        Inbound::Failed(fault) => Err(AgentError::WebSocket(fault)),
        Inbound::Close(frame) => match awaiting {
            Awaiting::AuthAck => Err(relay_error("relay closed during AUTH")),
            _ => Err(unexpected_frame(awaiting, frame.as_str())),
        },
        Inbound::Other(frame) => Err(unexpected_frame(awaiting, frame.as_str())),
    }
}

/// The signature, in base64, with which a device answers a challenge.
pub fn answer_challenge(signing_key: &SigningKey, nonce: &str) -> (r: AgentResult<String>)
    ensures
        error::fails_with(
            r,
            match encoding::base64_decoded(nonce@) {
                Ok(_) => None,
                Err(fault) => Some(AgentErrorView::Base64(fault)),
            },
        ),
        r matches Ok(signature) ==> {
            let challenge = encoding::base64_decoded(nonce@)->Ok_0;
            &&& signature@ == encoding::base64_text(
                primitives::ed25519_signature(signing_key@, challenge),
            )
            &&& encoding::is_fixed(signature@, 64)
            &&& primitives::ed25519_verifies(
                primitives::ed25519_public(signing_key@),
                challenge,
                encoding::fixed_bytes(signature@),
            )
        },
{
    let challenge = match base64_decode(nonce) {
        Ok(bytes) => bytes,
        Err(fault) => {
            return Err(AgentError::Base64(fault));
        },
    };
    let signature = signing_key.sign(challenge.as_slice()).to_bytes();
    Ok(encoding::encode(&signature))
}

/// The relay's answer to a token or a signature.
#[derive(Debug, Clone, Copy, PartialEq, Eq, Structural)]
pub enum AuthAck {
    /// It accepts.
    Authenticated,
    /// It says anything else.
    Other,
}

/// Whether the relay accepted with its answer, which reads as `ack`.
pub fn check_ack(ack: AuthAck, answer: &str, awaiting: Awaiting) -> (r: AgentResult<()>)
    ensures
        error::fails_with(
            r,
            if ack is Authenticated {
                None
            } else {
                Some(
                    AgentErrorView::Relay(
                        (if awaiting is AuthAck {
                            "AUTH rejected: "@
                        } else {
                            "DEVICE_AUTH rejected: "@
                        }) + answer@,
                    ),
                )
            },
        ),
{
    if ack == AuthAck::Authenticated {
        return Ok(());
    }
    match awaiting {
        Awaiting::AuthAck => Err(AgentError::Relay(joined("AUTH rejected: ", answer))),
        _ => Err(AgentError::Relay(joined("DEVICE_AUTH rejected: ", answer))),
    }
}

/// What a frame of an authenticated connection means.
#[derive(Debug)]
pub enum Pump {
    /// Hand this text to the host.
    Dispatch(String),
    /// Nothing.
    Ignore,
    /// The connection is closed.
    Done,
}

/// What a frame of an authenticated connection means.
pub fn pump(inbound: Inbound) -> (r: AgentResult<Pump>)
    ensures
        pumps(inbound, r),
        match inbound {
            Inbound::Text(text) => r matches Ok(p) && p == Pump::Dispatch(text),
            Inbound::Close(_) => r matches Ok(p) && p is Done,
            Inbound::Ended => r matches Ok(p) && p is Done,
            Inbound::Other(_) => r matches Ok(p) && p is Ignore,
            Inbound::Failed(fault) => r matches Err(e) && e@ == AgentErrorView::WebSocket(fault@),
        },
{
    match inbound {
        Inbound::Text(text) => Ok(Pump::Dispatch(text)),
        Inbound::Close(_) => Ok(Pump::Done),
        Inbound::Ended => Ok(Pump::Done),
        Inbound::Other(_) => Ok(Pump::Ignore),
        Inbound::Failed(fault) => Err(AgentError::WebSocket(fault)),
    }
}

/// Only a text is taken for what is awaited. A failure of the stream is one of the
/// WebSocket, anything else one of the relay.
pub proof fn only_texts_are_awaited(inbound: Inbound, awaiting: Awaiting)
    ensures
        frame_fault(inbound, awaiting) is None <==> inbound is Text,
        inbound matches Inbound::Failed(fault) ==> frame_fault(inbound, awaiting) == Some(
            AgentErrorView::WebSocket(fault@),
        ),
        inbound is Ended || inbound is Close || inbound is Other ==> (frame_fault(
            inbound,
            awaiting,
        ) matches Some(fault) && fault is Relay),
{
}

/// Whether `r` is what a frame of an authenticated connection means.
pub open spec fn pumps(inbound: Inbound, r: AgentResult<Pump>) -> bool {
    match inbound {
        Inbound::Text(text) => r matches Ok(p) && p == Pump::Dispatch(text),
        Inbound::Close(_) => r matches Ok(p) && p is Done,
        Inbound::Ended => r matches Ok(p) && p is Done,
        Inbound::Other(_) => r matches Ok(p) && p is Ignore,
        Inbound::Failed(fault) => r matches Err(e) && e@ == AgentErrorView::WebSocket(fault@),
    }
}

/// A connection hands on its texts and nothing else, each as it came; it is done exactly
/// when the peer closed it or it ended, and fails exactly when reading failed.
pub proof fn texts_are_handed_on(inbound: Inbound, r: AgentResult<Pump>)
    requires
        pumps(inbound, r),
    ensures
        (r matches Ok(p) && p is Dispatch) <==> inbound is Text,
        r matches Ok(Pump::Dispatch(text)) ==> inbound == Inbound::Text(text),
        (r matches Ok(p) && p is Done) <==> inbound is Close || inbound is Ended,
        r is Err <==> inbound is Failed,
        r matches Err(e) ==> e@ is WebSocket && e@ == AgentErrorView::WebSocket(inbound->Failed_0@),
{
}

/// What came instead of an answer is told by what was awaited.
pub proof fn unexpected_frames_are_named(awaiting: Awaiting)
    ensures
        awaiting is AuthAck ==> unexpected(awaiting) == "unexpected message during AUTH: "@,
        awaiting is Challenge ==> unexpected(awaiting) == "unexpected message awaiting challenge: "@,
        awaiting is DeviceAck ==> unexpected(awaiting)
            == "unexpected message awaiting AUTHENTICATED: "@,
{
}

} // verus!
