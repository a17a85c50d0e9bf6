//! Broker-side endpoint for the active GDM/GNOME session worker.
//!
//! The broker may own device identity and relay connectivity, but cannot call
//! Mutter or inject input itself. It must receive a worker from an explicitly
//! allow-listed local UID over a restrictive socket first.

use std::time::Duration;
use vstd::prelude::*;
use vstd::string::*;

use super::worker::{ConsoleInput, WorkerErrorCode, WorkerResponse};
use crate::agent::error;
use crate::agent::error::{config_error, relay_error, AgentError, AgentErrorView, AgentResult};
use crate::agent::session::host::ConsentPolicy;
use crate::encoding;
use crate::encoding::base64_decode;
use crate::packets::{ConsoleInputPacket, HostConsoleState, MouseButton};
use crate::sdk::lan::PtrButton;
use crate::text;
use crate::text::{decimal, joined};
use crate::time;

verus! {

/// Upper bound for a base64 PNG response (about 9 MiB decoded): 12 MiB.
pub const MAX_WORKER_RESPONSE: usize = 12582912;

/// The local accounts whose workers a broker accepts. There is at least one.
#[derive(Debug)]
pub struct AllowedWorkers {
    uids: Vec<u32>,
}

impl View for AllowedWorkers {
    type V = Set<u32>;

    /// The user IDs.
    closed spec fn view(&self) -> Set<u32> {
        self.uids@.to_set()
    }
}

impl AllowedWorkers {
    #[verifier::type_invariant]
    spec fn nonempty(self) -> bool {
        self.uids@.len() > 0
    }

    /// The accounts with the given user IDs.
    pub fn new(uids: Vec<u32>) -> (r: AgentResult<Self>)
        ensures
            error::fails_with(
                r,
                if uids@.len() > 0 {
                    None
                } else {
                    Some(
                        AgentErrorView::Config(
                            "console broker requires at least one allowed worker UID"@,
                        ),
                    )
                },
            ),
            r matches Ok(allowed) ==> allowed@ == uids@.to_set(),
    {
        if uids.len() == 0 {
            return Err(config_error("console broker requires at least one allowed worker UID"));
        }
        Ok(AllowedWorkers { uids })
    }

    /// Whether a worker that runs as `uid` is accepted.
    pub fn contains(&self, uid: u32) -> (allowed: bool)
        ensures
            allowed == self@.contains(uid),
    {
        let mut i: usize = 0;
        while i < self.uids.len()
            invariant
                i <= self.uids@.len(),
                forall|j: int| 0 <= j < i ==> #[trigger] self.uids@[j] != uid,
            decreases self.uids@.len() - i,
        {
            if self.uids[i] == uid {
                assert(self.uids@.contains(uid));
                return true;
            }
            i = i + 1;
        }
        false
    }
}

/// The ACL entry that lets a worker traverse the broker's directory.
pub fn directory_acl(uid: u32) -> (entry: String)
    ensures
        entry@ == "u:"@ + text::decimal_digits(uid as nat) + ":x"@,
{
    let mut entry = joined("u:", decimal(uid as u64).as_str());
    entry.append(":x");
    entry
}

/// The ACL entry that lets a worker read and write the broker's socket.
pub fn socket_acl(uid: u32) -> (entry: String)
    ensures
        entry@ == "u:"@ + text::decimal_digits(uid as nat) + ":rw"@,
{
    let mut entry = joined("u:", decimal(uid as u64).as_str());
    entry.append(":rw");
    entry
}

/// The console state with which a worker announces itself.
pub fn ready_state(response: &WorkerResponse) -> (r: AgentResult<HostConsoleState>)
    ensures
        error::fails_with(
            r,
            if response is Ready {
                None
            } else {
                Some(
                    AgentErrorView::Config("console worker did not send a ready handshake"@),
                )
            },
        ),
        r matches Ok(state) ==> *response == (WorkerResponse::Ready { state }),
{
    match response {
        WorkerResponse::Ready { state } => Ok(*state),
        _ => Err(config_error("console worker did not send a ready handshake")),
    }
}

/// What is said of a worker's error.
pub open spec fn error_description(code: WorkerErrorCode) -> Seq<char> {
    match code {
        WorkerErrorCode::NoGraphicalSession => "the graphical console session is unavailable"@,
        WorkerErrorCode::InvalidRequest => "the console worker rejected the request"@,
        WorkerErrorCode::CaptureUnavailable => {
            "the console worker could not capture the active display"@
        },
    }
}

/// The error that a worker's error stands for.
pub fn worker_error(code: WorkerErrorCode) -> (e: AgentError)
    ensures
        e@ == AgentErrorView::Relay(error_description(code)),
{
    let description = match code {
        WorkerErrorCode::NoGraphicalSession => "the graphical console session is unavailable",
        WorkerErrorCode::InvalidRequest => "the console worker rejected the request",
        WorkerErrorCode::CaptureUnavailable => {
            "the console worker could not capture the active display"
        },
    };
    relay_error(description)
}

/// The fault of the response to a capture request.
pub open spec fn capture_fault(response: WorkerResponse) -> Option<AgentErrorView> {
    match response {
        WorkerResponse::Capture { png_b64 } => match encoding::base64_decoded(png_b64@) {
            Err(fault) => Some(AgentErrorView::Base64(fault)),
            Ok(png) => if png.len() > MAX_WORKER_RESPONSE {
                Some(AgentErrorView::Config("console worker capture exceeds maximum size"@))
            } else {
                None
            },
        },
        WorkerResponse::Error { code } => Some(AgentErrorView::Relay(error_description(code))),
        _ => Some(AgentErrorView::Config("unexpected console worker capture response"@)),
    }
}

/// The PNG image of the response to a capture request.
pub fn captured_png(response: WorkerResponse) -> (r: AgentResult<Vec<u8>>)
    ensures
        error::fails_with(r, capture_fault(response)),
        r matches Ok(png) ==> (response matches WorkerResponse::Capture { png_b64 } && png@
            == encoding::base64_decoded(png_b64@)->Ok_0),
{
    match response {
        WorkerResponse::Capture { png_b64 } => match base64_decode(png_b64.as_str()) {
            Ok(png) => {
                if png.len() > MAX_WORKER_RESPONSE {
                    return Err(config_error("console worker capture exceeds maximum size"));
                }
                Ok(png)
            },
            Err(fault) => Err(AgentError::Base64(fault)),
        },
        WorkerResponse::Error { code } => Err(worker_error(code)),
        _ => Err(config_error("unexpected console worker capture response")),
    }
}

/// Whether the response to an input request says that it was accepted.
pub fn input_accepted(response: &WorkerResponse) -> (r: AgentResult<()>)
    ensures
        error::fails_with(
            r,
            match *response {
                WorkerResponse::InputAccepted => None,
                WorkerResponse::Error { code } => Some(
                    AgentErrorView::Relay(error_description(code)),
                ),
                _ => Some(AgentErrorView::Config("unexpected console worker input response"@)),
            },
        ),
        r is Ok <==> acknowledges(*response),
{
    match response {
        WorkerResponse::InputAccepted => Ok(()),
        WorkerResponse::Error { code } => Err(worker_error(*code)),
        _ => Err(config_error("unexpected console worker input response")),
    }
}

/// Whether `input` is what the worker is sent for `packet`.
pub open spec fn is_input_of(packet: ConsoleInputPacket, input: ConsoleInput) -> bool {
    match packet {
        ConsoleInputPacket::PointerMove { x, y } => input == (ConsoleInput::PointerMove { x, y }),
        ConsoleInputPacket::PointerButton { button, down } => input
            == (ConsoleInput::PointerButton {
            button: match button {
                MouseButton::Left => PtrButton::Left,
                MouseButton::Right => PtrButton::Right,
                MouseButton::Middle => PtrButton::Middle,
            },
            down,
        }),
        ConsoleInputPacket::Scroll { dx, dy } => input == (ConsoleInput::Scroll { dx, dy }),
        ConsoleInputPacket::Key { code, down } => input matches ConsoleInput::Key {
            code: c,
            down: d,
        } && c@ == code@ && d == down,
    }
}

/// The input to send the worker for a client's console event.
pub fn console_input(packet: ConsoleInputPacket) -> (input: ConsoleInput)
    ensures
        is_input_of(packet, input),
{
    match packet {
        ConsoleInputPacket::PointerMove { x, y } => ConsoleInput::PointerMove { x, y },
        ConsoleInputPacket::PointerButton { button, down } => ConsoleInput::PointerButton {
            button: match button {
                MouseButton::Left => PtrButton::Left,
                MouseButton::Right => PtrButton::Right,
                MouseButton::Middle => PtrButton::Middle,
            },
            down,
        },
        ConsoleInputPacket::Scroll { dx, dy } => ConsoleInput::Scroll { dx, dy },
        ConsoleInputPacket::Key { code, down } => ConsoleInput::Key { code, down },
    }
}

/// Milliseconds that a policy gives a capture: those of its timeout, and ten
/// seconds where an operator is asked.
pub open spec fn policy_timeout_ms(policy: ConsentPolicy) -> nat {
    match policy {
        ConsentPolicy::HeadlessTrustedOnly { capture_timeout, .. } => time::nanos(capture_timeout)
            / 1000000,
        ConsentPolicy::UnattendedConsole { capture_timeout, .. } => time::nanos(capture_timeout)
            / 1000000,
        ConsentPolicy::Prompt => 10000,
    }
}

/// The timeout to ask of the worker, in milliseconds.
pub fn capture_timeout_ms(policy: ConsentPolicy) -> (millis: u64)
    ensures
        millis == (if policy_timeout_ms(policy) <= u64::MAX {
            policy_timeout_ms(policy)
        } else {
            u64::MAX as nat
        }),
{
    let timeout = match policy {
        ConsentPolicy::HeadlessTrustedOnly { capture_timeout, .. } => capture_timeout,
        ConsentPolicy::UnattendedConsole { capture_timeout, .. } => capture_timeout,
        ConsentPolicy::Prompt => Duration::from_secs(10),
    };
    let millis: u128 = timeout.as_nanos() / 1000000;
    if millis <= u64::MAX as u128 {
        millis as u64
    } else {
        u64::MAX
    }
}

/// The console's worker of the moment: its state, and how many workers came so
/// far. A new worker supersedes the old one for every later request.
#[derive(Debug, Clone, Copy)]
pub struct WorkerGeneration {
    state: Option<HostConsoleState>,
    generation: u64,
}

impl WorkerGeneration {
    /// The state of the present worker.
    pub closed spec fn state(&self) -> Option<HostConsoleState> {
        self.state
    }

    /// The number of the present worker.
    pub closed spec fn generation(&self) -> u64 {
        self.generation
    }

    /// No worker yet.
    pub fn new() -> (workers: Self)
        ensures
            workers.state() is None,
            workers.generation() == 0,
    {
        WorkerGeneration { state: None, generation: 0 }
    }

    /// A worker has attached: the number of it.
    pub fn attached(&mut self, state: HostConsoleState) -> (generation: u64)
        ensures
            final(self).state() == Some(state),
            final(self).generation() == (old(self).generation() + 1) % 0x1_0000_0000_0000_0000,
            generation == final(self).generation(),
    {
        self.state = Some(state);
        self.generation = self.generation.wrapping_add(1);
        self.generation
    }

    /// The state and the number of the present worker, if there is one.
    pub fn console_state(&self) -> (console: Option<(HostConsoleState, u64)>)
        ensures
            console == (match self.state() {
                Some(state) => Some((state, self.generation())),
                None => None,
            }),
    {
        match self.state {
            Some(state) => Some((state, self.generation)),
            None => None,
        }
    }

    /// The state of the worker that is to serve a request.
    pub fn current(&self) -> (r: AgentResult<HostConsoleState>)
        ensures
            error::fails_with(
                r,
                if self.state() is Some {
                    None
                } else {
                    Some(AgentErrorView::Relay("no active graphical console worker"@))
                },
            ),
            r matches Ok(state) ==> Some(state) == self.state(),
    {
        match self.state {
            Some(state) => Ok(state),
            None => Err(no_worker_error()),
        }
    }
}

/// The error for a request that no worker can serve.
pub fn no_worker_error() -> (e: AgentError)
    ensures
        e@ == AgentErrorView::Relay("no active graphical console worker"@),
{
    relay_error("no active graphical console worker")
}

/// A response to a capture request gives an image exactly if it is a capture whose
/// base64 stands for at most 12 MiB. A worker's own error is handed on as what it
/// says, and a response of another kind is an error of its own.
pub proof fn only_captures_give_images(response: WorkerResponse)
    ensures
        capture_fault(response) is None <==> (response matches WorkerResponse::Capture { png_b64 }
            && (encoding::base64_decoded(png_b64@) matches Ok(png) && png.len() <= 12 * 1024
            * 1024)),
        response matches WorkerResponse::Error { code } ==> capture_fault(response) == Some(
            AgentErrorView::Relay(error_description(code)),
        ),
        response is Ready || response is Pong || response is InputAccepted ==> (capture_fault(
            response,
        ) matches Some(fault) && fault is Config),
{
}

/// What a client sends to the console reaches the worker unchanged: the same position,
/// the same button or key with its press or release, the same distances.
pub proof fn console_input_is_handed_on_unchanged(packet: ConsoleInputPacket, input: ConsoleInput)
    requires
        is_input_of(packet, input),
    ensures
        packet matches ConsoleInputPacket::PointerMove { x, y } ==> (
        input matches ConsoleInput::PointerMove { x: to_x, y: to_y } && to_x == x && to_y == y),
        packet matches ConsoleInputPacket::PointerButton { button, down } ==> (
        input matches ConsoleInput::PointerButton { button: b, down: d } && d == down && (
        button is Left <==> b is Left) && (button is Right <==> b is Right) && (button is Middle
            <==> b is Middle)),
        packet matches ConsoleInputPacket::Scroll { dx, dy } ==> (
        input matches ConsoleInput::Scroll { dx: x, dy: y } && x == dx && y == dy),
        packet matches ConsoleInputPacket::Key { code, down } ==> (
        input matches ConsoleInput::Key { code: c, down: d } && c@ == code@ && d == down),
{
}

/// A capture has the whole milliseconds of the policy's timeout, and ten seconds where
/// there is an operator.
pub proof fn captures_have_the_policys_time(policy: ConsentPolicy)
    ensures
        policy is Prompt ==> policy_timeout_ms(policy) == 10 * 1000,
        policy matches ConsentPolicy::HeadlessTrustedOnly { capture_timeout, .. } ==> 1000000
            * policy_timeout_ms(policy) <= time::nanos(capture_timeout) < 1000000 * (
        policy_timeout_ms(policy) + 1),
        policy matches ConsentPolicy::UnattendedConsole { capture_timeout, .. } ==> 1000000
            * policy_timeout_ms(policy) <= time::nanos(capture_timeout) < 1000000 * (
        policy_timeout_ms(policy) + 1),
{
}

/// Whether the worker's answer to an input says that it was replayed.
pub open spec fn acknowledges(response: WorkerResponse) -> bool {
    response is InputAccepted
}

/// An input counts as replayed only if the worker says so; every worker's error has a
/// description of its own.
pub proof fn errors_are_told_apart(a: WorkerErrorCode, b: WorkerErrorCode)
    ensures
        error_description(a) == error_description(b) <==> a == b,
        acknowledges(WorkerResponse::InputAccepted),
        !acknowledges(WorkerResponse::Error { code: a }),
{
    reveal_strlit("the graphical console session is unavailable");
    reveal_strlit("the console worker rejected the request");
    reveal_strlit("the console worker could not capture the active display");
    assert("the graphical console session is unavailable"@.len() == 44);
    assert("the console worker rejected the request"@.len() == 39);
    assert("the console worker could not capture the active display"@.len() == 55);
}

} // verus!
