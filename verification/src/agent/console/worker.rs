//! Narrow per-session worker for the real GNOME/Mutter console.
//!
//! A system broker can run before login without display privileges. The worker
//! is instead started by the *actual* GDM or GNOME session and talks to that
//! session. It has no relay credential and only accepts length-bounded requests
//! over a local socket.

use vstd::prelude::*;
use vstd::string::*;

use crate::agent::error;
use crate::agent::error::{config_error, AgentErrorView, AgentResult};
use crate::agent::input::action::{InputAction, InputActionView};
use crate::agent::session::host;
use crate::agent::session::host::is_valid_key_code;
use crate::encoding;
use crate::framing;
use crate::packets::HostConsoleState;
use crate::sdk::lan::PtrButton;
use crate::text::same_text;

verus! {

/// Maximum accepted IPC frame: commands are small and are rejected before
/// allocation grows.
pub const MAX_IPC_FRAME: usize = 65536;

/// Capture is deliberately bounded even if a compromised broker requests more.
pub const MAX_CAPTURE_TIMEOUT_MS: u64 = 15000;

/// Input accepted from the broker after its independent trusted-client check.
/// This excludes clipboard, files, shell commands, and arbitrary keycode data.
#[derive(Debug)]
pub enum ConsoleInput {
    PointerMove { x: u16, y: u16 },
    PointerButton { button: PtrButton, down: bool },
    Scroll { dx: i16, dy: i16 },
    Key { code: String, down: bool },
}

/// Commands from a local broker to this session worker.
#[derive(Debug)]
pub enum WorkerRequest {
    Ping,
    Capture { timeout_ms: u64 },
    Input { event: ConsoleInput },
    Stop,
}

/// Responses intentionally contain no session identifiers, account names,
/// passwords, or key material.
#[derive(Debug)]
pub enum WorkerResponse {
    Ready { state: HostConsoleState },
    Pong,
    Capture { png_b64: String },
    InputAccepted,
    Error { code: WorkerErrorCode },
}

/// Stable, non-sensitive worker errors for the broker and client UX.
#[derive(Debug, Clone, Copy, PartialEq, Eq, Structural)]
pub enum WorkerErrorCode {
    NoGraphicalSession,
    InvalidRequest,
    CaptureUnavailable,
}

/// What the worker does on a request.
#[derive(Debug)]
pub enum WorkerAction {
    /// Send the response.
    Respond(WorkerResponse),
    /// Capture within so many milliseconds, then send [`capture_response`].
    Capture { timeout_ms: u64 },
    /// Inject the event, then respond that it was accepted.
    Inject(InputAction),
    /// Close the connection.
    Stop,
}

/// The event to inject for an input, if it is a valid one.
pub open spec fn accepted_input(event: ConsoleInput) -> Option<InputActionView> {
    match event {
        ConsoleInput::PointerMove { x, y } => Some(InputActionView::Move { x, y }),
        ConsoleInput::PointerButton { button, down } => Some(
            InputActionView::Button { button, down },
        ),
        ConsoleInput::Scroll { dx, dy } => Some(InputActionView::Scroll { dx, dy }),
        ConsoleInput::Key { code, down } => if host::is_key_code(code@) {
            Some(InputActionView::Key { code: code@, down })
        } else {
            None
        },
    }
}

/// A capture timeout, held within its bounds.
pub open spec fn bounded_timeout(timeout_ms: u64) -> u64 {
    if timeout_ms < 1 {
        1
    } else if timeout_ms > MAX_CAPTURE_TIMEOUT_MS {
        MAX_CAPTURE_TIMEOUT_MS
    } else {
        timeout_ms
    }
}

/// Whether `action` is what a worker does on `request`.
pub open spec fn serves(request: WorkerRequest, action: WorkerAction) -> bool {
    match request {
        WorkerRequest::Ping => action == WorkerAction::Respond(WorkerResponse::Pong),
        WorkerRequest::Capture { timeout_ms } => action == (WorkerAction::Capture {
            timeout_ms: bounded_timeout(timeout_ms),
        }),
        WorkerRequest::Input { event } => match accepted_input(event) {
            Some(view) => action matches WorkerAction::Inject(a) && a@ == view,
            None => action == WorkerAction::Respond(
                WorkerResponse::Error { code: WorkerErrorCode::InvalidRequest },
            ),
        },
        WorkerRequest::Stop => action == WorkerAction::Stop,
    }
}

/// The event to inject for an input.
pub fn apply_input(event: ConsoleInput) -> (r: Result<InputAction, WorkerErrorCode>)
    ensures
        r is Ok == accepted_input(event) is Some,
        r matches Ok(action) ==> Some(action@) == accepted_input(event),
        r matches Err(code) ==> code == WorkerErrorCode::InvalidRequest,
{
    match event {
        ConsoleInput::PointerMove { x, y } => Ok(InputAction::Move { x, y }),
        ConsoleInput::PointerButton { button, down } => Ok(InputAction::Button { button, down }),
        ConsoleInput::Scroll { dx, dy } => Ok(InputAction::Scroll { dx, dy }),
        ConsoleInput::Key { code, down } => {
            if is_valid_key_code(code.as_str()) {
                Ok(InputAction::Key { code, down })
            } else {
                Err(WorkerErrorCode::InvalidRequest)
            }
        },
    }
}

/// What the worker does on a request.
pub fn on_request(request: WorkerRequest) -> (action: WorkerAction)
    ensures
        serves(request, action),
{
    match request {
        WorkerRequest::Ping => WorkerAction::Respond(WorkerResponse::Pong),
        WorkerRequest::Capture { timeout_ms } => {
            let bounded: u64 = if timeout_ms < 1 {
                1
            } else if timeout_ms > MAX_CAPTURE_TIMEOUT_MS {
                MAX_CAPTURE_TIMEOUT_MS
            } else {
                timeout_ms
            };
            WorkerAction::Capture { timeout_ms: bounded }
        },
        WorkerRequest::Input { event } => match apply_input(event) {
            Ok(action) => WorkerAction::Inject(action),
            Err(code) => WorkerAction::Respond(WorkerResponse::Error { code }),
        },
        WorkerRequest::Stop => WorkerAction::Stop,
    }
}

/// A worker never injects a key whose code is not normalized.
pub proof fn injected_keys_are_normalized(request: WorkerRequest, action: WorkerAction)
    requires
        serves(request, action),
    ensures
        action matches WorkerAction::Inject(InputAction::Key { code, .. }) ==> host::is_key_code(
            code@,
        ),
{
}

/// The response to a capture that gave a PNG image, or failed.
pub fn capture_response(png: Option<Vec<u8>>) -> (response: WorkerResponse)
    requires
        png matches Some(image) ==> encoding::base64_len(image@.len()) <= isize::MAX,
    ensures
        match png {
            Some(image) => response matches WorkerResponse::Capture { png_b64 } && png_b64@
                == encoding::base64_text(image@) && encoding::base64_decoded(png_b64@) == Ok::<
                Seq<u8>,
                Seq<char>,
            >(image@),
            None => response == (WorkerResponse::Error {
                code: WorkerErrorCode::CaptureUnavailable,
            }),
        },
{
    match png {
        Some(image) => WorkerResponse::Capture { png_b64: encoding::encode(image.as_slice()) },
        None => WorkerResponse::Error { code: WorkerErrorCode::CaptureUnavailable },
    }
}

/// Whether an optional text is the given one.
pub open spec fn is_text(value: Option<&str>, text: Seq<char>) -> bool {
    value matches Some(v) && v@ == text
}

/// Classify only the session that owns this worker, by the session class and
/// the user of its environment. `greeter` is emitted by GDM's actual user
/// session; a normal GNOME user session is a desktop.
pub fn graphical_session_state(session_class: Option<&str>, user: Option<&str>) -> (state:
    HostConsoleState)
    ensures
        state == (if is_text(session_class, "greeter"@) || is_text(user, "gdm"@) {
            HostConsoleState::GdmLogin
        } else {
            HostConsoleState::DesktopReady
        }),
        state == session_state(is_text(session_class, "greeter"@), is_text(user, "gdm"@)),
{
    let greeter = match session_class {
        Some(class) => same_text(class, "greeter"),
        None => false,
    };
    let gdm = match user {
        Some(user) => same_text(user, "gdm"),
        None => false,
    };
    if greeter || gdm {
        HostConsoleState::GdmLogin
    } else {
        HostConsoleState::DesktopReady
    }
}

/// A worker needs the runtime directory and the session bus of a graphical
/// session.
pub fn require_graphical_session(has_runtime: bool, has_session_bus: bool) -> (r: AgentResult<()>)
    ensures
        error::fails_with(
            r,
            if has_runtime && has_session_bus {
                None
            } else {
                Some(
                    AgentErrorView::Config(
                        "console worker requires the active GDM or GNOME graphical session"@,
                    ),
                )
            },
        ),
{
    if has_runtime && has_session_bus {
        Ok(())
    } else {
        Err(config_error("console worker requires the active GDM or GNOME graphical session"))
    }
}

/// How many bytes of a packet follow a header, at most `maximum`.
pub fn packet_len(header: &[u8; 4], maximum: usize) -> (r: AgentResult<usize>)
    ensures
        error::fails_with(
            r,
            if framing::be_value(header@) <= maximum {
                None
            } else {
                Some(AgentErrorView::Config("console IPC request exceeds the maximum size"@))
            },
        ),
        r matches Ok(n) ==> n == framing::be_value(header@),
{
    match framing::body_len(header, maximum) {
        Some(n) => Ok(n),
        None => Err(config_error("console IPC request exceeds the maximum size")),
    }
}

/// Put an encoded packet behind its length.
pub fn packet_frame(body: &Vec<u8>) -> (r: AgentResult<Vec<u8>>)
    ensures
        error::fails_with(
            r,
            if body@.len() <= u32::MAX {
                None
            } else {
                Some(AgentErrorView::Config("console IPC response exceeds u32"@))
            },
        ),
        r matches Ok(framed) ==> framing::is_frame(framed@, body@),
{
    match framing::frame(body) {
        Some(framed) => Ok(framed),
        None => Err(config_error("console IPC response exceeds u32")),
    }
}

/// A capture may take the time that was asked for, but never less than one
/// millisecond nor more than 15 seconds.
pub proof fn capture_time_is_bounded(request: WorkerRequest, action: WorkerAction)
    requires
        serves(request, action),
    ensures
        request matches WorkerRequest::Capture { timeout_ms } ==> (
        action matches WorkerAction::Capture { timeout_ms: given } && 1 <= given <= 15000 && (1
            <= timeout_ms <= 15000 ==> given == timeout_ms) && (timeout_ms > 15000 ==> given
            == 15000)),
{
}

/// A worker replays the input that it is sent unchanged, unless it is a key whose code
/// is not normalized: that is refused as an invalid request.
pub proof fn valid_input_is_replayed_unchanged(request: WorkerRequest, action: WorkerAction)
    requires
        serves(request, action),
    ensures
        request matches WorkerRequest::Input { event: ConsoleInput::PointerMove { x, y } } ==> (
        action matches WorkerAction::Inject(InputAction::Move { x: to_x, y: to_y }) && to_x == x
            && to_y == y),
        request matches WorkerRequest::Input {
            event: ConsoleInput::PointerButton { button, down },
        } ==> (action matches WorkerAction::Inject(InputAction::Button { button: b, down: d }) && b
            == button && d == down),
        request matches WorkerRequest::Input { event: ConsoleInput::Scroll { dx, dy } } ==> (
        action matches WorkerAction::Inject(InputAction::Scroll { dx: x, dy: y }) && x == dx && y
            == dy),
        request matches WorkerRequest::Input { event: ConsoleInput::Key { code, down } } ==> if host::is_key_code(code@) {
            action matches WorkerAction::Inject(InputAction::Key { code: c, down: d }) && c@
                == code@ && d == down
        } else {
            action matches WorkerAction::Respond(WorkerResponse::Error { code: e })
                && e is InvalidRequest
        },
{
}

/// Each request has its own kind of answer: a ping is answered, a capture and an input
/// are carried out, and only a stop closes the connection.
pub proof fn requests_are_answered_in_kind(request: WorkerRequest, action: WorkerAction)
    requires
        serves(request, action),
    ensures
        request is Ping <==> (action matches WorkerAction::Respond(response) && response is Pong),
        request is Capture <==> action is Capture,
        request is Stop <==> action is Stop,
        action is Inject ==> request is Input,
{
}

/// The state that a worker reports of its own session.
pub open spec fn session_state(greeter_class: bool, gdm_user: bool) -> HostConsoleState {
    if greeter_class || gdm_user {
        HostConsoleState::GdmLogin
    } else {
        HostConsoleState::DesktopReady
    }
}

/// A worker of the greeter or of GDM's account shows the login screen, and any other
/// a desktop.
pub proof fn greeters_show_the_login_screen(greeter_class: bool, gdm_user: bool)
    ensures
        session_state(greeter_class, gdm_user) is GdmLogin <==> greeter_class || gdm_user,
        session_state(greeter_class, gdm_user) is DesktopReady <==> !greeter_class && !gdm_user,
{
}

} // verus!
