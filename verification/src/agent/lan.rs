//! Direct-LAN host: who may connect, and what is served over a sealed channel.
//!
//! No relay involved. For each incoming connection the host runs the direct
//! handshake (PIN or key) to derive an end-to-end encrypted channel, then serves
//! requests over it. The states here take a request or an event and say what to
//! do; capturing, sending and waiting is left to the caller.

use std::time::{Duration, Instant};
use vstd::prelude::*;
use vstd::string::*;

use super::config::HeadlessConfig;
use super::error::AgentError;
use super::input::action;
use super::input::action::{input_action, InputAction};
use super::trusted::TrustedClients;
use crate::encoding;
use crate::sdk::direct::HostMode;
use crate::sdk::lan;
use crate::sdk::lan::{
    error_response, DisplayInfo, FrameDelta, LanRequest, LanResponse, LanResponseView,
};
use crate::text;
use crate::text::{decimal, joined, same_text, trim};
use crate::time;
use crate::time::{time_since, NANOS_PER_SEC};

verus! {

/// A change in LAN host session state, for an embedding app to drive its UI.
#[derive(Debug)]
pub enum HostEvent {
    /// A client started *viewing* the screen. `label` is the client's device
    /// name when it sent one, else a short network label. `key` is the client's
    /// verified identity (base64) when it announced one with a valid proof of
    /// possession.
    ClientConnected { label: String, key: Option<String> },
    /// A client's session ended.
    ClientDisconnected,
}

/// How a LAN host authenticates incoming clients.
pub enum LanAuth {
    /// Shared PIN (a wrong PIN fails the handshake).
    Password(String),
    /// Client identity, checked against a trusted store. `auto_accept` trusts
    /// any client without prompting.
    Key { trusted: TrustedClients, auto_accept: bool },
    /// Either a correct `pin` or a client whose identity key is in
    /// `trusted_keys` (base64). The client picks. The keys may change while the
    /// host serves.
    PinOrKey { pin: String, trusted_keys: Vec<String>, auto_accept: bool },
}

/// Whether `key` is in a list of keys.
pub open spec fn is_listed(keys: Seq<String>, key: Seq<char>) -> bool {
    exists|i: int| 0 <= i < keys.len() && (#[trigger] keys[i])@ == key
}

fn lists_key(keys: &Vec<String>, key: &str) -> (found: bool)
    ensures
        found == is_listed(keys@, key@),
{
    let mut i: usize = 0;
    while i < keys.len()
        invariant
            i <= keys@.len(),
            forall|j: int| 0 <= j < i ==> (#[trigger] keys@[j])@ != key@,
        decreases keys@.len() - i,
    {
        if same_text(keys[i].as_str(), key) {
            return true;
        }
        i = i + 1;
    }
    false
}

impl LanAuth {
    /// Which clients the handshake lets begin.
    pub open spec fn host_mode(&self) -> HostMode {
        match self {
            LanAuth::Password(_) => HostMode::Password,
            LanAuth::Key { .. } => HostMode::Key,
            LanAuth::PinOrKey { .. } => HostMode::Auto,
        }
    }

    /// Which clients the handshake lets begin.
    pub fn mode(&self) -> (mode: HostMode)
        ensures
            mode == self.host_mode(),
    {
        match self {
            LanAuth::Password(_) => HostMode::Password,
            LanAuth::Key { .. } => HostMode::Key,
            LanAuth::PinOrKey { .. } => HostMode::Auto,
        }
    }

    /// Whether a client that proved the identity `client_id` is let in.
    pub open spec fn trusts(&self, client_id: Seq<char>) -> bool {
        match self {
            LanAuth::Password(_) => false,
            LanAuth::Key { trusted, auto_accept } => *auto_accept || trusted@.contains_key(
                text::trimmed(client_id),
            ),
            LanAuth::PinOrKey { trusted_keys, auto_accept, .. } => *auto_accept || is_listed(
                trusted_keys@,
                client_id,
            ),
        }
    }

    /// Whether a client that proved the identity `client_id` is let in.
    pub fn admits(&self, client_id: &str) -> (admitted: bool)
        ensures
            admitted == self.trusts(client_id@),
    {
        match self {
            LanAuth::Password(_) => false,
            LanAuth::Key { trusted, auto_accept } => *auto_accept || trusted.is_trusted(client_id),
            LanAuth::PinOrKey { trusted_keys, auto_accept, .. } => {
                *auto_accept || lists_key(trusted_keys, client_id)
            },
        }
    }

    /// Trust these keys from now on, in place of those trusted so far. Only a host
    /// that goes by a list of keys has one.
    pub fn set_trusted_keys(&mut self, keys: Vec<String>)
        ensures
            *final(self) == (match *old(self) {
                LanAuth::PinOrKey { pin, trusted_keys, auto_accept } => LanAuth::PinOrKey {
                    pin,
                    trusted_keys: keys,
                    auto_accept,
                },
                other => other,
            }),
    {
        if let LanAuth::PinOrKey { trusted_keys, .. } = self {
            *trusted_keys = keys;
        }
    }

    /// The PIN, if the host has one.
    pub fn pin(&self) -> (pin: Option<&str>)
        ensures
            match self {
                LanAuth::Password(p) => pin matches Some(t) && t@ == p@,
                LanAuth::Key { .. } => pin is None,
                LanAuth::PinOrKey { pin: p, .. } => pin matches Some(t) && t@ == p@,
            },
    {
        match self {
            LanAuth::Password(pin) => Some(pin.as_str()),
            LanAuth::Key { .. } => None,
            LanAuth::PinOrKey { pin, .. } => Some(pin.as_str()),
        }
    }
}

/// How a host started by command authenticates clients: by the PIN if there is
/// one, else by their identity.
pub fn command_auth(pin: Option<String>, trusted: TrustedClients, auto_accept: bool) -> (auth:
    LanAuth)
    ensures
        auth == (match pin {
            Some(pin) => LanAuth::Password(pin),
            None => LanAuth::Key { trusted, auto_accept },
        }),
{
    match pin {
        Some(pin) => LanAuth::Password(pin),
        None => LanAuth::Key { trusted, auto_accept },
    }
}

/// The port to try when binding the wanted one failed: an assigned one, if the
/// wanted port is taken. The real port is advertised either way.
pub fn fallback_port(port: u16, in_use: bool) -> (next: Option<u16>)
    ensures
        next == other_port(port, in_use),
        next == (if port != 0 && in_use {
            Some(0u16)
        } else {
            None
        }),
{
    if port != 0 && in_use {
        Some(0)
    } else {
        None
    }
}

/// Whether a client may use a headless screenshot host: it is trusted to view.
pub open spec fn may_view_headless(
    trusted: Map<Seq<char>, super::trusted::TrustedEntry>,
    client_id: Seq<char>,
) -> bool {
    let key = text::trimmed(client_id);
    trusted.contains_key(key) && trusted[key].can_view
}

/// Whether a client may use a headless screenshot host.
pub fn headless_client_is_allowed(trusted: &TrustedClients, client_id: &str) -> (allowed: bool)
    ensures
        allowed == may_view_headless(trusted@, client_id@),
{
    match trusted.get(client_id) {
        Some(entry) => entry.can_view,
        None => false,
    }
}

/// One client of a headless screenshot host. It understands only one request,
/// an on-demand screenshot.
pub struct HeadlessSession {
    limits: HeadlessConfig,
    last_capture: Option<Instant>,
}

/// What a headless host does on a request.
#[derive(Debug)]
pub enum HeadlessStep {
    /// Send the response and close the connection.
    Refuse(LanResponse),
    /// Send the response.
    Limit(LanResponse),
    /// Capture within so many seconds, then send the response of
    /// [`HeadlessSession::capture_response`].
    Capture { timeout_secs: u64 },
}

/// Whether `step` is what a headless host does on `request`, when the last
/// capture was so long ago.
pub open spec fn headless_serves(
    limits: HeadlessConfig,
    request: LanRequest,
    since: Option<nat>,
    step: HeadlessStep,
) -> bool {
    if !(request is Screenshot) {
        step matches HeadlessStep::Refuse(response) && response@ == (LanResponseView::Error {
            message: "this headless host supports on-demand screenshots only"@,
        })
    } else if since is Some && since->0 < limits.min_capture_interval_secs * NANOS_PER_SEC {
        step matches HeadlessStep::Limit(response) && response@ == (LanResponseView::Error {
            message: "screenshot request rate limit reached; try again shortly"@,
        })
    } else {
        step == (HeadlessStep::Capture { timeout_secs: limits.capture_timeout_secs })
    }
}

/// How a headless host takes a request at `now`: the step is measured from the
/// last capture, and a capture that begins takes its place.
pub open spec fn headless_takes(
    before: &HeadlessSession,
    after: &HeadlessSession,
    request: LanRequest,
    now: Instant,
    step: HeadlessStep,
) -> bool {
    &&& after.bounds() == before.bounds()
    &&& headless_serves(before.bounds(), request, time::since(now, before.last_capture()), step)
    &&& after.last_capture() == (if step is Capture {
        Some(now)
    } else {
        before.last_capture()
    })
}

/// How a capture ended.
#[derive(Debug)]
pub enum CaptureOutcome {
    /// The PNG image.
    Captured(Vec<u8>),
    Failed,
    TimedOut,
}

/// What is sent of a capture for a headless client.
pub open spec fn headless_reply(outcome: CaptureOutcome, limits: HeadlessConfig) -> LanResponseView {
    match outcome {
        CaptureOutcome::Captured(png) => if png@.len() <= limits.max_capture_bytes {
            LanResponseView::Screenshot { png_b64: encoding::base64_text(png@) }
        } else {
            LanResponseView::Error {
                message: "screenshot exceeds the "@ + text::decimal_digits(
                    limits.max_capture_bytes as nat,
                ) + " byte safety limit"@,
            }
        },
        CaptureOutcome::Failed => LanResponseView::Error {
            message: "headless screenshot capture failed"@,
        },
        CaptureOutcome::TimedOut => LanResponseView::Error {
            message: "headless screenshot capture timed out"@,
        },
    }
}

impl HeadlessSession {
    /// The limits of the host.
    pub closed spec fn bounds(&self) -> HeadlessConfig {
        self.limits
    }

    /// When the last capture began, if one has.
    pub closed spec fn last_capture(&self) -> Option<Instant> {
        self.last_capture
    }

    /// A client that has just connected.
    pub fn new(limits: HeadlessConfig) -> (session: Self)
        ensures
            session.bounds() == limits,
            session.last_capture() is None,
    {
        HeadlessSession { limits, last_capture: None }
    }

    /// What the host does on a request, when the last capture began so long ago.
    pub fn step_after(&self, request: &LanRequest, since: Option<Duration>) -> (step: HeadlessStep)
        ensures
            headless_serves(self.bounds(), *request, time::length(since), step),
    {
        match request {
            LanRequest::Screenshot => {},
            _ => {
                return HeadlessStep::Refuse(
                    error_response("this headless host supports on-demand screenshots only"),
                );
            },
        }
        if let Some(elapsed) = since {
            let interval = Duration::from_secs(self.limits.min_capture_interval_secs);
            if elapsed.as_nanos() < interval.as_nanos() {
                return HeadlessStep::Limit(
                    error_response("screenshot request rate limit reached; try again shortly"),
                );
            }
        }
        HeadlessStep::Capture { timeout_secs: self.limits.capture_timeout_secs }
    }

    /// Take a request at the given time. A capture that begins is the last one from
    /// then on.
    pub fn on_request_at(&mut self, request: &LanRequest, now: &Instant) -> (step: HeadlessStep)
        ensures
            headless_takes(old(self), final(self), *request, *now, step),
    {
        let since = time_since(now, &self.last_capture);
        let step = self.step_after(request, since);
        if let HeadlessStep::Capture { .. } = step {
            self.last_capture = Some(*now);
        }
        step
    }

    /// Take a request. A first request for a screenshot is always served.
    pub fn on_request(&mut self, request: &LanRequest) -> (step: HeadlessStep)
        ensures
            exists|now: Instant| #[trigger]
                headless_takes(old(self), final(self), *request, now, step),
    {
        let now = Instant::now();
        self.on_request_at(request, &now)
    }

    /// The response to send for a capture.
    pub fn capture_response(&self, outcome: CaptureOutcome) -> (response: LanResponse)
        requires
            outcome matches CaptureOutcome::Captured(png) ==> encoding::base64_len(png@.len())
                <= isize::MAX,
        ensures
            response@ == headless_reply(outcome, self.bounds()),
            response@ matches LanResponseView::Screenshot { png_b64 } ==> {
                &&& lan::screenshot_fault(response@) is None
                &&& outcome matches CaptureOutcome::Captured(png)
                &&& encoding::fixed_bytes(png_b64) == png@
            },
    {
        match outcome {
            CaptureOutcome::Captured(png) => {
                if png.len() <= self.limits.max_capture_bytes {
                    return LanResponse::Screenshot { png_b64: encoding::encode(png.as_slice()) };
                }
                let mut message = joined(
                    "screenshot exceeds the ",
                    decimal(self.limits.max_capture_bytes as u64).as_str(),
                );
                message.append(" byte safety limit");
                LanResponse::Error { message }
            },
            CaptureOutcome::Failed => error_response("headless screenshot capture failed"),
            CaptureOutcome::TimedOut => error_response("headless screenshot capture timed out"),
        }
    }
}

/// Captures for a headless client keep their distance: one begins only if the last
/// one began at least the least interval before, and the next is measured from it.
pub proof fn headless_captures_are_spaced(
    before: &HeadlessSession,
    after: &HeadlessSession,
    request: LanRequest,
    now: Instant,
    step: HeadlessStep,
)
    requires
        headless_takes(before, after, request, now, step),
        step is Capture,
    ensures
        after.last_capture() == Some(now),
        before.last_capture() matches Some(last) ==> time::nanos_between(now, last)
            >= before.bounds().min_capture_interval_secs * NANOS_PER_SEC,
{
}

/// A headless host answers anything but a screenshot request by refusing it and
/// closing: no other request ever leads to a capture.
pub proof fn headless_serves_screenshots_only(
    limits: HeadlessConfig,
    request: LanRequest,
    since: Option<nat>,
    step: HeadlessStep,
)
    requires
        headless_serves(limits, request, since, step),
    ensures
        step is Capture ==> request is Screenshot,
        !(request is Screenshot) <==> step is Refuse,
{
}

/// What a headless host sends never exceeds the size limit.
pub proof fn headless_reply_is_bounded(outcome: CaptureOutcome, limits: HeadlessConfig)
    ensures
        headless_reply(outcome, limits) is Screenshot ==> (
        outcome matches CaptureOutcome::Captured(png) && png@.len() <= limits.max_capture_bytes),
{
}

/// Current "share all screens" state. `None` (no gate) or `true` means the
/// client sees and can switch every display; `false` restricts it to the primary.
pub fn share_all_now(share_all: Option<bool>) -> (on: bool)
    ensures
        on == (share_all is None || share_all->0),
{
    match share_all {
        Some(on) => on,
        None => true,
    }
}

/// Whether the host currently grants remote *input* control. `None` (no gate)
/// means open, since a headless agent's whole purpose is remote control.
pub fn control_now(control: Option<bool>) -> (on: bool)
    ensures
        on == (control is None || control->0),
{
    match control {
        Some(on) => on,
        None => true,
    }
}

/// The displays that a client is offered.
pub open spec fn offered(displays: Seq<DisplayInfo>, share_all: bool) -> Seq<DisplayInfo> {
    if share_all || displays.len() == 0 {
        displays
    } else {
        displays.take(1)
    }
}

/// The displays to offer the client: all of them when sharing is unrestricted,
/// else just the primary (the first one) so the client's screen picker hides.
pub fn allowed_displays(displays: Vec<DisplayInfo>, share_all: bool) -> (allowed: Vec<DisplayInfo>)
    ensures
        allowed@ == offered(displays@, share_all),
{
    let mut displays = displays;
    if !share_all && displays.len() > 1 {
        displays.truncate(1);
    }
    assert(!share_all && displays@.len() > 0 ==> displays@ =~= displays@.take(1));
    displays
}

/// Who is served, and whether the host is asked before it may view.
#[derive(Debug)]
pub struct ServeSession {
    /// What the client is called where it sent no name of its own.
    pub label: String,
    /// The client authenticated by PIN, not by a remembered key.
    pub needs_consent: bool,
    /// There is someone to ask.
    pub can_ask: bool,
}

/// The session of a client that the handshake let in: by the identity that it
/// proved, or from its network address when it used the PIN.
pub fn established(client_id: Option<String>, peer_ip: &str, can_ask: bool) -> (session:
    ServeSession)
    ensures
        session.can_ask == can_ask,
        session.needs_consent == client_id is None,
        session.label@ == (match client_id {
            Some(id) => id@,
            None => peer_ip@,
        }),
{
    match client_id {
        Some(id) => ServeSession { label: id, needs_consent: false, can_ask },
        None => ServeSession { label: peer_ip.to_owned(), needs_consent: true, can_ask },
    }
}

/// A live stream that is about to begin.
#[derive(Debug)]
pub struct StreamPlan {
    pub fps: u16,
    /// The display to show; `None` for the primary one.
    pub display: Option<u32>,
    /// What the viewer is called.
    pub who: String,
    /// The viewer's verified identity key.
    pub key: Option<String>,
}

/// What the host does on a request.
#[derive(Debug)]
pub enum ServeStep {
    /// Capture the screen, then send [`screenshot_response`].
    Capture,
    /// List the displays, then send those of [`allowed_displays`].
    ListDisplays,
    /// Ask the host's owner, then go on with [`on_consent`].
    AskConsent(StreamPlan),
    /// Begin the stream.
    Stream(StreamPlan),
    /// Do nothing.
    Ignore,
}

/// What a viewer is called.
pub open spec fn viewer_name(name: Option<String>, label: Seq<char>) -> Seq<char> {
    match name {
        Some(n) => if text::trimmed(n@).len() > 0 {
            n@
        } else {
            label
        },
        None => label,
    }
}

/// Whether `plan` is the stream that a request asks for. The wanted display
/// counts only when every display is shared, and an identity key only where it
/// was announced together with a proof and verified.
pub open spec fn is_plan(
    plan: StreamPlan,
    fps: u16,
    display: Option<u32>,
    who: Seq<char>,
    announced: bool,
    share_all: bool,
    verified: Option<String>,
) -> bool {
    &&& plan.fps == fps
    &&& plan.display == (if share_all {
        display
    } else {
        None
    })
    &&& plan.who@ == who
    &&& plan.key == (if announced {
        verified
    } else {
        None
    })
}

impl ServeSession {
    /// Whether `step` is what the host does on `request`.
    pub open spec fn serves(
        &self,
        request: LanRequest,
        share_all: bool,
        verified: Option<String>,
        step: ServeStep,
    ) -> bool {
        match request {
            LanRequest::Screenshot => step is Capture,
            LanRequest::ListDisplays => step is ListDisplays,
            LanRequest::StartStream { fps, display, name, identity_key, identity_sig } => {
                let who = viewer_name(name, self.label@);
                let announced = identity_key is Some && identity_sig is Some;
                if self.needs_consent && self.can_ask {
                    step matches ServeStep::AskConsent(plan) && is_plan(
                        plan,
                        fps,
                        display,
                        who,
                        announced,
                        share_all,
                        verified,
                    )
                } else {
                    step matches ServeStep::Stream(plan) && is_plan(
                        plan,
                        fps,
                        display,
                        who,
                        announced,
                        share_all,
                        verified,
                    )
                }
            },
            _ => step is Ignore,
        }
    }

    /// Take a request. `verified` is the announced identity key, if the proof
    /// that came with it holds.
    pub fn on_request(
        &self,
        request: LanRequest,
        share_all: bool,
        verified: Option<String>,
    ) -> (step: ServeStep)
        ensures
            self.serves(request, share_all, verified, step),
    {
        match request {
            LanRequest::Screenshot => ServeStep::Capture,
            LanRequest::ListDisplays => ServeStep::ListDisplays,
            LanRequest::StartStream { fps, display, name, identity_key, identity_sig } => {
                let display = if share_all {
                    display
                } else {
                    None
                };
                let who = match name {
                    Some(n) => {
                        if trim(n.as_str()).as_str().is_empty() {
                            self.label.as_str().to_owned()
                        } else {
                            n
                        }
                    },
                    None => self.label.as_str().to_owned(),
                };
                let key = if identity_key.is_some() && identity_sig.is_some() {
                    verified
                } else {
                    None
                };
                let plan = StreamPlan { fps, display, who, key };
                if self.needs_consent && self.can_ask {
                    ServeStep::AskConsent(plan)
                } else {
                    ServeStep::Stream(plan)
                }
            },
            _ => ServeStep::Ignore,
        }
    }
}

/// What follows the owner's answer. No answer in time counts as a refusal: the
/// client is told, and the connection closed.
pub fn on_consent(plan: StreamPlan, accepted: bool) -> (r: Result<StreamPlan, LanResponse>)
    ensures
        match r {
            Ok(p) => accepted && p == plan,
            Err(response) => !accepted && response@ == (LanResponseView::Error {
                message: "the host declined the connection"@,
            }),
        },
{
    if accepted {
        Ok(plan)
    } else {
        Err(error_response("the host declined the connection"))
    }
}

/// What the embedding app is told when a stream begins.
pub fn connected_event(plan: &StreamPlan) -> (event: HostEvent)
    ensures
        event matches HostEvent::ClientConnected { label, key } && label@ == plan.who@ && (
        match plan.key {
            Some(k) => key matches Some(t) && t@ == k@,
            None => key is None,
        }),
{
    let key = match &plan.key {
        Some(key) => Some(key.as_str().to_owned()),
        None => None,
    };
    HostEvent::ClientConnected { label: plan.who.as_str().to_owned(), key }
}

/// The response to a screenshot request: the image, or why there is none. A
/// client reads the image back from it.
pub fn screenshot_response(capture: Result<Vec<u8>, AgentError>) -> (response: LanResponse)
    requires
        capture matches Ok(png) ==> encoding::base64_len(png@.len()) <= isize::MAX,
    ensures
        response@ == (match capture {
            Ok(png) => LanResponseView::Screenshot { png_b64: encoding::base64_text(png@) },
            Err(e) => LanResponseView::Error { message: e@.text() },
        }),
        capture matches Ok(png) ==> {
            &&& lan::screenshot_fault(response@) is None
            &&& encoding::fixed_bytes(response@->png_b64) == png@
        },
{
    match capture {
        Ok(png) => LanResponse::Screenshot { png_b64: encoding::encode(png.as_slice()) },
        Err(e) => LanResponse::Error { message: e.to_string() },
    }
}

/// A client that is not remembered never views before the owner accepted, where
/// there is someone to ask.
pub proof fn viewing_needs_consent(
    session: ServeSession,
    request: LanRequest,
    share_all: bool,
    verified: Option<String>,
    step: ServeStep,
)
    requires
        session.needs_consent,
        session.can_ask,
        session.serves(request, share_all, verified, step),
    ensures
        !(step is Stream),
{
}

/// While not every display is shared, a stream begins on the primary one.
pub proof fn stream_begins_on_primary(
    session: ServeSession,
    request: LanRequest,
    verified: Option<String>,
    step: ServeStep,
)
    requires
        session.serves(request, false, verified, step),
    ensures
        step matches ServeStep::Stream(plan) ==> plan.display is None,
        step matches ServeStep::AskConsent(plan) ==> plan.display is None,
{
}

/// An identity key that was not verified never reaches the host's owner.
pub proof fn unverified_key_is_dropped(
    session: ServeSession,
    request: LanRequest,
    share_all: bool,
    step: ServeStep,
)
    requires
        session.serves(request, share_all, None, step),
    ensures
        step matches ServeStep::Stream(plan) ==> plan.key is None,
        step matches ServeStep::AskConsent(plan) ==> plan.key is None,
{
}

/// Why a capture ended by itself.
#[derive(Debug)]
pub enum CaptureEnd {
    Stopped,
    /// It failed, with this error.
    Failed(AgentError),
    /// Its task crashed, which is described so.
    Crashed(String),
}

/// What the viewer is told of a capture that ended by itself.
pub open spec fn end_text(end: CaptureEnd) -> Seq<char> {
    match end {
        CaptureEnd::Stopped => "capture stopped"@,
        CaptureEnd::Failed(e) => e@.text(),
        CaptureEnd::Crashed(description) => "capture task crashed: "@ + description@,
    }
}

/// What the viewer is told of a capture that ended by itself.
pub fn end_reason(end: CaptureEnd) -> (reason: String)
    ensures
        reason@ == end_text(end),
{
    match end {
        CaptureEnd::Stopped => "capture stopped".to_owned(),
        CaptureEnd::Failed(e) => e.to_string(),
        CaptureEnd::Crashed(description) => joined("capture task crashed: ", description.as_str()),
    }
}

/// What happens during a stream.
#[derive(Debug)]
pub enum StreamEvent {
    /// The capture has a frame.
    Frame(FrameDelta),
    /// The capture ended by itself.
    CaptureEnded(CaptureEnd),
    /// The client sent a request.
    Request(LanRequest),
    /// The client is gone.
    ClientGone,
    /// The owner disconnects the viewer.
    Kicked,
    /// The owner changed what is shared; these displays are offered now.
    ShareAllChanged(Vec<DisplayInfo>),
}

/// What follows in a stream.
#[derive(Debug)]
pub enum StreamNext {
    /// Go on.
    Continue,
    /// Go on if the response was sent, else end the stream.
    ContinueIfSent,
    /// List the displays, send those of [`allowed_displays`], and go on.
    ListDisplays,
    /// Inject the event and go on.
    Inject(InputAction),
    /// Capture this display instead.
    Restart(u32),
    /// End the stream.
    End,
}

/// What to send, if anything, and what follows.
#[derive(Debug)]
pub struct StreamStep {
    pub send: Option<LanResponse>,
    pub next: StreamNext,
}

/// A live stream to one viewer.
#[derive(Debug, Clone, Copy)]
pub struct StreamSession {
    /// The display that is shown; `None` for the primary one.
    pub display: Option<u32>,
}

/// The identifier of the first display.
pub open spec fn first_id(displays: Seq<DisplayInfo>) -> Option<u32> {
    if displays.len() > 0 {
        Some(displays[0].id)
    } else {
        None
    }
}

/// The display to go back to when not every display is shared any more: the
/// first one offered, unless the stream shows the primary one already.
pub open spec fn snap_back(shown: Option<u32>, displays: Seq<DisplayInfo>) -> Option<u32> {
    if shown is None || shown == first_id(displays) {
        None
    } else {
        first_id(displays)
    }
}

/// Whether a stream that shows `shown` takes `step` on a request.
pub open spec fn answers_request(
    request: LanRequest,
    share_all: bool,
    control: bool,
    step: StreamStep,
) -> bool {
    &&& step.send is None
    &&& match request {
        LanRequest::SwitchDisplay { display } => if share_all {
            step.next == StreamNext::Restart(display)
        } else {
            step.next is Continue
        },
        LanRequest::ListDisplays => step.next is ListDisplays,
        _ => match action::requested_action(request) {
            Some(view) => if control {
                step.next matches StreamNext::Inject(a) && a@ == view
            } else {
                step.next is Continue
            },
            None => step.next is Continue,
        },
    }
}

/// Whether a stream that shows `shown` takes `step` on `event`.
pub open spec fn streams(
    shown: Option<u32>,
    event: StreamEvent,
    share_all: bool,
    control: bool,
    step: StreamStep,
) -> bool {
    match event {
        StreamEvent::Frame(delta) => step.send == Some(LanResponse::Frame(delta))
            && step.next is ContinueIfSent,
        StreamEvent::CaptureEnded(end) => (step.send matches Some(response) && response@
            == (LanResponseView::Error { message: end_text(end) })) && step.next is End,
        StreamEvent::Request(request) => answers_request(request, share_all, control, step),
        StreamEvent::ClientGone => step.send is None && step.next is End,
        StreamEvent::Kicked => step.send is None && step.next is End,
        StreamEvent::ShareAllChanged(displays) => (step.send matches Some(response) && response@
            == (LanResponseView::Displays { displays: displays@ })) && (if share_all {
            step.next is Continue
        } else {
            match snap_back(shown, displays@) {
                Some(id) => step.next == StreamNext::Restart(id),
                None => step.next is Continue,
            }
        }),
    }
}

impl StreamSession {
    /// Take an event. A restart changes the display that is shown.
    pub fn on_event(&mut self, event: StreamEvent, share_all: bool, control: bool) -> (step:
        StreamStep)
        ensures
            streams(old(self).display, event, share_all, control, step),
            final(self).display == (match step.next {
                StreamNext::Restart(id) => Some(id),
                _ => old(self).display,
            }),
    {
        match event {
            StreamEvent::Frame(delta) => StreamStep {
                send: Some(LanResponse::Frame(delta)),
                next: StreamNext::ContinueIfSent,
            },
            StreamEvent::CaptureEnded(end) => StreamStep {
                send: Some(LanResponse::Error { message: end_reason(end) }),
                next: StreamNext::End,
            },
            StreamEvent::Request(request) => {
                let next = self.on_request(request, share_all, control);
                if let StreamNext::Restart(id) = &next {
                    self.display = Some(*id);
                }
                StreamStep { send: None, next }
            },
            StreamEvent::ClientGone => StreamStep { send: None, next: StreamNext::End },
            StreamEvent::Kicked => StreamStep { send: None, next: StreamNext::End },
            StreamEvent::ShareAllChanged(displays) => {
                let mut next = StreamNext::Continue;
                if !share_all && displays.len() > 0 {
                    let first: u32 = displays[0].id;
                    if let Some(shown) = self.display {
                        if shown != first {
                            next = StreamNext::Restart(first);
                            self.display = Some(first);
                        }
                    }
                }
                StreamStep { send: Some(LanResponse::Displays { displays }), next }
            },
        }
    }

    fn on_request(&self, request: LanRequest, share_all: bool, control: bool) -> (next: StreamNext)
        ensures
            answers_request(request, share_all, control, (StreamStep { send: None, next })),
    {
        match request {
            LanRequest::SwitchDisplay { display } => {
                if share_all {
                    StreamNext::Restart(display)
                } else {
                    StreamNext::Continue
                }
            },
            LanRequest::ListDisplays => StreamNext::ListDisplays,
            request => {
                if control {
                    match input_action(request) {
                        Some(action) => StreamNext::Inject(action),
                        None => StreamNext::Continue,
                    }
                } else {
                    StreamNext::Continue
                }
            },
        }
    }
}

/// A viewer never controls the host until control is granted.
pub proof fn input_needs_grant(
    shown: Option<u32>,
    event: StreamEvent,
    share_all: bool,
    step: StreamStep,
)
    requires
        streams(shown, event, share_all, false, step),
    ensures
        !(step.next is Inject),
{
}

/// While not every display is shared, no request of the viewer changes the
/// display.
pub proof fn switching_needs_sharing(
    shown: Option<u32>,
    request: LanRequest,
    control: bool,
    step: StreamStep,
)
    requires
        streams(shown, StreamEvent::Request(request), false, control, step),
    ensures
        !(step.next is Restart),
{
}

/// Once sharing every display is revoked, the stream shows the primary display
/// or the first one that is offered.
pub proof fn revoking_shows_primary(
    shown: Option<u32>,
    displays: Vec<DisplayInfo>,
    control: bool,
    step: StreamStep,
)
    requires
        displays@.len() > 0,
        streams(shown, StreamEvent::ShareAllChanged(displays), false, control, step),
    ensures
        match step.next {
            StreamNext::Restart(id) => id == displays@[0].id,
            _ => shown is None || shown == Some(displays@[0].id),
        },
{
}

/// While every display is shared, the stream that a request asks for shows the
/// display that it names, whether it begins at once or the owner is asked first.
pub proof fn shared_display_is_streamed(
    session: ServeSession,
    request: LanRequest,
    verified: Option<String>,
    step: ServeStep,
)
    requires
        session.serves(request, true, verified, step),
    ensures
        request matches LanRequest::StartStream { display, .. } ==> {
            &&& step is Stream || step is AskConsent
            &&& step matches ServeStep::Stream(plan) ==> plan.display == display
            &&& step matches ServeStep::AskConsent(plan) ==> plan.display == display
        },
{
}

/// The plan of a stream, be it begun or put to the owner.
pub open spec fn planned(step: ServeStep) -> Option<StreamPlan> {
    match step {
        ServeStep::Stream(plan) => Some(plan),
        ServeStep::AskConsent(plan) => Some(plan),
        _ => None,
    }
}

/// Only a request for a stream leads to one, and it has the frame rate that was
/// asked for. The viewer is called by the name that it sent unless that is blank, and
/// else by the label of the session. The identity key is the verified one where a key
/// and a proof were announced, and none otherwise.
pub proof fn stream_is_as_requested(
    session: ServeSession,
    request: LanRequest,
    share_all: bool,
    verified: Option<String>,
    step: ServeStep,
)
    requires
        session.serves(request, share_all, verified, step),
    ensures
        planned(step) is Some <==> request is StartStream,
        request matches LanRequest::StartStream { fps, display, name, identity_key, identity_sig }
            ==> {
            let plan = planned(step)->0;
            &&& plan.fps == fps
            &&& plan.display == display || plan.display is None
            &&& plan.display is Some ==> share_all
            &&& name is None ==> plan.who@ == session.label@
            &&& name matches Some(n) ==> plan.who@ == (if text::trimmed(n@).len() == 0 {
                session.label@
            } else {
                n@
            })
            &&& identity_key is Some && identity_sig is Some ==> plan.key == verified
            &&& identity_key is None || identity_sig is None ==> plan.key is None
        },
{
}

/// The owner is asked about a stream exactly if the client is not remembered and
/// there is someone to ask; otherwise the stream begins at once.
pub proof fn owner_is_asked_about_strangers(
    session: ServeSession,
    request: LanRequest,
    share_all: bool,
    verified: Option<String>,
    step: ServeStep,
)
    requires
        session.serves(request, share_all, verified, step),
        request is StartStream,
    ensures
        step is AskConsent <==> session.needs_consent && session.can_ask,
        step is Stream <==> !session.needs_consent || !session.can_ask,
{
}

/// Outside a stream a screenshot request leads to a capture, a request for the
/// displays to their list, and input or a switch of displays to nothing.
pub proof fn other_requests_are_served_or_ignored(
    session: ServeSession,
    request: LanRequest,
    share_all: bool,
    verified: Option<String>,
    step: ServeStep,
)
    requires
        session.serves(request, share_all, verified, step),
    ensures
        step is Capture <==> request is Screenshot,
        step is ListDisplays <==> request is ListDisplays,
        step is Ignore <==> request is SwitchDisplay || request is PointerMove
            || request is PointerButton || request is Scroll || request is Key,
{
}

/// While every display is shared all of them are offered, in their order; else only
/// the first is, if there is one.
pub proof fn offered_displays_are_the_hosts(displays: Seq<DisplayInfo>, share_all: bool)
    ensures
        share_all ==> offered(displays, share_all) == displays,
        !share_all ==> offered(displays, share_all).len() == (if displays.len() > 0 {
            1int
        } else {
            0
        }),
        forall|i: int|
            0 <= i < offered(displays, share_all).len() ==> #[trigger] offered(
                displays,
                share_all,
            )[i] == displays[i],
{
}

/// Once control is granted, the input that a viewer sends during a stream is injected
/// as it was sent.
pub proof fn granted_input_is_injected(
    shown: Option<u32>,
    request: LanRequest,
    share_all: bool,
    step: StreamStep,
)
    requires
        streams(shown, StreamEvent::Request(request), share_all, true, step),
    ensures
        request matches LanRequest::PointerMove { x, y } ==> (
        step.next matches StreamNext::Inject(InputAction::Move { x: to_x, y: to_y }) && to_x == x
            && to_y == y),
        request matches LanRequest::PointerButton { button, down } ==> (
        step.next matches StreamNext::Inject(InputAction::Button { button: b, down: d }) && b
            == button && d == down),
        request matches LanRequest::Scroll { dx, dy } ==> (
        step.next matches StreamNext::Inject(InputAction::Scroll { dx: x, dy: y }) && x == dx && y
            == dy),
        request matches LanRequest::Key { code, down } ==> (
        step.next matches StreamNext::Inject(InputAction::Key { code: c, down: d }) && c@ == code@
            && d == down),
        step.next is Inject ==> request is PointerMove || request is PointerButton
            || request is Scroll || request is Key,
{
}

/// While every display is shared, a request to switch restarts the capture on the
/// very display that it names; nothing else that a viewer asks for does.
pub proof fn switching_shows_the_named_display(
    shown: Option<u32>,
    request: LanRequest,
    control: bool,
    step: StreamStep,
)
    requires
        streams(shown, StreamEvent::Request(request), true, control, step),
    ensures
        request matches LanRequest::SwitchDisplay { display } ==> (
        step.next matches StreamNext::Restart(id) && id == display),
        step.next is Restart ==> request is SwitchDisplay,
{
}

/// A stream goes on until the capture ends, the viewer leaves or the owner ends it,
/// and no request of the viewer ends it or is answered by anything but the list of
/// displays that it asked for.
pub proof fn stream_ends_for_a_reason(
    shown: Option<u32>,
    event: StreamEvent,
    share_all: bool,
    control: bool,
    step: StreamStep,
)
    requires
        streams(shown, event, share_all, control, step),
    ensures
        step.next is End <==> event is CaptureEnded || event is ClientGone || event is Kicked,
        step.next is ContinueIfSent <==> event is Frame,
        step.next is ListDisplays <==> (event matches StreamEvent::Request(request)
            && request is ListDisplays),
        step.send is Some <==> event is Frame || event is CaptureEnded || event is ShareAllChanged,
{
}

/// A frame is sent as it was captured, and the displays as they are offered. A viewer
/// is told why the capture ended.
pub proof fn viewer_is_sent_what_happened(
    shown: Option<u32>,
    event: StreamEvent,
    share_all: bool,
    control: bool,
    step: StreamStep,
)
    requires
        streams(shown, event, share_all, control, step),
    ensures
        event matches StreamEvent::Frame(delta) ==> (step.send matches Some(LanResponse::Frame(sent))
            && sent == delta),
        event matches StreamEvent::ShareAllChanged(displays) ==> (step.send matches Some(response)
            && (response@ matches LanResponseView::Displays { displays: sent } && sent
            == displays@)),
        event matches StreamEvent::CaptureEnded(CaptureEnd::Failed(e)) ==> (
        step.send matches Some(response) && (response@ matches LanResponseView::Error { message }
            && message == e@.text())),
        event matches StreamEvent::CaptureEnded(CaptureEnd::Stopped) ==> (
        step.send matches Some(response) && (response@ matches LanResponseView::Error { message }
            && message == "capture stopped"@)),
{
}

/// Granting every display leaves the shown one; revoking leaves it only where it is
/// the primary one or the first that is offered, or where none is.
pub proof fn granting_keeps_the_display(
    shown: Option<u32>,
    displays: Vec<DisplayInfo>,
    share_all: bool,
    control: bool,
    step: StreamStep,
)
    requires
        streams(shown, StreamEvent::ShareAllChanged(displays), share_all, control, step),
    ensures
        share_all ==> step.next is Continue,
        !share_all ==> (step.next is Restart <==> shown is Some && displays@.len() > 0 && shown->0
            != displays@[0].id),
{
}

/// A host with a PIN alone admits nobody by key. One that accepts everybody admits
/// every key, and any other exactly the keys that it trusts.
pub proof fn keys_are_admitted_by_trust(auth: LanAuth, client_id: Seq<char>)
    ensures
        auth is Password ==> !auth.trusts(client_id),
        auth matches LanAuth::Key { trusted, auto_accept } ==> (auth.trusts(client_id)
            <==> auto_accept || trusted@.contains_key(text::trimmed(client_id))),
        auth matches LanAuth::PinOrKey { trusted_keys, auto_accept, .. } ==> (auth.trusts(client_id)
            <==> auto_accept || exists|i: int|
            0 <= i < trusted_keys@.len() && (#[trigger] trusted_keys@[i])@ == client_id),
{
}

/// A PIN handshake begins only with a host that has a PIN, a key handshake only with
/// one that knows keys.
pub proof fn handshakes_need_what_they_check(auth: LanAuth)
    ensures
        auth is Password <==> auth.host_mode() is Password,
        auth is Key <==> auth.host_mode() is Key,
        auth is PinOrKey <==> auth.host_mode() is Auto,
{
}

/// A client uses a headless host only if it is trusted, and trusted to view.
pub proof fn headless_viewers_are_trusted_to_view(
    trusted: Map<Seq<char>, super::trusted::TrustedEntry>,
    client_id: Seq<char>,
)
    ensures
        may_view_headless(trusted, client_id) <==> trusted.contains_key(text::trimmed(client_id))
            && trusted[text::trimmed(client_id)].can_view,
{
}

/// A request for a screenshot is served when nothing was captured within the least
/// interval, in time bounded by the configured limit, and put off otherwise.
pub proof fn headless_serves_when_rested(
    limits: HeadlessConfig,
    since: Option<nat>,
    step: HeadlessStep,
)
    requires
        headless_serves(limits, LanRequest::Screenshot, since, step),
    ensures
        since is None ==> step is Capture,
        since matches Some(elapsed) ==> (step is Capture <==> elapsed
            >= limits.min_capture_interval_secs * 1000000000),
        step matches HeadlessStep::Capture { timeout_secs } ==> timeout_secs
            == limits.capture_timeout_secs,
        step is Capture || step is Limit,
{
}

/// An image within the size limit is sent whole, to be read back from its base64
/// text; anything else is answered with an error.
pub proof fn headless_image_is_sent_whole(outcome: CaptureOutcome, limits: HeadlessConfig)
    ensures
        outcome matches CaptureOutcome::Captured(png) ==> (png@.len() <= limits.max_capture_bytes
            <==> headless_reply(outcome, limits) is Screenshot),
        headless_reply(outcome, limits) matches LanResponseView::Screenshot { png_b64 } ==> (
        outcome matches CaptureOutcome::Captured(png) && png_b64 == encoding::base64_text(png@)),
        !(outcome is Captured) ==> headless_reply(outcome, limits) is Error,
{
}

/// The port to try after one; 0 leaves the choice to the system.
pub open spec fn other_port(port: u16, in_use: bool) -> Option<u16> {
    if port != 0 && in_use {
        Some(0u16)
    } else {
        None
    }
}

/// A port is given up only for being taken, and only once: another attempt leaves the
/// choice to the system, and after that there is none.
pub proof fn taken_ports_are_left_to_the_system(port: u16, in_use: bool)
    ensures
        other_port(port, in_use) is Some <==> in_use && port > 0,
        other_port(port, in_use) matches Some(next) ==> next == 0 && other_port(next, true) is None,
{
}

/// Why a capture ended is told: that it stopped, what it failed with, or how it crashed.
pub proof fn ends_are_explained(e: AgentError, description: String)
    ensures
        end_text(CaptureEnd::Stopped) == "capture stopped"@,
        end_text(CaptureEnd::Failed(e)) == e@.text(),
        end_text(CaptureEnd::Crashed(description)) == "capture task crashed: "@ + description@,
{
}

/// A headless host captures only on request, and answers everything else with an error: a
/// request of another kind, and one that comes too soon.
pub proof fn headless_answers_with_errors(
    limits: HeadlessConfig,
    request: LanRequest,
    since: Option<nat>,
    step: HeadlessStep,
)
    requires
        headless_serves(limits, request, since, step),
    ensures
        step is Refuse <==> !(request is Screenshot),
        step is Capture ==> request is Screenshot,
        step matches HeadlessStep::Refuse(response) ==> response@ == (LanResponseView::Error {
            message: "this headless host supports on-demand screenshots only"@,
        }),
        step matches HeadlessStep::Limit(response) ==> response@ == (LanResponseView::Error {
            message: "screenshot request rate limit reached; try again shortly"@,
        }),
{
}

/// A headless host remembers when it captured last, and nothing but a capture changes
/// that; its limits stay.
pub proof fn headless_captures_are_dated(
    before: &HeadlessSession,
    after: &HeadlessSession,
    request: LanRequest,
    now: Instant,
    step: HeadlessStep,
)
    requires
        headless_takes(before, after, request, now, step),
    ensures
        step is Capture ==> after.last_capture() == Some(now),
        !(step is Capture) ==> after.last_capture() == before.last_capture(),
        after.bounds() == before.bounds(),
        before.last_capture() is None && request is Screenshot ==> step is Capture,
{
}

} // verus!
