//! How sessions of GNOME Mutter are opened over D-Bus.
//!
//! Mutter wants the calls that open a session in a certain order. The order, the
//! options of the calls and what is said of one that failed are decided here;
//! making the calls is left to the program.

use vstd::prelude::*;
use vstd::string::*;

use super::error::{AgentError, AgentErrorView};
use crate::text::joined;

verus! {

/// What a session is opened for.
#[derive(Debug, Clone, Copy, PartialEq, Eq, Structural)]
pub enum SessionKind {
    /// To capture a monitor, in a screen cast of its own.
    Capture,
    /// To capture a monitor in a screen cast that a remote-desktop session
    /// drives. This is what the greeter and a locked desktop admit.
    ConsoleCapture,
    /// To replay input: the screen cast only anchors the coordinates, and its
    /// frames are not consumed.
    Control,
}

/// A step in opening a session.
#[derive(Debug, Clone, Copy, PartialEq, Eq, Structural)]
pub enum Step {
    /// Connect to the session bus.
    Connect,
    /// Call `CreateSession` of the remote desktop.
    CreateRemoteDesktop,
    /// Read `SessionId` of the remote-desktop session.
    ReadSessionId,
    /// Call `CreateSession` of the screen cast.
    CreateCast,
    /// Call `Start` of the remote-desktop session.
    StartRemoteDesktop,
    /// Call `RecordMonitor` of the screen-cast session.
    RecordMonitor,
    /// Subscribe to `PipeWireStreamAdded` of the stream.
    Subscribe,
    /// Call `Start` of the screen-cast session.
    StartCast,
    /// Call `Start` of the stream.
    StartStream,
    /// Wait for `PipeWireStreamAdded`, and read the node from it.
    AwaitNode,
}

/// The steps that open a session, in order.
pub open spec fn steps_of(kind: SessionKind) -> Seq<Step> {
    match kind {
        SessionKind::Capture => seq![
            Step::Connect,
            Step::CreateCast,
            Step::RecordMonitor,
            Step::Subscribe,
            Step::StartCast,
            Step::AwaitNode,
        ],
        SessionKind::ConsoleCapture => seq![
            Step::Connect,
            Step::CreateRemoteDesktop,
            Step::ReadSessionId,
            Step::CreateCast,
            Step::StartRemoteDesktop,
            Step::RecordMonitor,
            Step::Subscribe,
            Step::StartStream,
            Step::AwaitNode,
        ],
        SessionKind::Control => seq![
            Step::Connect,
            Step::CreateRemoteDesktop,
            Step::ReadSessionId,
            Step::CreateCast,
            Step::RecordMonitor,
            Step::StartRemoteDesktop,
        ],
    }
}

/// The steps that open a session, in order.
pub fn steps(kind: SessionKind) -> (steps: Vec<Step>)
    ensures
        steps@ == steps_of(kind),
{
    let mut steps: Vec<Step> = Vec::new();
    steps.push(Step::Connect);
    match kind {
        SessionKind::Capture => {
            steps.push(Step::CreateCast);
            steps.push(Step::RecordMonitor);
            steps.push(Step::Subscribe);
            steps.push(Step::StartCast);
            steps.push(Step::AwaitNode);
        },
        SessionKind::ConsoleCapture => {
            steps.push(Step::CreateRemoteDesktop);
            steps.push(Step::ReadSessionId);
            steps.push(Step::CreateCast);
            steps.push(Step::StartRemoteDesktop);
            steps.push(Step::RecordMonitor);
            steps.push(Step::Subscribe);
            steps.push(Step::StartStream);
            steps.push(Step::AwaitNode);
        },
        SessionKind::Control => {
            steps.push(Step::CreateRemoteDesktop);
            steps.push(Step::ReadSessionId);
            steps.push(Step::CreateCast);
            steps.push(Step::RecordMonitor);
            steps.push(Step::StartRemoteDesktop);
        },
    }
    assert(steps@ =~= steps_of(kind));
    steps
}

/// Whether `first` stands before every `second` among the steps of a session.
pub open spec fn precedes(kind: SessionKind, first: Step, second: Step) -> bool {
    forall|j: int|
        0 <= j < steps_of(kind).len() && #[trigger] steps_of(kind)[j] == second ==> exists|i: int|
            0 <= i < j && #[trigger] steps_of(kind)[i] == first
}

/// The signal that announces the node cannot be missed: it is subscribed to
/// before anything is started that sends it.
pub proof fn signal_is_not_missed(kind: SessionKind)
    ensures
        precedes(kind, Step::Subscribe, Step::StartCast),
        precedes(kind, Step::Subscribe, Step::StartStream),
        precedes(kind, Step::Subscribe, Step::AwaitNode),
{
    let steps = steps_of(kind);
    match kind {
        SessionKind::Capture => {
            assert(steps[3] == Step::Subscribe);
        },
        SessionKind::ConsoleCapture => {
            assert(steps[6] == Step::Subscribe);
        },
        SessionKind::Control => {},
    }
}

/// A screen cast that a remote-desktop session drives is made only once that
/// session has an identifier to name it by.
pub proof fn driver_is_known(kind: SessionKind)
    requires
        kind != SessionKind::Capture,
    ensures
        precedes(kind, Step::CreateRemoteDesktop, Step::ReadSessionId),
        precedes(kind, Step::ReadSessionId, Step::CreateCast),
{
    let steps = steps_of(kind);
    assert(steps[1] == Step::CreateRemoteDesktop);
    assert(steps[2] == Step::ReadSessionId);
}

/// A console capture starts its remote-desktop session before it records a
/// monitor.
pub proof fn driver_starts_first()
    ensures
        precedes(SessionKind::ConsoleCapture, Step::StartRemoteDesktop, Step::RecordMonitor),
{
    assert(steps_of(SessionKind::ConsoleCapture)[4] == Step::StartRemoteDesktop);
}

/// An option of a screen-cast session.
#[derive(Debug)]
pub enum CastOption {
    /// `remote-desktop-session-id`: the session that drives it.
    RemoteDesktopSessionId(String),
    /// `disable-animations`.
    DisableAnimations,
}

/// The options of `CreateSession` of the screen cast. A cast that is driven by a
/// remote-desktop session names it; a console capture also does without
/// animations, which delay the first stable frame.
pub fn cast_options(kind: SessionKind, session_id: &str) -> (options: Vec<CastOption>)
    ensures
        are_options(kind, session_id@, options@),
        match kind {
            SessionKind::Capture => options@.len() == 0,
            SessionKind::ConsoleCapture => {
                &&& options@.len() == 2
                &&& options@[0] matches CastOption::RemoteDesktopSessionId(id) && id@ == session_id@
                &&& options@[1] is DisableAnimations
            },
            SessionKind::Control => {
                &&& options@.len() == 1
                &&& options@[0] matches CastOption::RemoteDesktopSessionId(id) && id@ == session_id@
            },
        },
{
    let mut options: Vec<CastOption> = Vec::new();
    match kind {
        SessionKind::Capture => {},
        SessionKind::ConsoleCapture => {
            options.push(CastOption::RemoteDesktopSessionId(session_id.to_owned()));
            options.push(CastOption::DisableAnimations);
        },
        SessionKind::Control => {
            options.push(CastOption::RemoteDesktopSessionId(session_id.to_owned()));
        },
    }
    options
}

/// The `cursor-mode` of `RecordMonitor`, where it is given: captures embed the
/// cursor, so that the viewer sees where the host is pointing.
pub fn cursor_mode(kind: SessionKind) -> (mode: Option<u32>)
    ensures
        mode == cursor_mode_of(kind),
        mode == (if kind == SessionKind::Control {
            None
        } else {
            Some(1u32)
        }),
{
    match kind {
        SessionKind::Control => None,
        SessionKind::Capture | SessionKind::ConsoleCapture => Some(1),
    }
}

/// Whether a step is a call of the remote desktop.
pub open spec fn is_remote_desktop(step: Step) -> bool {
    step is CreateRemoteDesktop || step is ReadSessionId || step is StartRemoteDesktop
}

/// The error for a step that failed with `cause`.
pub fn step_error(kind: SessionKind, step: Step, cause: &str) -> (e: AgentError)
    ensures
        e@ == step_fault(kind, step, cause@),
        e@ == (if kind == SessionKind::Control {
            AgentErrorView::Input("Mutter RemoteDesktop D-Bus error: "@ + cause@)
        } else if is_remote_desktop(step) {
            AgentErrorView::Lan("Mutter RemoteDesktop D-Bus error: "@ + cause@)
        } else {
            AgentErrorView::Lan("Mutter ScreenCast D-Bus error: "@ + cause@)
        }),
{
    match kind {
        SessionKind::Control => AgentError::Input(
            joined("Mutter RemoteDesktop D-Bus error: ", cause),
        ),
        SessionKind::Capture | SessionKind::ConsoleCapture => match step {
            Step::CreateRemoteDesktop | Step::ReadSessionId | Step::StartRemoteDesktop => {
                AgentError::Lan(joined("Mutter RemoteDesktop D-Bus error: ", cause))
            },
            _ => AgentError::Lan(joined("Mutter ScreenCast D-Bus error: ", cause)),
        },
    }
}

/// The error for a stream whose node was never announced.
pub fn no_node_error() -> (e: AgentError)
    ensures
        e@ == AgentErrorView::Lan("Mutter sent no PipeWireStreamAdded"@),
{
    AgentError::Lan("Mutter sent no PipeWireStreamAdded".to_owned())
}

/// Every session begins by connecting, makes a cast and records a monitor in it; a
/// remote-desktop session is made exactly where one drives the cast, and is started
/// there. A capture waits for its node at the end, and input waits for none.
pub proof fn sessions_have_what_they_need(kind: SessionKind)
    ensures
        steps_of(kind)[0] == Step::Connect,
        steps_of(kind).contains(Step::CreateCast),
        steps_of(kind).contains(Step::RecordMonitor),
        precedes(kind, Step::CreateCast, Step::RecordMonitor),
        steps_of(kind).contains(Step::CreateRemoteDesktop) <==> kind != SessionKind::Capture,
        steps_of(kind).contains(Step::StartRemoteDesktop) <==> kind != SessionKind::Capture,
        steps_of(kind).contains(Step::StartCast) <==> kind == SessionKind::Capture,
        steps_of(kind).contains(Step::StartStream) <==> kind == SessionKind::ConsoleCapture,
        steps_of(kind).contains(Step::AwaitNode) <==> kind != SessionKind::Control,
        kind != SessionKind::Control ==> steps_of(kind).last() == Step::AwaitNode,
        kind == SessionKind::Control ==> steps_of(kind).last() == Step::StartRemoteDesktop,
{
    let steps = steps_of(kind);
    match kind {
        SessionKind::Capture => {
            assert(steps[1] == Step::CreateCast);
            assert(steps[2] == Step::RecordMonitor);
            assert(steps[4] == Step::StartCast);
            assert(steps[5] == Step::AwaitNode);
        },
        SessionKind::ConsoleCapture => {
            assert(steps[1] == Step::CreateRemoteDesktop);
            assert(steps[3] == Step::CreateCast);
            assert(steps[4] == Step::StartRemoteDesktop);
            assert(steps[5] == Step::RecordMonitor);
            assert(steps[7] == Step::StartStream);
            assert(steps[8] == Step::AwaitNode);
        },
        SessionKind::Control => {
            assert(steps[1] == Step::CreateRemoteDesktop);
            assert(steps[3] == Step::CreateCast);
            assert(steps[4] == Step::RecordMonitor);
            assert(steps[5] == Step::StartRemoteDesktop);
        },
    }
}

/// Whether these are the options of a screen cast of a session.
pub open spec fn are_options(
    kind: SessionKind,
    session_id: Seq<char>,
    options: Seq<CastOption>,
) -> bool {
    match kind {
        SessionKind::Capture => options.len() == 0,
        SessionKind::ConsoleCapture => {
            &&& options.len() == 2
            &&& options[0] matches CastOption::RemoteDesktopSessionId(id) && id@ == session_id
            &&& options[1] is DisableAnimations
        },
        SessionKind::Control => {
            &&& options.len() == 1
            &&& options[0] matches CastOption::RemoteDesktopSessionId(id) && id@ == session_id
        },
    }
}

/// A cast names a session exactly if one drives it, and then that one; only a console
/// capture does without animations.
pub proof fn casts_name_their_driver(
    kind: SessionKind,
    session_id: Seq<char>,
    options: Seq<CastOption>,
)
    requires
        are_options(kind, session_id, options),
    ensures
        (exists|i: int|
            0 <= i < options.len() && #[trigger] options[i] is RemoteDesktopSessionId) <==> kind
            != SessionKind::Capture,
        forall|i: int|
            0 <= i < options.len() && #[trigger] options[i] is RemoteDesktopSessionId
                ==> options[i]->RemoteDesktopSessionId_0@ == session_id,
        (exists|i: int| 0 <= i < options.len() && #[trigger] options[i] is DisableAnimations)
            <==> kind == SessionKind::ConsoleCapture,
{
    if kind != SessionKind::Capture {
        assert(options[0] is RemoteDesktopSessionId);
    }
    if kind == SessionKind::ConsoleCapture {
        assert(options[1] is DisableAnimations);
    }
}

/// How the cursor is recorded, where a monitor is recorded to be seen.
pub open spec fn cursor_mode_of(kind: SessionKind) -> Option<u32> {
    if kind == SessionKind::Control {
        None
    } else {
        Some(1u32)
    }
}

/// What is recorded to be seen has the cursor drawn in; what is recorded only to place
/// the pointer says nothing of it.
pub proof fn seen_streams_show_the_cursor(kind: SessionKind)
    ensures
        cursor_mode_of(kind) is Some <==> kind == SessionKind::Capture || kind
            == SessionKind::ConsoleCapture,
        cursor_mode_of(kind) matches Some(mode) ==> mode == 1,
{
}

/// What a step fails with.
pub open spec fn step_fault(kind: SessionKind, step: Step, cause: Seq<char>) -> AgentErrorView {
    if kind == SessionKind::Control {
        AgentErrorView::Input("Mutter RemoteDesktop D-Bus error: "@ + cause)
    } else if is_remote_desktop(step) {
        AgentErrorView::Lan("Mutter RemoteDesktop D-Bus error: "@ + cause)
    } else {
        AgentErrorView::Lan("Mutter ScreenCast D-Bus error: "@ + cause)
    }
}

/// A failed step is an input error exactly in a session for control. Outside of one, the
/// service that failed is named: the remote desktop for its own three steps, and the
/// screen cast for every other.
pub proof fn failed_steps_name_the_service(kind: SessionKind, step: Step, cause: Seq<char>)
    ensures
        step_fault(kind, step, cause) is Input <==> kind == SessionKind::Control,
        step_fault(kind, step, cause) is Lan <==> kind != SessionKind::Control,
        kind == SessionKind::Control ==> step_fault(kind, step, cause)->Input_0
            == "Mutter RemoteDesktop D-Bus error: "@ + cause,
        kind != SessionKind::Control && (step == Step::CreateRemoteDesktop || step
            == Step::ReadSessionId || step == Step::StartRemoteDesktop) ==> step_fault(
            kind,
            step,
            cause,
        )->Lan_0 == "Mutter RemoteDesktop D-Bus error: "@ + cause,
        kind != SessionKind::Control && step != Step::CreateRemoteDesktop && step
            != Step::ReadSessionId && step != Step::StartRemoteDesktop ==> step_fault(
            kind,
            step,
            cause,
        )->Lan_0 == "Mutter ScreenCast D-Bus error: "@ + cause,
{
}

} // verus!
