//! The lifecycle of the physical console, as a client sees it.

use vstd::prelude::*;

use crate::packets::HostConsoleState;

verus! {

/// Sanitized result of Linux seat discovery. It deliberately holds no account
/// name, session ID, display address, or other privacy-sensitive metadata.
#[derive(Debug, Clone, Copy, PartialEq, Eq, Structural)]
pub struct ConsoleObservation {
    /// The non-root RivetLink broker is connected and healthy.
    pub broker_online: bool,
    /// The local GDM greeter currently owns the physical seat0 console.
    pub gdm_active: bool,
    /// A graphical user session currently owns the physical seat0 console.
    pub desktop_active: bool,
    /// The active graphical desktop reports its normal lock screen.
    pub desktop_locked: bool,
}

impl ConsoleObservation {
    /// The absence of an active owner during a normal handover, rather than a
    /// broker failure, means the display is switching sessions.
    #[must_use]
    pub fn switching() -> (observation: Self)
        ensures
            observation.broker_online,
            !observation.gdm_active,
            !observation.desktop_active,
            !observation.desktop_locked,
    {
        ConsoleObservation {
            broker_online: true,
            gdm_active: false,
            desktop_active: false,
            desktop_locked: false,
        }
    }
}

/// Converts Linux seat observations into the externally visible lifecycle and
/// maintains a monotonically increasing generation for capture restarts.
#[derive(Debug, Clone, Copy)]
pub struct ConsoleStateMachine {
    state: HostConsoleState,
    generation: u64,
}

/// The state that an observation leads to. An owner of the console decides by
/// itself; without one it depends on who owned the console before.
pub open spec fn next_state(
    observation: ConsoleObservation,
    previous: HostConsoleState,
) -> HostConsoleState {
    if !observation.broker_online {
        HostConsoleState::Offline
    } else if observation.gdm_active {
        HostConsoleState::GdmLogin
    } else if observation.desktop_active && observation.desktop_locked {
        HostConsoleState::SessionLocked
    } else if observation.desktop_active {
        HostConsoleState::DesktopReady
    } else if previous == HostConsoleState::Booting || previous == HostConsoleState::Offline {
        HostConsoleState::Booting
    } else if previous == HostConsoleState::GdmLogin {
        HostConsoleState::SessionStarting
    } else {
        HostConsoleState::SessionSwitching
    }
}

/// The state and the generation after an observation.
pub open spec fn next_console(
    observation: ConsoleObservation,
    before: (HostConsoleState, u64),
) -> (HostConsoleState, u64) {
    let next = next_state(observation, before.0);
    if next == before.0 {
        before
    } else if before.1 == u64::MAX {
        (next, before.1)
    } else {
        (next, (before.1 + 1) as u64)
    }
}

impl View for ConsoleStateMachine {
    type V = (HostConsoleState, u64);

    /// The state and the capture generation.
    closed spec fn view(&self) -> (HostConsoleState, u64) {
        (self.state, self.generation)
    }
}

impl Default for ConsoleStateMachine {
    /// The state at boot.
    fn default() -> (machine: Self)
        ensures
            machine@ == (HostConsoleState::Booting, 0u64),
    {
        ConsoleStateMachine { state: HostConsoleState::Booting, generation: 0 }
    }
}

impl ConsoleStateMachine {
    /// Apply one discovery observation. Returns `Some` only if the public state
    /// changed; a changed state always increments the capture generation.
    pub fn observe(&mut self, observation: ConsoleObservation) -> (change: Option<
        (HostConsoleState, u64),
    >)
        ensures
            final(self)@ == next_console(observation, old(self)@),
            change == (if next_state(observation, old(self)@.0) == old(self)@.0 {
                None
            } else {
                Some(final(self)@)
            }),
    {
        let next = state_for(observation, self.state);
        if next == self.state {
            return None;
        }
        self.state = next;
        self.generation = self.generation.saturating_add(1);
        Some((self.state, self.generation))
    }

    /// Current state and capture generation, including the initial boot state.
    #[must_use]
    pub fn current(&self) -> (now: (HostConsoleState, u64))
        ensures
            now == self@,
    {
        (self.state, self.generation)
    }
}

/// The state that an observation leads to.
pub fn state_for(observation: ConsoleObservation, previous: HostConsoleState) -> (next:
    HostConsoleState)
    ensures
        next == next_state(observation, previous),
{
    if !observation.broker_online {
        return HostConsoleState::Offline;
    }
    if observation.gdm_active {
        return HostConsoleState::GdmLogin;
    }
    if observation.desktop_active {
        return if observation.desktop_locked {
            HostConsoleState::SessionLocked
        } else {
            HostConsoleState::DesktopReady
        };
    }
    match previous {
        HostConsoleState::Booting | HostConsoleState::Offline => HostConsoleState::Booting,
        HostConsoleState::GdmLogin => HostConsoleState::SessionStarting,
        HostConsoleState::DesktopReady | HostConsoleState::SessionLocked => {
            HostConsoleState::SessionSwitching
        },
        HostConsoleState::SessionStarting | HostConsoleState::SessionSwitching => {
            HostConsoleState::SessionSwitching
        },
    }
}

/// The console after a sequence of observations.
pub open spec fn after_observations(
    observations: Seq<ConsoleObservation>,
    before: (HostConsoleState, u64),
) -> (HostConsoleState, u64)
    decreases observations.len(),
{
    if observations.len() == 0 {
        before
    } else {
        next_console(observations.last(), after_observations(observations.drop_last(), before))
    }
}

/// The generation never falls, whatever is observed.
pub proof fn generation_never_falls(
    observations: Seq<ConsoleObservation>,
    before: (HostConsoleState, u64),
)
    ensures
        after_observations(observations, before).1 >= before.1,
    decreases observations.len(),
{
    if observations.len() > 0 {
        generation_never_falls(observations.drop_last(), before);
    }
}

/// While the generation is below its maximum, it rises exactly when the state
/// changes.
pub proof fn generation_marks_changes(
    observation: ConsoleObservation,
    before: (HostConsoleState, u64),
)
    requires
        before.1 < u64::MAX,
    ensures
        next_console(observation, before).0 != before.0 <==> next_console(observation, before).1
            == before.1 + 1,
        next_console(observation, before).0 == before.0 <==> next_console(observation, before).1
            == before.1,
{
}

/// With an owner of the console, or with the broker gone, to observe the same
/// again changes nothing.
pub proof fn owned_console_is_stable(
    observation: ConsoleObservation,
    before: (HostConsoleState, u64),
)
    requires
        !observation.broker_online || observation.gdm_active || observation.desktop_active,
    ensures
        next_console(observation, next_console(observation, before)) == next_console(
            observation,
            before,
        ),
{
}

/// The console is offline exactly when the broker was last seen offline.
pub proof fn offline_means_broker_loss(
    observation: ConsoleObservation,
    before: (HostConsoleState, u64),
)
    ensures
        next_console(observation, before).0 == HostConsoleState::Offline
            <==> !observation.broker_online,
{
}

/// Without an owner, the console's past decides: with the broker online, a machine
/// that was booting or offline is booting, one that showed the login screen starts a
/// session, and any other switches sessions.
pub proof fn unowned_console_goes_by_its_past(
    observation: ConsoleObservation,
    before: (HostConsoleState, u64),
)
    requires
        observation.broker_online,
        !observation.gdm_active,
        !observation.desktop_active,
    ensures
        before.0 is Booting || before.0 is Offline ==> next_console(observation, before).0 is Booting,
        before.0 is GdmLogin ==> next_console(observation, before).0 is SessionStarting,
        !(before.0 is Booting || before.0 is Offline || before.0 is GdmLogin) ==> next_console(
            observation,
            before,
        ).0 is SessionSwitching,
        next_console(observation, before).0 == before.0 ==> next_console(observation, before)
            == before,
{
}

/// An owner decides alone, whatever was before: the greeter means the login screen,
/// even where a desktop is active too; a desktop means the lock screen where it is
/// locked, and else that it is ready.
pub proof fn owner_of_console_decides(
    observation: ConsoleObservation,
    before: (HostConsoleState, u64),
)
    requires
        observation.broker_online,
    ensures
        next_console(observation, before).0 is GdmLogin <==> observation.gdm_active,
        next_console(observation, before).0 is SessionLocked <==> !observation.gdm_active
            && observation.desktop_active && observation.desktop_locked,
        next_console(observation, before).0 is DesktopReady <==> !observation.gdm_active
            && observation.desktop_active && !observation.desktop_locked,
{
}

/// A console that was never owned is booting for as long as no owner is seen and the
/// broker stays: nothing changes, and captures are never restarted.
pub proof fn never_owned_console_is_booting(
    observations: Seq<ConsoleObservation>,
    generation: u64,
)
    requires
        forall|i: int|
            0 <= i < observations.len() ==> {
                &&& (#[trigger] observations[i]).broker_online
                &&& !observations[i].gdm_active
                &&& !observations[i].desktop_active
            },
    ensures
        after_observations(observations, (HostConsoleState::Booting, generation)) == (
            HostConsoleState::Booting,
            generation,
        ),
    decreases observations.len(),
{
    if observations.len() > 0 {
        let front = observations.drop_last();
        assert forall|i: int| 0 <= i < front.len() implies {
            &&& (#[trigger] front[i]).broker_online
            &&& !front[i].gdm_active
            &&& !front[i].desktop_active
        } by {
            assert(front[i] == observations[i]);
        }
        never_owned_console_is_booting(front, generation);
        assert(observations.last() == observations[observations.len() - 1]);
    }
}

/// A session starts only from the login screen, and sessions are switched only on a
/// console that was owned before.
pub proof fn handovers_follow_owners(
    observation: ConsoleObservation,
    before: (HostConsoleState, u64),
)
    ensures
        next_console(observation, before).0 is SessionStarting ==> before.0 is GdmLogin,
        next_console(observation, before).0 is SessionSwitching ==> before.0 is DesktopReady
            || before.0 is SessionLocked || before.0 is SessionStarting
            || before.0 is SessionSwitching,
{
}

/// At its maximum the generation stays, and the state still changes.
pub proof fn generation_saturates(observation: ConsoleObservation, before: HostConsoleState)
    ensures
        next_console(observation, (before, u64::MAX)).1 == u64::MAX,
        next_console(observation, (before, u64::MAX)).0 == next_console(observation, (before, 0)).0,
{
}

} // verus!
