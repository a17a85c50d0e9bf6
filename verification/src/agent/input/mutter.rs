//! Linux remote-input injection via GNOME Mutter RemoteDesktop.
//!
//! Mutter injects the events itself. For absolute pointer positioning it needs
//! a screen-cast stream of the shared monitor, which defines the coordinate
//! space.

use vstd::prelude::*;
use vstd::string::*;

use super::action::{InputAction, InputActionView};
use super::keys;
use super::keys::key_code;
use super::uinput;
use super::uinput::button_code;
use crate::agent::error;
use crate::agent::error::{AgentError, AgentErrorView, AgentResult};
use crate::sdk::lan::PtrButton;

verus! {

/// A call of the Mutter RemoteDesktop session.
#[allow(inconsistent_fields)]
#[derive(Debug, Clone, Copy, PartialEq, Eq, Structural)]
pub enum MutterCall {
    /// `NotifyPointerMotionAbsolute`, at ten-thousandths of the monitor.
    MotionAbsolute { x: u16, y: u16 },
    /// `NotifyPointerButton`, with an evdev button code.
    Button { code: i32, down: bool },
    /// `NotifyPointerAxisDiscrete`: axis 0 is vertical, 1 horizontal.
    AxisDiscrete { axis: u32, steps: i32 },
    /// `NotifyKeyboardKeycode`, with an evdev key code.
    Keycode { code: u32, down: bool },
}

/// The call that turns a wheel, if it turns at all.
pub open spec fn axis_calls(axis: u32, steps: i16) -> Seq<MutterCall> {
    if steps != 0 {
        seq![MutterCall::AxisDiscrete { axis, steps: steps as i32 }]
    } else {
        Seq::empty()
    }
}

/// The calls that replay an action.
pub open spec fn calls_of(action: InputActionView) -> Seq<MutterCall> {
    match action {
        InputActionView::Move { x, y } => seq![MutterCall::MotionAbsolute { x, y }],
        InputActionView::Button { button, down } => seq![
            MutterCall::Button { code: uinput::evdev_button(button) as i32, down },
        ],
        InputActionView::Scroll { dx, dy } => axis_calls(0, dy) + axis_calls(1, dx),
        InputActionView::Key { code, down } => match keys::replayed_key(code) {
            Some(key) => seq![MutterCall::Keycode { code: key as u32, down }],
            None => Seq::empty(),
        },
    }
}

/// The calls that replay an action. A key that is not known is left out.
pub fn mutter_calls(action: &InputAction) -> (calls: Vec<MutterCall>)
    ensures
        calls@ == calls_of(action@),
{
    let mut calls: Vec<MutterCall> = Vec::new();
    match action {
        InputAction::Move { x, y } => {
            calls.push(MutterCall::MotionAbsolute { x: *x, y: *y });
        },
        InputAction::Button { button, down } => {
            calls.push(MutterCall::Button { code: button_code(*button) as i32, down: *down });
        },
        InputAction::Scroll { dx, dy } => {
            if *dy != 0 {
                calls.push(MutterCall::AxisDiscrete { axis: 0, steps: *dy as i32 });
            }
            if *dx != 0 {
                calls.push(MutterCall::AxisDiscrete { axis: 1, steps: *dx as i32 });
            }
        },
        InputAction::Key { code, down } => {
            if let Some(key) = key_code(code.as_str()) {
                calls.push(MutterCall::Keycode { code: key as u32, down: *down });
            }
        },
    }
    assert(calls@ =~= calls_of(action@));
    calls
}

/// The monitor to control, of at least one pixel in each direction.
pub fn control_target(target: Option<(String, u32, u32)>) -> (r: AgentResult<(String, u32, u32)>)
    ensures
        error::fails_with(
            r,
            if target is Some {
                None
            } else {
                Some(AgentErrorView::Input("no monitor available to control"@))
            },
        ),
        r matches Ok((connector, w, h)) ==> {
            &&& connector@ == (target->0).0@
            &&& w == (if (target->0).1 > 0 { (target->0).1 } else { 1 })
            &&& h == (if (target->0).2 > 0 { (target->0).2 } else { 1 })
        },
{
    match target {
        Some((connector, w, h)) => Ok(
            (
                connector,
                if w > 0 {
                    w
                } else {
                    1
                },
                if h > 0 {
                    h
                } else {
                    1
                },
            ),
        ),
        None => Err(AgentError::Input("no monitor available to control".to_owned())),
    }
}

/// A button is replayed by one call with its evdev code, and what the controller
/// presses is pressed, what it releases is released: for every button, the call of
/// the release differs from that of the press in nothing else.
pub proof fn buttons_are_pressed_and_released(button: PtrButton, down: bool)
    ensures
        calls_of(InputActionView::Button { button, down }).len() == 1,
        calls_of(InputActionView::Button { button, down })[0] matches MutterCall::Button {
            code,
            down: pressed,
        } && pressed == down && code == (if button is Left {
            0x110
        } else if button is Right {
            0x111
        } else {
            0x112int
        }),
{
}

/// A replayed key is replayed by one call with its evdev code, and what the
/// controller presses is pressed, what it releases is released. A key that is not
/// replayed makes no call.
pub proof fn keys_are_pressed_and_released(code: Seq<char>, down: bool)
    ensures
        keys::replayed_key(code) is None ==> calls_of(InputActionView::Key { code, down }).len()
            == 0,
        keys::replayed_key(code) matches Some(key) ==> {
            let calls = calls_of(InputActionView::Key { code, down });
            &&& calls.len() == 1
            &&& calls[0] matches MutterCall::Keycode { code: sent, down: pressed }
            &&& sent == key && pressed == down
        },
{
}

/// The pointer moves by one call, to the very position that the controller sent.
pub proof fn pointer_goes_where_it_is_sent(x: u16, y: u16)
    ensures
        calls_of(InputActionView::Move { x, y }).len() == 1,
        calls_of(InputActionView::Move { x, y })[0] matches MutterCall::MotionAbsolute {
            x: to_x,
            y: to_y,
        } && to_x == x && to_y == y,
{
}

/// How far calls turn the wheel of an axis, all together.
pub open spec fn turned(calls: Seq<MutterCall>, axis: u32) -> int
    decreases calls.len(),
{
    if calls.len() == 0 {
        0
    } else {
        turned(calls.drop_last(), axis) + match calls.last() {
            MutterCall::AxisDiscrete { axis: of, steps } if of == axis => steps as int,
            _ => 0,
        }
    }
}

/// Scrolling turns the vertical wheel, axis 0, by exactly `dy` and the horizontal
/// one, axis 1, by exactly `dx`; it does nothing else, and no call turns by nothing.
pub proof fn wheels_turn_as_far_as_asked(dx: i16, dy: i16)
    ensures
        turned(calls_of(InputActionView::Scroll { dx, dy }), 0) == dy,
        turned(calls_of(InputActionView::Scroll { dx, dy }), 1) == dx,
        calls_of(InputActionView::Scroll { dx, dy }).len() == (if dy != 0 {
            1int
        } else {
            0
        }) + (if dx != 0 {
            1int
        } else {
            0
        }),
        forall|i: int|
            0 <= i < calls_of(InputActionView::Scroll { dx, dy }).len() ==> ((
            #[trigger] calls_of(
                InputActionView::Scroll { dx, dy },
            )[i]) matches MutterCall::AxisDiscrete { axis, steps } && steps != 0),
{
    reveal_with_fuel(turned, 3);
    let calls = calls_of(InputActionView::Scroll { dx, dy });
    if dy != 0 && dx != 0 {
        assert(calls.drop_last() =~= axis_calls(0, dy));
    }
    if calls.len() == 1 {
        assert(calls.drop_last() =~= Seq::empty());
    }
}

} // verus!
