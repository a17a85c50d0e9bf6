//! Linux uinput virtual input device.
//!
//! Events at the kernel evdev layer work under both X11 and Wayland: the
//! compositor just sees an ordinary input device.

use vstd::prelude::*;
use vstd::string::*;

use super::keys;
use super::keys::key_code;
use crate::agent::error::{AgentError, AgentErrorView};
use crate::sdk::lan::PtrButton;
use crate::text::joined;

verus! {

/// Absolute-axis range. The client sends coordinates already normalized to this
/// range, so the device's logical extent maps straight onto the screen.
pub const ABS_MAX: i32 = 10000;

/// evdev event type of keys and buttons.
pub const EV_KEY: u16 = 1;

/// evdev event type of relative axes.
pub const EV_REL: u16 = 2;

/// evdev event type of absolute axes.
pub const EV_ABS: u16 = 3;

/// evdev code of the horizontal axis.
pub const ABS_X: u16 = 0;

/// evdev code of the vertical axis.
pub const ABS_Y: u16 = 1;

/// evdev code of the wheel.
pub const REL_WHEEL: u16 = 8;

/// evdev code of the horizontal wheel.
pub const REL_HWHEEL: u16 = 6;

/// evdev code of the left button.
pub const BTN_LEFT: u16 = 0x110;

/// evdev code of the right button.
pub const BTN_RIGHT: u16 = 0x111;

/// evdev code of the middle button.
pub const BTN_MIDDLE: u16 = 0x112;

/// One evdev event.
#[derive(Debug, Clone, Copy, PartialEq, Eq, Structural)]
pub struct UinputEvent {
    pub event_type: u16,
    pub code: u16,
    pub value: i32,
}

/// The evdev code of a button.
pub open spec fn evdev_button(button: PtrButton) -> u16 {
    match button {
        PtrButton::Left => BTN_LEFT,
        PtrButton::Right => BTN_RIGHT,
        PtrButton::Middle => BTN_MIDDLE,
    }
}

/// The evdev code of a button.
pub fn button_code(button: PtrButton) -> (code: u16)
    ensures
        code == evdev_button(button),
{
    match button {
        PtrButton::Left => BTN_LEFT,
        PtrButton::Right => BTN_RIGHT,
        PtrButton::Middle => BTN_MIDDLE,
    }
}

fn clamped(v: u16) -> (value: i32)
    ensures
        value == (if v <= ABS_MAX { v as int } else { ABS_MAX as int }),
{
    if v as i32 <= ABS_MAX {
        v as i32
    } else {
        ABS_MAX
    }
}

/// The events that move the cursor to an absolute position.
pub open spec fn moving(x: u16, y: u16) -> Seq<UinputEvent> {
    seq![
        UinputEvent {
            event_type: EV_ABS,
            code: ABS_X,
            value: if x <= ABS_MAX { x as i32 } else { ABS_MAX },
        },
        UinputEvent {
            event_type: EV_ABS,
            code: ABS_Y,
            value: if y <= ABS_MAX { y as i32 } else { ABS_MAX },
        },
    ]
}

/// The event that presses or releases what has the given evdev code.
pub open spec fn pressing(code: u16, down: bool) -> UinputEvent {
    UinputEvent { event_type: EV_KEY, code, value: if down { 1i32 } else { 0 } }
}

/// The events that turn the wheels.
pub open spec fn scrolling(dx: i16, dy: i16) -> Seq<UinputEvent> {
    (if dy != 0 {
        seq![UinputEvent { event_type: EV_REL, code: REL_WHEEL, value: (-dy) as i32 }]
    } else {
        Seq::empty()
    }) + (if dx != 0 {
        seq![UinputEvent { event_type: EV_REL, code: REL_HWHEEL, value: dx as i32 }]
    } else {
        Seq::empty()
    })
}

/// The events that move the cursor to an absolute position (`0..=10_000`).
pub fn pointer_move(x: u16, y: u16) -> (events: Vec<UinputEvent>)
    ensures
        events@ == moving(x, y),
        events@ == seq![
            UinputEvent {
                event_type: EV_ABS,
                code: ABS_X,
                value: if x <= ABS_MAX { x as i32 } else { ABS_MAX },
            },
            UinputEvent {
                event_type: EV_ABS,
                code: ABS_Y,
                value: if y <= ABS_MAX { y as i32 } else { ABS_MAX },
            },
        ],
{
    let mut events: Vec<UinputEvent> = Vec::new();
    events.push(UinputEvent { event_type: EV_ABS, code: ABS_X, value: clamped(x) });
    events.push(UinputEvent { event_type: EV_ABS, code: ABS_Y, value: clamped(y) });
    events
}

/// The event that presses or releases a mouse button.
pub fn pointer_button(button: PtrButton, down: bool) -> (event: UinputEvent)
    ensures
        event == pressing(evdev_button(button), down),
        event == (UinputEvent {
            event_type: EV_KEY,
            code: evdev_button(button),
            value: if down { 1i32 } else { 0 },
        }),
{
    UinputEvent {
        event_type: EV_KEY,
        code: button_code(button),
        value: if down {
            1
        } else {
            0
        },
    }
}

/// The events that scroll the wheel by `dx` and `dy` notches. A positive wheel
/// value means up, while `dy > 0` means to scroll down.
pub fn scroll(dx: i16, dy: i16) -> (events: Vec<UinputEvent>)
    requires
        dy != i16::MIN,
    ensures
        events@ == scrolling(dx, dy),
        events@ == (if dy != 0 {
            seq![UinputEvent { event_type: EV_REL, code: REL_WHEEL, value: (-dy) as i32 }]
        } else {
            Seq::empty()
        }) + (if dx != 0 {
            seq![UinputEvent { event_type: EV_REL, code: REL_HWHEEL, value: dx as i32 }]
        } else {
            Seq::empty()
        }),
{
    let mut events: Vec<UinputEvent> = Vec::new();
    if dy != 0 {
        events.push(UinputEvent { event_type: EV_REL, code: REL_WHEEL, value: 0 - dy as i32 });
    }
    if dx != 0 {
        events.push(UinputEvent { event_type: EV_REL, code: REL_HWHEEL, value: dx as i32 });
    }
    events
}

/// The event that presses or releases a key by its browser
/// `KeyboardEvent.code`, or the `CommandMod` token; `None` for keys that are
/// not replayed.
pub fn key(code: &str, down: bool) -> (event: Option<UinputEvent>)
    ensures
        event == (match keys::replayed_key(code@) {
            Some(key) => Some(
                UinputEvent { event_type: EV_KEY, code: key, value: if down { 1i32 } else { 0 } },
            ),
            None => None,
        }),
        event matches Some(e) ==> e == pressing(e.code, down),
{
    match key_code(code) {
        Some(key) => Some(
            UinputEvent {
                event_type: EV_KEY,
                code: key,
                value: if down {
                    1
                } else {
                    0
                },
            },
        ),
        None => None,
    }
}

/// The hint for a host without access to the device.
pub open spec fn access_hint() -> Seq<char> {
    "cannot open /dev/uinput for remote control. Grant access once with: sudo tee /etc/udev/rules.d/99-rivetlink-uinput.rules <<<'KERNEL==\"uinput\", MODE=\"0660\", GROUP=\"input\"' && sudo udevadm control --reload && sudo udevadm trigger && sudo usermod -aG input \"$USER\"  (then log out/in)"@
}

/// The error for a failed device operation, with an actionable hint when the
/// device is missing or not writable.
pub fn map_err(inaccessible: bool, description: &str) -> (e: AgentError)
    ensures
        e@ == AgentErrorView::Input(
            if inaccessible {
                access_hint()
            } else {
                "uinput: "@ + description@
            },
        ),
{
    if inaccessible {
        AgentError::Input(
            "cannot open /dev/uinput for remote control. Grant access once with: sudo tee /etc/udev/rules.d/99-rivetlink-uinput.rules <<<'KERNEL==\"uinput\", MODE=\"0660\", GROUP=\"input\"' && sudo udevadm control --reload && sudo udevadm trigger && sudo usermod -aG input \"$USER\"  (then log out/in)".to_owned(),
        )
    } else {
        AgentError::Input(joined("uinput: ", description))
    }
}

/// A press is an event of value 1 and a release one of value 0, of the key event
/// type (1) and with the code that is pressed. The left, right and middle button
/// have the codes 0x110, 0x111 and 0x112.
pub proof fn presses_and_releases_differ_in_value(code: u16, down: bool, button: PtrButton)
    ensures
        pressing(code, down).event_type == 1,
        pressing(code, down).code == code,
        pressing(code, down).value == (if down {
            1int
        } else {
            0
        }),
        evdev_button(button) == (if button is Left {
            0x110
        } else if button is Right {
            0x111
        } else {
            0x112int
        }),
{
}

/// The cursor moves by one absolute event (type 3) for each axis, the horizontal one
/// first. A position within the range is kept, one beyond it becomes its end.
pub proof fn cursor_goes_where_it_is_sent(x: u16, y: u16)
    ensures
        moving(x, y).len() == 2,
        moving(x, y)[0].event_type == 3 && moving(x, y)[0].code == 0,
        moving(x, y)[1].event_type == 3 && moving(x, y)[1].code == 1,
        x <= 10000 ==> moving(x, y)[0].value == x,
        y <= 10000 ==> moving(x, y)[1].value == y,
        x > 10000 ==> moving(x, y)[0].value == 10000,
        y > 10000 ==> moving(x, y)[1].value == 10000,
{
}

/// Scrolling turns the wheel (relative axis 8) against `dy`, as down is negative
/// there, and the horizontal wheel (relative axis 6) by `dx`; a distance of zero
/// makes no event.
pub proof fn wheels_turn_as_far_as_asked(dx: i16, dy: i16)
    requires
        dy != i16::MIN,
    ensures
        scrolling(dx, dy).len() == (if dy != 0 {
            1int
        } else {
            0
        }) + (if dx != 0 {
            1int
        } else {
            0
        }),
        dy != 0 ==> scrolling(dx, dy).first().event_type == 2 && scrolling(dx, dy).first().code == 8
            && scrolling(dx, dy).first().value + dy == 0,
        dx != 0 ==> scrolling(dx, dy).last().event_type == 2 && scrolling(dx, dy).last().code == 6
            && scrolling(dx, dy).last().value == dx,
{
}

} // verus!
