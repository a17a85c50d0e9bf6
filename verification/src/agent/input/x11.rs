//! Local X11/XTEST input for a worker's own cookie-authenticated display.

use vstd::prelude::*;
use vstd::string::*;

use super::action::{InputAction, InputActionView};
use super::keys;
use super::keys::key_code;
use crate::agent::error;
use crate::agent::error::{AgentError, AgentErrorView, AgentResult};
use crate::sdk::lan::PtrButton;

verus! {

/// XTEST event type of a pressed key.
pub const KEY_PRESS: u8 = 2;

/// XTEST event type of a released key.
pub const KEY_RELEASE: u8 = 3;

/// XTEST event type of a pressed button.
pub const BUTTON_PRESS: u8 = 4;

/// XTEST event type of a released button.
pub const BUTTON_RELEASE: u8 = 5;

/// XTEST event type of a moved pointer.
pub const MOTION_NOTIFY: u8 = 6;

/// The most wheel notches that one event turns.
pub const MAX_NOTCHES: u16 = 120;

/// One XTEST fake input event.
#[derive(Debug, Clone, Copy, PartialEq, Eq, Structural)]
pub struct X11Event {
    pub event_type: u8,
    pub detail: u8,
    pub x: i16,
    pub y: i16,
}

/// What is wrong with a screen, given by its width and height.
pub open spec fn screen_fault(screen: Option<(u16, u16)>) -> Option<AgentErrorView> {
    match screen {
        None => Some(AgentErrorView::Input("X11 display has no screen"@)),
        Some((width, height)) => if width == 0 || height == 0 {
            Some(AgentErrorView::Input("X11 display has no active monitor geometry"@))
        } else {
            None
        },
    }
}

/// The width and the height of the screen to control.
pub fn screen_size(screen: Option<(u16, u16)>) -> (r: AgentResult<(u16, u16)>)
    ensures
        error::fails_with(r, screen_fault(screen)),
        r matches Ok(size) ==> Some(size) == screen,
{
    match screen {
        Some((width, height)) => {
            if width == 0 || height == 0 {
                return Err(
                    AgentError::Input("X11 display has no active monitor geometry".to_owned()),
                );
            }
            Ok((width, height))
        },
        None => Err(AgentError::Input("X11 display has no screen".to_owned())),
    }
}

/// The pixel that a normalized coordinate falls on, on an axis of `extent` pixels.
pub open spec fn pixel(value: u16, extent: u16) -> int {
    let v = if value < 10000 { value as int } else { 10000 };
    let last = if extent > 0 { extent - 1 } else { 0int };
    let at = v * last / 10000;
    if at <= i16::MAX {
        at
    } else {
        i16::MAX as int
    }
}

/// The pixel that a normalized coordinate falls on, on an axis of `extent` pixels.
pub fn scale_coordinate(value: u16, extent: u16) -> (at: i16)
    ensures
        at == pixel(value, extent),
{
    let v: u32 = if value < 10000 {
        value as u32
    } else {
        10000
    };
    let last: u32 = if extent > 0 {
        extent as u32 - 1
    } else {
        0
    };
    assert(v * last <= 10000 * 65535) by (nonlinear_arith)
        requires
            v <= 10000,
            last <= 65535,
    ;
    assert(0 <= v * last) by (nonlinear_arith)
        requires
            v >= 0,
            last >= 0,
    ;
    let at: u32 = v * last / 10000;
    if at <= 32767 {
        at as i16
    } else {
        32767
    }
}

/// A coordinate falls on the screen: the least on its first pixel, the greatest
/// on its last one, as far as X11 coordinates reach.
pub proof fn coordinates_stay_on_screen(value: u16, extent: u16)
    requires
        extent > 0,
    ensures
        0 <= pixel(value, extent) < extent,
        pixel(0, extent) == 0,
        extent <= 32768 ==> pixel(10000, extent) == extent - 1,
{
    let v = if value < 10000 { value as int } else { 10000 };
    let last = extent - 1;
    assert(0 <= v * last / 10000 <= last) by (nonlinear_arith)
        requires
            0 <= v <= 10000,
            0 <= last,
    ;
    assert(0 * last / 10000 == 0) by (nonlinear_arith);
    assert(10000 * last / 10000 == last) by (nonlinear_arith);
}

/// A greater coordinate never falls on a smaller pixel.
pub proof fn coordinates_keep_order(a: u16, b: u16, extent: u16)
    requires
        a <= b,
    ensures
        pixel(a, extent) <= pixel(b, extent),
{
    let va = if a < 10000 { a as int } else { 10000 };
    let vb = if b < 10000 { b as int } else { 10000 };
    let last = if extent > 0 { extent - 1 } else { 0int };
    assert(va * last / 10000 <= vb * last / 10000) by (nonlinear_arith)
        requires
            0 <= va <= vb,
            0 <= last,
    ;
}

/// The X11 number of a button.
pub open spec fn button_number(button: PtrButton) -> u8 {
    match button {
        PtrButton::Left => 1,
        PtrButton::Middle => 2,
        PtrButton::Right => 3,
    }
}

/// The X11 number of a button.
pub fn x11_button(button: PtrButton) -> (number: u8)
    ensures
        number == button_number(button),
{
    match button {
        PtrButton::Left => 1,
        PtrButton::Middle => 2,
        PtrButton::Right => 3,
    }
}

/// An event away from the pointer's position.
pub open spec fn plain_event(event_type: u8, detail: u8) -> X11Event {
    X11Event { event_type, detail, x: 0, y: 0 }
}

/// The notches that a wheel turns for an amount.
pub open spec fn notches(amount: i16) -> nat {
    let n = if amount < 0 { -(amount as int) } else { amount as int };
    if n <= MAX_NOTCHES {
        n as nat
    } else {
        MAX_NOTCHES as nat
    }
}

/// The events of a wheel: for each notch its button is pressed and released.
pub open spec fn wheel(positive: u8, negative: u8, amount: i16) -> Seq<X11Event> {
    let button = if amount > 0 { positive } else { negative };
    Seq::new(
        2 * notches(amount),
        |i: int|
            plain_event(
                if i % 2 == 0 {
                    BUTTON_PRESS
                } else {
                    BUTTON_RELEASE
                },
                button,
            ),
    )
}

/// The events that replay an action on a screen of the given size.
pub open spec fn events_of(action: InputActionView, width: u16, height: u16) -> Seq<X11Event> {
    match action {
        InputActionView::Move { x, y } => seq![
            X11Event {
                event_type: MOTION_NOTIFY,
                detail: 0,
                x: pixel(x, width) as i16,
                y: pixel(y, height) as i16,
            },
        ],
        InputActionView::Button { button, down } => seq![
            plain_event(
                if down {
                    BUTTON_PRESS
                } else {
                    BUTTON_RELEASE
                },
                button_number(button),
            ),
        ],
        InputActionView::Scroll { dx, dy } => wheel(5, 4, dy) + wheel(7, 6, dx),
        InputActionView::Key { code, down } => match keys::replayed_key(code) {
            Some(key) => seq![
                plain_event(
                    if down {
                        KEY_PRESS
                    } else {
                        KEY_RELEASE
                    },
                    (key + 8) as u8,
                ),
            ],
            None => Seq::empty(),
        },
    }
}

fn scroll(events: &mut Vec<X11Event>, positive: u8, negative: u8, amount: i16)
    ensures
        final(events)@ == old(events)@ + wheel(positive, negative, amount),
{
    let button: u8 = if amount > 0 {
        positive
    } else {
        negative
    };
    let size: u16 = if amount < 0 {
        (0 - amount as i32) as u16
    } else {
        amount as u16
    };
    let n: u16 = if size <= MAX_NOTCHES {
        size
    } else {
        MAX_NOTCHES
    };
    let ghost before = events@;
    let ghost turned = wheel(positive, negative, amount);
    let mut i: u16 = 0;
    assert(events@ =~= before + turned.take(0));
    while i < n
        invariant
            i <= n,
            n <= MAX_NOTCHES,
            n == notches(amount),
            button == (if amount > 0 { positive } else { negative }),
            turned == wheel(positive, negative, amount),
            events@ == before + turned.take(2 * i as int),
        decreases n - i,
    {
        events.push(X11Event { event_type: BUTTON_PRESS, detail: button, x: 0, y: 0 });
        events.push(X11Event { event_type: BUTTON_RELEASE, detail: button, x: 0, y: 0 });
        proof {
            let k = 2 * i as int;
            assert(k % 2 == 0 && (k + 1) % 2 == 1);
            assert(turned[k] == plain_event(BUTTON_PRESS, button));
            assert(turned[k + 1] == plain_event(BUTTON_RELEASE, button));
            assert(turned.take(k + 2) =~= turned.take(k).push(turned[k]).push(turned[k + 1]));
        }
        i = i + 1;
    }
    assert(turned.take(2 * n as int) =~= turned);
}

/// The events that replay an action on a screen of the given size. A key that
/// is not known is left out.
///
/// Xorg's standard evdev mapping numbers keys 8 higher than evdev, so that the
/// configured keyboard layout interprets them.
pub fn x11_events(action: &InputAction, width: u16, height: u16) -> (events: Vec<X11Event>)
    ensures
        events@ == events_of(action@, width, height),
{
    let mut events: Vec<X11Event> = Vec::new();
    match action {
        InputAction::Move { x, y } => {
            let event = X11Event {
                event_type: MOTION_NOTIFY,
                detail: 0,
                x: scale_coordinate(*x, width),
                y: scale_coordinate(*y, height),
            };
            events.push(event);
        },
        InputAction::Button { button, down } => {
            let event_type: u8 = if *down {
                BUTTON_PRESS
            } else {
                BUTTON_RELEASE
            };
            events.push(X11Event { event_type, detail: x11_button(*button), x: 0, y: 0 });
        },
        InputAction::Scroll { dx, dy } => {
            scroll(&mut events, 5, 4, *dy);
            scroll(&mut events, 7, 6, *dx);
        },
        InputAction::Key { code, down } => {
            proof {
                keys::keys_are_advertised(code@);
            }
            if let Some(key) = key_code(code.as_str()) {
                let event_type: u8 = if *down {
                    KEY_PRESS
                } else {
                    KEY_RELEASE
                };
                events.push(X11Event { event_type, detail: (key + 8) as u8, x: 0, y: 0 });
            }
        },
    }
    assert(events@ =~= events_of(action@, width, height));
    events
}

/// A coordinate falls on the pixel that lies as far along the axis as the
/// coordinate along its range: `pixel / (extent - 1)` is `value / 10000`, rounded
/// down to a pixel. What lies beyond the range falls where its end does.
pub proof fn coordinates_keep_proportion(value: u16, extent: u16)
    requires
        0 < extent <= 32768,
    ensures
        value <= 10000 ==> 10000 * pixel(value, extent) <= value * (extent - 1) < 10000 * (pixel(
            value,
            extent,
        ) + 1),
        value > 10000 ==> pixel(value, extent) == pixel(10000, extent),
{
    coordinates_stay_on_screen(value, extent);
    let v = if value < 10000 { value as int } else { 10000 };
    let last = extent - 1;
    let product = v * last;
    assert(product / 10000 * 10000 <= product < (product / 10000 + 1) * 10000);
    assert(product / 10000 <= last) by (nonlinear_arith)
        requires
            product == v * last,
            0 <= v <= 10000,
            0 <= last,
    ;
}

/// The pointer moves by one motion event (6), to the pixels of both coordinates.
pub proof fn pointer_moves_to_its_pixel(x: u16, y: u16, width: u16, height: u16)
    ensures
        events_of(InputActionView::Move { x, y }, width, height).len() == 1,
        ({
            let event = events_of(InputActionView::Move { x, y }, width, height)[0];
            &&& event.event_type == 6
            &&& event.x == pixel(x, width)
            &&& event.y == pixel(y, height)
        }),
{
    if width > 0 {
        coordinates_stay_on_screen(x, width);
    }
    if height > 0 {
        coordinates_stay_on_screen(y, height);
    }
}

/// A button is replayed by one event with its X11 number: a press (4) where the
/// controller pressed it, a release (5) where it released it.
pub proof fn buttons_are_pressed_and_released(
    button: PtrButton,
    down: bool,
    width: u16,
    height: u16,
)
    ensures
        events_of(InputActionView::Button { button, down }, width, height).len() == 1,
        ({
            let event = events_of(InputActionView::Button { button, down }, width, height)[0];
            &&& event.event_type == (if down {
                4
            } else {
                5int
            })
            &&& event.detail == (if button is Left {
                1
            } else if button is Middle {
                2
            } else {
                3int
            })
        }),
{
}

/// A replayed key is replayed by one event with a key code 8 above the evdev one: a
/// press (2) where the controller pressed it, a release (3) where it released it. A
/// key that is not replayed makes no event.
pub proof fn keys_are_pressed_and_released(code: Seq<char>, down: bool, width: u16, height: u16)
    ensures
        keys::replayed_key(code) is None ==> events_of(
            InputActionView::Key { code, down },
            width,
            height,
        ).len() == 0,
        keys::replayed_key(code) matches Some(key) ==> {
            let events = events_of(InputActionView::Key { code, down }, width, height);
            &&& events.len() == 1
            &&& events[0].event_type == (if down {
                2
            } else {
                3int
            })
            &&& events[0].detail == key + 8
        },
{
    keys::keys_are_advertised(code);
}

/// The distance of a wheel's turn, at most 120 notches either way.
pub open spec fn turn(amount: i16) -> int {
    if amount > 120 {
        120
    } else if amount < -120 {
        120
    } else if amount < 0 {
        -amount
    } else {
        amount as int
    }
}

/// Scrolling turns the vertical wheel first and the horizontal one after it, at most
/// 120 notches each. A notch is a press (4) and a release (5) of one button: 5 down,
/// 4 up, 7 right, 6 left.
pub proof fn wheels_turn_by_notches(dx: i16, dy: i16, width: u16, height: u16, i: int)
    requires
        0 <= i < 2 * (turn(dy) + turn(dx)),
    ensures
        events_of(InputActionView::Scroll { dx, dy }, width, height).len() == 2 * (turn(dy)
            + turn(dx)),
        ({
            let event = events_of(InputActionView::Scroll { dx, dy }, width, height)[i];
            &&& event.event_type == (if i % 2 == 0 {
                4
            } else {
                5int
            })
            &&& event.detail == (if i < 2 * turn(dy) {
                if dy > 0 {
                    5
                } else {
                    4int
                }
            } else if dx > 0 {
                7
            } else {
                6int
            })
        }),
{
    let v = wheel(5, 4, dy);
    let h = wheel(7, 6, dx);
    assert(v.len() == 2 * turn(dy));
    assert(h.len() == 2 * turn(dx));
    if i < v.len() {
        assert((v + h)[i] == v[i]);
    } else {
        let j = i - v.len();
        assert((v + h)[i] == h[j]);
        assert(j % 2 == i % 2);
    }
}

/// Input is replayed on a display exactly if it has a screen of some size.
pub proof fn screens_have_a_size(screen: Option<(u16, u16)>)
    ensures
        screen_fault(screen) is None <==> (screen matches Some((width, height)) && width > 0
            && height > 0),
        screen_fault(screen) matches Some(fault) ==> fault is Input,
{
}

/// Only the motion of the pointer has a place on the screen; buttons, wheels and keys act
/// where the pointer is.
pub proof fn only_motion_has_a_place(action: InputActionView, width: u16, height: u16, i: int)
    requires
        0 <= i < events_of(action, width, height).len(),
    ensures
        events_of(action, width, height)[i].event_type == 6 <==> action is Move,
        !(action is Move) ==> events_of(action, width, height)[i].x == 0 && events_of(
            action,
            width,
            height,
        )[i].y == 0,
{
    if let InputActionView::Scroll { dx, dy } = action {
        let v = wheel(5, 4, dy);
        let h = wheel(7, 6, dx);
        if i < v.len() {
            assert((v + h)[i] == v[i]);
        } else {
            assert((v + h)[i] == h[i - v.len()]);
        }
    }
}

} // verus!
