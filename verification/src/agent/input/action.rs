//! The events that a remote controller sends.

use vstd::prelude::*;

use crate::sdk::lan::{LanRequest, PtrButton};

verus! {

/// One remote input event to replay locally.
#[derive(Debug)]
pub enum InputAction {
    /// Absolute cursor position, normalized `0..=10_000` of the frame.
    Move { x: u16, y: u16 },
    Button { button: PtrButton, down: bool },
    Scroll { dx: i16, dy: i16 },
    Key { code: String, down: bool },
}

/// An [`InputAction`] with its key code as characters.
pub enum InputActionView {
    Move { x: u16, y: u16 },
    Button { button: PtrButton, down: bool },
    Scroll { dx: i16, dy: i16 },
    Key { code: Seq<char>, down: bool },
}

impl View for InputAction {
    type V = InputActionView;

    open spec fn view(&self) -> InputActionView {
        match *self {
            InputAction::Move { x, y } => InputActionView::Move { x, y },
            InputAction::Button { button, down } => InputActionView::Button { button, down },
            InputAction::Scroll { dx, dy } => InputActionView::Scroll { dx, dy },
            InputAction::Key { code, down } => InputActionView::Key { code: code@, down },
        }
    }
}

/// The event that a request carries, if it is one for input.
pub open spec fn requested_action(request: LanRequest) -> Option<InputActionView> {
    match request {
        LanRequest::PointerMove { x, y } => Some(InputActionView::Move { x, y }),
        LanRequest::PointerButton { button, down } => Some(
            InputActionView::Button { button, down },
        ),
        LanRequest::Scroll { dx, dy } => Some(InputActionView::Scroll { dx, dy }),
        LanRequest::Key { code, down } => Some(InputActionView::Key { code: code@, down }),
        _ => None,
    }
}

/// The event that a request carries, if it is one for input.
pub fn input_action(request: LanRequest) -> (action: Option<InputAction>)
    ensures
        action is Some == requested_action(request) is Some,
        action matches Some(a) ==> Some(a@) == requested_action(request),
{
    match request {
        LanRequest::PointerMove { x, y } => Some(InputAction::Move { x, y }),
        LanRequest::PointerButton { button, down } => Some(InputAction::Button { button, down }),
        LanRequest::Scroll { dx, dy } => Some(InputAction::Scroll { dx, dy }),
        LanRequest::Key { code, down } => Some(InputAction::Key { code, down }),
        _ => None,
    }
}

/// Input reaches the host as the controller sent it: a pointer position, a button or
/// a key with its press or release, and a scroll with both distances.
pub proof fn input_is_passed_on_unchanged(request: LanRequest)
    ensures
        request matches LanRequest::PointerMove { x, y } ==> (requested_action(
            request,
        ) matches Some(InputActionView::Move { x: to_x, y: to_y }) && to_x == x && to_y == y),
        request matches LanRequest::PointerButton { button, down } ==> (requested_action(
            request,
        ) matches Some(InputActionView::Button { button: b, down: d }) && b == button && d == down),
        request matches LanRequest::Scroll { dx, dy } ==> (requested_action(
            request,
        ) matches Some(InputActionView::Scroll { dx: x, dy: y }) && x == dx && y == dy),
        request matches LanRequest::Key { code, down } ==> (requested_action(
            request,
        ) matches Some(InputActionView::Key { code: c, down: d }) && c == code@ && d == down),
{
}

/// Nothing but an input request makes an input event.
pub proof fn only_input_is_replayed(request: LanRequest)
    requires
        requested_action(request) is Some,
    ensures
        request is PointerMove || request is PointerButton || request is Scroll || request is Key,
{
}

} // verus!
