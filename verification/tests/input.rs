//! Injected input: key codes, pointer events and scaling.

use evdev::{AbsoluteAxisType, EventType, Key, RelativeAxisType};

use rivetlink::agent::input::action::input_action;
use rivetlink::agent::input::keys::{code_to_key, key_code};
use rivetlink::agent::input::mutter::{control_target, mutter_calls, MutterCall};
use rivetlink::agent::input::uinput::{
    key, map_err, pointer_button, pointer_move, scroll, UinputEvent, ABS_X, ABS_Y, BTN_LEFT,
    BTN_MIDDLE, BTN_RIGHT, EV_ABS, EV_KEY, EV_REL, REL_HWHEEL, REL_WHEEL,
};
use rivetlink::agent::input::x11::{
    scale_coordinate, screen_size, x11_button, x11_events, X11Event, BUTTON_PRESS, BUTTON_RELEASE,
    KEY_PRESS, KEY_RELEASE, MOTION_NOTIFY,
};
use rivetlink::agent::input::InputAction;
use rivetlink::sdk::lan::{LanRequest, PtrButton};

fn press(code: &str) -> InputAction {
    InputAction::Key { code: code.to_string(), down: true }
}

#[test]
fn coordinates_are_bounded_to_the_local_x11_screen() {
    assert_eq!(scale_coordinate(0, 1920), 0);
    assert_eq!(scale_coordinate(10_000, 1920), 1919);
    assert_eq!(scale_coordinate(u16::MAX, 1920), 1919);
}

#[test]
fn buttons_use_standard_xtest_numbers() {
    assert_eq!(x11_button(PtrButton::Left), 1);
    assert_eq!(x11_button(PtrButton::Middle), 2);
    assert_eq!(x11_button(PtrButton::Right), 3);
}

#[test]
fn coordinates_scale_in_order() {
    assert_eq!(scale_coordinate(5_000, 1001), 500);
    assert_eq!(scale_coordinate(10_000, 0), 0);
    assert_eq!(scale_coordinate(10_000, u16::MAX), i16::MAX);
    let mut last = 0;
    for value in 0..=10_000 {
        let at = scale_coordinate(value, 1920);
        assert!(last <= at && at < 1920);
        last = at;
    }
}

#[test]
fn a_screen_has_a_size() {
    assert_eq!(screen_size(Some((1920, 1080))).unwrap(), (1920, 1080));
    assert!(screen_size(None).unwrap_err().to_string().ends_with("X11 display has no screen"));
    assert!(screen_size(Some((1920, 0)))
        .unwrap_err()
        .to_string()
        .ends_with("X11 display has no active monitor geometry"));
}

fn event(event_type: u8, detail: u8, x: i16, y: i16) -> X11Event {
    X11Event { event_type, detail, x, y }
}

#[test]
fn actions_become_xtest_events() {
    let moved = InputAction::Move { x: 10_000, y: 0 };
    assert_eq!(x11_events(&moved, 1920, 1080), [event(MOTION_NOTIFY, 0, 1919, 0)]);
    let released = InputAction::Button { button: PtrButton::Right, down: false };
    assert_eq!(x11_events(&released, 1920, 1080), [event(BUTTON_RELEASE, 3, 0, 0)]);
    let scrolled = InputAction::Scroll { dx: 1, dy: -2 };
    assert_eq!(
        x11_events(&scrolled, 1920, 1080),
        [
            event(BUTTON_PRESS, 4, 0, 0),
            event(BUTTON_RELEASE, 4, 0, 0),
            event(BUTTON_PRESS, 4, 0, 0),
            event(BUTTON_RELEASE, 4, 0, 0),
            event(BUTTON_PRESS, 7, 0, 0),
            event(BUTTON_RELEASE, 7, 0, 0),
        ]
    );
    let far = InputAction::Scroll { dx: 0, dy: i16::MIN };
    assert_eq!(x11_events(&far, 1920, 1080).len(), 240);
    assert_eq!(x11_events(&press("KeyA"), 1920, 1080), [event(KEY_PRESS, 38, 0, 0)]);
    let up = InputAction::Key { code: "CommandMod".to_string(), down: false };
    assert_eq!(x11_events(&up, 1920, 1080), [event(KEY_RELEASE, 37, 0, 0)]);
    assert!(x11_events(&press("Unknown"), 1920, 1080).is_empty());
}

#[test]
fn actions_become_mutter_calls() {
    assert_eq!(
        mutter_calls(&InputAction::Move { x: 5, y: 6 }),
        [MutterCall::MotionAbsolute { x: 5, y: 6 }]
    );
    assert_eq!(
        mutter_calls(&InputAction::Button { button: PtrButton::Middle, down: true }),
        [MutterCall::Button { code: 0x112, down: true }]
    );
    assert_eq!(
        mutter_calls(&InputAction::Scroll { dx: 3, dy: -2 }),
        [
            MutterCall::AxisDiscrete { axis: 0, steps: -2 },
            MutterCall::AxisDiscrete { axis: 1, steps: 3 },
        ]
    );
    assert!(mutter_calls(&InputAction::Scroll { dx: 0, dy: 0 }).is_empty());
    assert_eq!(mutter_calls(&press("Enter")), [MutterCall::Keycode { code: 28, down: true }]);
    assert!(mutter_calls(&press("")).is_empty());
    let target = Some(("DP-1".to_string(), 1920, 1080));
    assert_eq!(control_target(target).unwrap(), ("DP-1".to_string(), 1920, 1080));
    assert!(control_target(None).is_err());
}

#[test]
fn events_use_the_kernels_numbers() {
    assert_eq!(EV_KEY, EventType::KEY.0);
    assert_eq!(EV_REL, EventType::RELATIVE.0);
    assert_eq!(EV_ABS, EventType::ABSOLUTE.0);
    assert_eq!(ABS_X, AbsoluteAxisType::ABS_X.0);
    assert_eq!(ABS_Y, AbsoluteAxisType::ABS_Y.0);
    assert_eq!(REL_WHEEL, RelativeAxisType::REL_WHEEL.0);
    assert_eq!(REL_HWHEEL, RelativeAxisType::REL_HWHEEL.0);
    assert_eq!(BTN_LEFT, Key::BTN_LEFT.code());
    assert_eq!(BTN_RIGHT, Key::BTN_RIGHT.code());
    assert_eq!(BTN_MIDDLE, Key::BTN_MIDDLE.code());
}

#[test]
fn actions_become_uinput_events() {
    let e = |event_type, code, value| UinputEvent { event_type, code, value };
    assert_eq!(pointer_move(5, u16::MAX), [e(EV_ABS, ABS_X, 5), e(EV_ABS, ABS_Y, 10_000)]);
    assert_eq!(pointer_button(PtrButton::Left, true), e(EV_KEY, BTN_LEFT, 1));
    assert_eq!(pointer_button(PtrButton::Left, false), e(EV_KEY, BTN_LEFT, 0));
    assert_eq!(scroll(2, 3), [e(EV_REL, REL_WHEEL, -3), e(EV_REL, REL_HWHEEL, 2)]);
    assert!(scroll(0, 0).is_empty());
    assert_eq!(key("KeyA", true), Some(e(EV_KEY, 30, 1)));
    assert_eq!(key("CommandMod", false), Some(e(EV_KEY, 29, 0)));
    assert_eq!(key("Unknown", true), None);
}

#[test]
fn a_missing_device_says_what_to_do() {
    let denied = map_err(true, "permission denied").to_string();
    let other = map_err(false, "broken").to_string();
    assert!(denied.contains("/dev/uinput"));
    assert_ne!(denied, other);
    assert!(other.contains("broken"));
}

#[test]
fn keys_have_the_kernels_codes() {
    let table = [
        ("KeyA", Key::KEY_A),
        ("KeyB", Key::KEY_B),
        ("KeyC", Key::KEY_C),
        ("KeyD", Key::KEY_D),
        ("KeyE", Key::KEY_E),
        ("KeyF", Key::KEY_F),
        ("KeyG", Key::KEY_G),
        ("KeyH", Key::KEY_H),
        ("KeyI", Key::KEY_I),
        ("KeyJ", Key::KEY_J),
        ("KeyK", Key::KEY_K),
        ("KeyL", Key::KEY_L),
        ("KeyM", Key::KEY_M),
        ("KeyN", Key::KEY_N),
        ("KeyO", Key::KEY_O),
        ("KeyP", Key::KEY_P),
        ("KeyQ", Key::KEY_Q),
        ("KeyR", Key::KEY_R),
        ("KeyS", Key::KEY_S),
        ("KeyT", Key::KEY_T),
        ("KeyU", Key::KEY_U),
        ("KeyV", Key::KEY_V),
        ("KeyW", Key::KEY_W),
        ("KeyX", Key::KEY_X),
        ("KeyY", Key::KEY_Y),
        ("KeyZ", Key::KEY_Z),
        ("Digit0", Key::KEY_0),
        ("Digit1", Key::KEY_1),
        ("Digit2", Key::KEY_2),
        ("Digit3", Key::KEY_3),
        ("Digit4", Key::KEY_4),
        ("Digit5", Key::KEY_5),
        ("Digit6", Key::KEY_6),
        ("Digit7", Key::KEY_7),
        ("Digit8", Key::KEY_8),
        ("Digit9", Key::KEY_9),
        ("F1", Key::KEY_F1),
        ("F2", Key::KEY_F2),
        ("F3", Key::KEY_F3),
        ("F4", Key::KEY_F4),
        ("F5", Key::KEY_F5),
        ("F6", Key::KEY_F6),
        ("F7", Key::KEY_F7),
        ("F8", Key::KEY_F8),
        ("F9", Key::KEY_F9),
        ("F10", Key::KEY_F10),
        ("F11", Key::KEY_F11),
        ("F12", Key::KEY_F12),
        ("Enter", Key::KEY_ENTER),
        ("Tab", Key::KEY_TAB),
        ("Space", Key::KEY_SPACE),
        ("Backspace", Key::KEY_BACKSPACE),
        ("Delete", Key::KEY_DELETE),
        ("Escape", Key::KEY_ESC),
        ("ShiftLeft", Key::KEY_LEFTSHIFT),
        ("ShiftRight", Key::KEY_RIGHTSHIFT),
        ("ControlLeft", Key::KEY_LEFTCTRL),
        ("ControlRight", Key::KEY_RIGHTCTRL),
        ("AltLeft", Key::KEY_LEFTALT),
        ("AltRight", Key::KEY_RIGHTALT),
        ("MetaLeft", Key::KEY_LEFTMETA),
        ("MetaRight", Key::KEY_RIGHTMETA),
        ("CapsLock", Key::KEY_CAPSLOCK),
        ("ArrowUp", Key::KEY_UP),
        ("ArrowDown", Key::KEY_DOWN),
        ("ArrowLeft", Key::KEY_LEFT),
        ("ArrowRight", Key::KEY_RIGHT),
        ("Home", Key::KEY_HOME),
        ("End", Key::KEY_END),
        ("PageUp", Key::KEY_PAGEUP),
        ("PageDown", Key::KEY_PAGEDOWN),
        ("Insert", Key::KEY_INSERT),
        ("Minus", Key::KEY_MINUS),
        ("Equal", Key::KEY_EQUAL),
        ("BracketLeft", Key::KEY_LEFTBRACE),
        ("BracketRight", Key::KEY_RIGHTBRACE),
        ("Backslash", Key::KEY_BACKSLASH),
        ("Semicolon", Key::KEY_SEMICOLON),
        ("Quote", Key::KEY_APOSTROPHE),
        ("Backquote", Key::KEY_GRAVE),
        ("Comma", Key::KEY_COMMA),
        ("Period", Key::KEY_DOT),
        ("Slash", Key::KEY_SLASH),
        ("IntlBackslash", Key::KEY_102ND),
        ("Numpad0", Key::KEY_KP0),
        ("Numpad1", Key::KEY_KP1),
        ("Numpad2", Key::KEY_KP2),
        ("Numpad3", Key::KEY_KP3),
        ("Numpad4", Key::KEY_KP4),
        ("Numpad5", Key::KEY_KP5),
        ("Numpad6", Key::KEY_KP6),
        ("Numpad7", Key::KEY_KP7),
        ("Numpad8", Key::KEY_KP8),
        ("Numpad9", Key::KEY_KP9),
        ("NumpadAdd", Key::KEY_KPPLUS),
        ("NumpadSubtract", Key::KEY_KPMINUS),
        ("NumpadMultiply", Key::KEY_KPASTERISK),
        ("NumpadDivide", Key::KEY_KPSLASH),
        ("NumpadDecimal", Key::KEY_KPDOT),
        ("NumpadEnter", Key::KEY_KPENTER),
        ("NumLock", Key::KEY_NUMLOCK),
        ("PrintScreen", Key::KEY_SYSRQ),
        ("ScrollLock", Key::KEY_SCROLLLOCK),
        ("Pause", Key::KEY_PAUSE),
        ("ContextMenu", Key::KEY_COMPOSE),
        ("AudioVolumeUp", Key::KEY_VOLUMEUP),
        ("AudioVolumeDown", Key::KEY_VOLUMEDOWN),
        ("AudioVolumeMute", Key::KEY_MUTE),
        ("MediaPlayPause", Key::KEY_PLAYPAUSE),
    ];
    for (code, key) in table {
        assert_eq!(code_to_key(code), Some(key.code()), "{code}");
        assert_eq!(key_code(code), Some(key.code()), "{code}");
    }
    assert_eq!(code_to_key("CommandMod"), None);
    assert_eq!(key_code("CommandMod"), Some(Key::KEY_LEFTCTRL.code()));
    assert_eq!(code_to_key("keya"), None);
}

#[test]
fn only_input_requests_are_injected() {
    assert!(matches!(
        input_action(LanRequest::Key { code: "KeyA".to_string(), down: true }),
        Some(InputAction::Key { code, down: true }) if code == "KeyA"
    ));
    assert!(matches!(
        input_action(LanRequest::Scroll { dx: 1, dy: 2 }),
        Some(InputAction::Scroll { dx: 1, dy: 2 })
    ));
    assert!(input_action(LanRequest::Screenshot).is_none());
    assert!(input_action(LanRequest::SwitchDisplay { display: 1 }).is_none());
}
