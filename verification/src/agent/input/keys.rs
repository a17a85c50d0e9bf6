//! Keys by their position on the keyboard.
//!
//! A remote controller names a key by its browser `KeyboardEvent.code`: the
//! physical position, whatever the layout. Linux numbers the same positions
//! with evdev codes.

use vstd::prelude::*;

use crate::text::same_text;

verus! {

/// The evdev code of a key among letters.
pub open spec fn letter_key(code: Seq<char>) -> Option<u16> {
    if code == "KeyA"@ {
        Some(30)
    } else if code == "KeyB"@ {
        Some(48)
    } else if code == "KeyC"@ {
        Some(46)
    } else if code == "KeyD"@ {
        Some(32)
    } else if code == "KeyE"@ {
        Some(18)
    } else if code == "KeyF"@ {
        Some(33)
    } else if code == "KeyG"@ {
        Some(34)
    } else if code == "KeyH"@ {
        Some(35)
    } else if code == "KeyI"@ {
        Some(23)
    } else if code == "KeyJ"@ {
        Some(36)
    } else if code == "KeyK"@ {
        Some(37)
    } else if code == "KeyL"@ {
        Some(38)
    } else if code == "KeyM"@ {
        Some(50)
    } else if code == "KeyN"@ {
        Some(49)
    } else if code == "KeyO"@ {
        Some(24)
    } else if code == "KeyP"@ {
        Some(25)
    } else if code == "KeyQ"@ {
        Some(16)
    } else if code == "KeyR"@ {
        Some(19)
    } else if code == "KeyS"@ {
        Some(31)
    } else if code == "KeyT"@ {
        Some(20)
    } else if code == "KeyU"@ {
        Some(22)
    } else if code == "KeyV"@ {
        Some(47)
    } else if code == "KeyW"@ {
        Some(17)
    } else if code == "KeyX"@ {
        Some(45)
    } else if code == "KeyY"@ {
        Some(21)
    } else if code == "KeyZ"@ {
        Some(44)
    } else {
        None
    }
}

/// The evdev code of a key among the digit row.
pub open spec fn digit_key(code: Seq<char>) -> Option<u16> {
    if code == "Digit0"@ {
        Some(11)
    } else if code == "Digit1"@ {
        Some(2)
    } else if code == "Digit2"@ {
        Some(3)
    } else if code == "Digit3"@ {
        Some(4)
    } else if code == "Digit4"@ {
        Some(5)
    } else if code == "Digit5"@ {
        Some(6)
    } else if code == "Digit6"@ {
        Some(7)
    } else if code == "Digit7"@ {
        Some(8)
    } else if code == "Digit8"@ {
        Some(9)
    } else if code == "Digit9"@ {
        Some(10)
    } else {
        None
    }
}

/// The evdev code of a key among the function keys.
pub open spec fn function_key(code: Seq<char>) -> Option<u16> {
    if code == "F1"@ {
        Some(59)
    } else if code == "F2"@ {
        Some(60)
    } else if code == "F3"@ {
        Some(61)
    } else if code == "F4"@ {
        Some(62)
    } else if code == "F5"@ {
        Some(63)
    } else if code == "F6"@ {
        Some(64)
    } else if code == "F7"@ {
        Some(65)
    } else if code == "F8"@ {
        Some(66)
    } else if code == "F9"@ {
        Some(67)
    } else if code == "F10"@ {
        Some(68)
    } else if code == "F11"@ {
        Some(87)
    } else if code == "F12"@ {
        Some(88)
    } else {
        None
    }
}

/// The evdev code of a key among white space and editing.
pub open spec fn editing_key(code: Seq<char>) -> Option<u16> {
    if code == "Enter"@ {
        Some(28)
    } else if code == "Tab"@ {
        Some(15)
    } else if code == "Space"@ {
        Some(57)
    } else if code == "Backspace"@ {
        Some(14)
    } else if code == "Delete"@ {
        Some(111)
    } else if code == "Escape"@ {
        Some(1)
    } else {
        None
    }
}

/// The evdev code of a key among the modifiers.
pub open spec fn modifier_key(code: Seq<char>) -> Option<u16> {
    if code == "ShiftLeft"@ {
        Some(42)
    } else if code == "ShiftRight"@ {
        Some(54)
    } else if code == "ControlLeft"@ {
        Some(29)
    } else if code == "ControlRight"@ {
        Some(97)
    } else if code == "AltLeft"@ {
        Some(56)
    } else if code == "AltRight"@ {
        Some(100)
    } else if code == "MetaLeft"@ {
        Some(125)
    } else if code == "MetaRight"@ {
        Some(126)
    } else if code == "CapsLock"@ {
        Some(58)
    } else {
        None
    }
}

/// The evdev code of a key among the arrows and navigation.
pub open spec fn navigation_key(code: Seq<char>) -> Option<u16> {
    if code == "ArrowUp"@ {
        Some(103)
    } else if code == "ArrowDown"@ {
        Some(108)
    } else if code == "ArrowLeft"@ {
        Some(105)
    } else if code == "ArrowRight"@ {
        Some(106)
    } else if code == "Home"@ {
        Some(102)
    } else if code == "End"@ {
        Some(107)
    } else if code == "PageUp"@ {
        Some(104)
    } else if code == "PageDown"@ {
        Some(109)
    } else if code == "Insert"@ {
        Some(110)
    } else {
        None
    }
}

/// The evdev code of a key among punctuation (US layout).
pub open spec fn punctuation_key(code: Seq<char>) -> Option<u16> {
    if code == "Minus"@ {
        Some(12)
    } else if code == "Equal"@ {
        Some(13)
    } else if code == "BracketLeft"@ {
        Some(26)
    } else if code == "BracketRight"@ {
        Some(27)
    } else if code == "Backslash"@ {
        Some(43)
    } else if code == "Semicolon"@ {
        Some(39)
    } else if code == "Quote"@ {
        Some(40)
    } else if code == "Backquote"@ {
        Some(41)
    } else if code == "Comma"@ {
        Some(51)
    } else if code == "Period"@ {
        Some(52)
    } else if code == "Slash"@ {
        Some(53)
    } else if code == "IntlBackslash"@ {
        Some(86)
    } else {
        None
    }
}

/// The evdev code of a key among the numpad.
pub open spec fn numpad_key(code: Seq<char>) -> Option<u16> {
    if code == "Numpad0"@ {
        Some(82)
    } else if code == "Numpad1"@ {
        Some(79)
    } else if code == "Numpad2"@ {
        Some(80)
    } else if code == "Numpad3"@ {
        Some(81)
    } else if code == "Numpad4"@ {
        Some(75)
    } else if code == "Numpad5"@ {
        Some(76)
    } else if code == "Numpad6"@ {
        Some(77)
    } else if code == "Numpad7"@ {
        Some(71)
    } else if code == "Numpad8"@ {
        Some(72)
    } else if code == "Numpad9"@ {
        Some(73)
    } else if code == "NumpadAdd"@ {
        Some(78)
    } else if code == "NumpadSubtract"@ {
        Some(74)
    } else if code == "NumpadMultiply"@ {
        Some(55)
    } else if code == "NumpadDivide"@ {
        Some(98)
    } else if code == "NumpadDecimal"@ {
        Some(83)
    } else if code == "NumpadEnter"@ {
        Some(96)
    } else if code == "NumLock"@ {
        Some(69)
    } else {
        None
    }
}

/// The evdev code of a key among system and media keys.
pub open spec fn media_key(code: Seq<char>) -> Option<u16> {
    if code == "PrintScreen"@ {
        Some(99)
    } else if code == "ScrollLock"@ {
        Some(70)
    } else if code == "Pause"@ {
        Some(119)
    } else if code == "ContextMenu"@ {
        Some(127)
    } else if code == "AudioVolumeUp"@ {
        Some(115)
    } else if code == "AudioVolumeDown"@ {
        Some(114)
    } else if code == "AudioVolumeMute"@ {
        Some(113)
    } else if code == "MediaPlayPause"@ {
        Some(164)
    } else {
        None
    }
}

/// The evdev code of a key; `None` for keys that are not replayed.
pub open spec fn evdev_key(code: Seq<char>) -> Option<u16> {
    if letter_key(code) is Some {
        letter_key(code)
    } else if digit_key(code) is Some {
        digit_key(code)
    } else if function_key(code) is Some {
        function_key(code)
    } else if editing_key(code) is Some {
        editing_key(code)
    } else if modifier_key(code) is Some {
        modifier_key(code)
    } else if navigation_key(code) is Some {
        navigation_key(code)
    } else if punctuation_key(code) is Some {
        punctuation_key(code)
    } else if numpad_key(code) is Some {
        numpad_key(code)
    } else {
        media_key(code)
    }
}

fn find_letter_key(code: &str) -> (key: Option<u16>)
    ensures
        key == letter_key(code@),
{
    if same_text(code, "KeyA") {
        Some(30)
    } else if same_text(code, "KeyB") {
        Some(48)
    } else if same_text(code, "KeyC") {
        Some(46)
    } else if same_text(code, "KeyD") {
        Some(32)
    } else if same_text(code, "KeyE") {
        Some(18)
    } else if same_text(code, "KeyF") {
        Some(33)
    } else if same_text(code, "KeyG") {
        Some(34)
    } else if same_text(code, "KeyH") {
        Some(35)
    } else if same_text(code, "KeyI") {
        Some(23)
    } else if same_text(code, "KeyJ") {
        Some(36)
    } else if same_text(code, "KeyK") {
        Some(37)
    } else if same_text(code, "KeyL") {
        Some(38)
    } else if same_text(code, "KeyM") {
        Some(50)
    } else if same_text(code, "KeyN") {
        Some(49)
    } else if same_text(code, "KeyO") {
        Some(24)
    } else if same_text(code, "KeyP") {
        Some(25)
    } else if same_text(code, "KeyQ") {
        Some(16)
    } else if same_text(code, "KeyR") {
        Some(19)
    } else if same_text(code, "KeyS") {
        Some(31)
    } else if same_text(code, "KeyT") {
        Some(20)
    } else if same_text(code, "KeyU") {
        Some(22)
    } else if same_text(code, "KeyV") {
        Some(47)
    } else if same_text(code, "KeyW") {
        Some(17)
    } else if same_text(code, "KeyX") {
        Some(45)
    } else if same_text(code, "KeyY") {
        Some(21)
    } else if same_text(code, "KeyZ") {
        Some(44)
    } else {
        None
    }
}

fn find_digit_key(code: &str) -> (key: Option<u16>)
    ensures
        key == digit_key(code@),
{
    if same_text(code, "Digit0") {
        Some(11)
    } else if same_text(code, "Digit1") {
        Some(2)
    } else if same_text(code, "Digit2") {
        Some(3)
    } else if same_text(code, "Digit3") {
        Some(4)
    } else if same_text(code, "Digit4") {
        Some(5)
    } else if same_text(code, "Digit5") {
        Some(6)
    } else if same_text(code, "Digit6") {
        Some(7)
    } else if same_text(code, "Digit7") {
        Some(8)
    } else if same_text(code, "Digit8") {
        Some(9)
    } else if same_text(code, "Digit9") {
        Some(10)
    } else {
        None
    }
}

fn find_function_key(code: &str) -> (key: Option<u16>)
    ensures
        key == function_key(code@),
{
    if same_text(code, "F1") {
        Some(59)
    } else if same_text(code, "F2") {
        Some(60)
    } else if same_text(code, "F3") {
        Some(61)
    } else if same_text(code, "F4") {
        Some(62)
    } else if same_text(code, "F5") {
        Some(63)
    } else if same_text(code, "F6") {
        Some(64)
    } else if same_text(code, "F7") {
        Some(65)
    } else if same_text(code, "F8") {
        Some(66)
    } else if same_text(code, "F9") {
        Some(67)
    } else if same_text(code, "F10") {
        Some(68)
    } else if same_text(code, "F11") {
        Some(87)
    } else if same_text(code, "F12") {
        Some(88)
    } else {
        None
    }
}

fn find_editing_key(code: &str) -> (key: Option<u16>)
    ensures
        key == editing_key(code@),
{
    if same_text(code, "Enter") {
        Some(28)
    } else if same_text(code, "Tab") {
        Some(15)
    } else if same_text(code, "Space") {
        Some(57)
    } else if same_text(code, "Backspace") {
        Some(14)
    } else if same_text(code, "Delete") {
        Some(111)
    } else if same_text(code, "Escape") {
        Some(1)
    } else {
        None
    }
}

fn find_modifier_key(code: &str) -> (key: Option<u16>)
    ensures
        key == modifier_key(code@),
{
    if same_text(code, "ShiftLeft") {
        Some(42)
    } else if same_text(code, "ShiftRight") {
        Some(54)
    } else if same_text(code, "ControlLeft") {
        Some(29)
    } else if same_text(code, "ControlRight") {
        Some(97)
    } else if same_text(code, "AltLeft") {
        Some(56)
    } else if same_text(code, "AltRight") {
        Some(100)
    } else if same_text(code, "MetaLeft") {
        Some(125)
    } else if same_text(code, "MetaRight") {
        Some(126)
    } else if same_text(code, "CapsLock") {
        Some(58)
    } else {
        None
    }
}

fn find_navigation_key(code: &str) -> (key: Option<u16>)
    ensures
        key == navigation_key(code@),
{
    if same_text(code, "ArrowUp") {
        Some(103)
    } else if same_text(code, "ArrowDown") {
        Some(108)
    } else if same_text(code, "ArrowLeft") {
        Some(105)
    } else if same_text(code, "ArrowRight") {
        Some(106)
    } else if same_text(code, "Home") {
        Some(102)
    } else if same_text(code, "End") {
        Some(107)
    } else if same_text(code, "PageUp") {
        Some(104)
    } else if same_text(code, "PageDown") {
        Some(109)
    } else if same_text(code, "Insert") {
        Some(110)
    } else {
        None
    }
}

fn find_punctuation_key(code: &str) -> (key: Option<u16>)
    ensures
        key == punctuation_key(code@),
{
    if same_text(code, "Minus") {
        Some(12)
    } else if same_text(code, "Equal") {
        Some(13)
    } else if same_text(code, "BracketLeft") {
        Some(26)
    } else if same_text(code, "BracketRight") {
        Some(27)
    } else if same_text(code, "Backslash") {
        Some(43)
    } else if same_text(code, "Semicolon") {
        Some(39)
    } else if same_text(code, "Quote") {
        Some(40)
    } else if same_text(code, "Backquote") {
        Some(41)
    } else if same_text(code, "Comma") {
        Some(51)
    } else if same_text(code, "Period") {
        Some(52)
    } else if same_text(code, "Slash") {
        Some(53)
    } else if same_text(code, "IntlBackslash") {
        Some(86)
    } else {
        None
    }
}

fn find_numpad_key(code: &str) -> (key: Option<u16>)
    ensures
        key == numpad_key(code@),
{
    if same_text(code, "Numpad0") {
        Some(82)
    } else if same_text(code, "Numpad1") {
        Some(79)
    } else if same_text(code, "Numpad2") {
        Some(80)
    } else if same_text(code, "Numpad3") {
        Some(81)
    } else if same_text(code, "Numpad4") {
        Some(75)
    } else if same_text(code, "Numpad5") {
        Some(76)
    } else if same_text(code, "Numpad6") {
        Some(77)
    } else if same_text(code, "Numpad7") {
        Some(71)
    } else if same_text(code, "Numpad8") {
        Some(72)
    } else if same_text(code, "Numpad9") {
        Some(73)
    } else if same_text(code, "NumpadAdd") {
        Some(78)
    } else if same_text(code, "NumpadSubtract") {
        Some(74)
    } else if same_text(code, "NumpadMultiply") {
        Some(55)
    } else if same_text(code, "NumpadDivide") {
        Some(98)
    } else if same_text(code, "NumpadDecimal") {
        Some(83)
    } else if same_text(code, "NumpadEnter") {
        Some(96)
    } else if same_text(code, "NumLock") {
        Some(69)
    } else {
        None
    }
}

fn find_media_key(code: &str) -> (key: Option<u16>)
    ensures
        key == media_key(code@),
{
    if same_text(code, "PrintScreen") {
        Some(99)
    } else if same_text(code, "ScrollLock") {
        Some(70)
    } else if same_text(code, "Pause") {
        Some(119)
    } else if same_text(code, "ContextMenu") {
        Some(127)
    } else if same_text(code, "AudioVolumeUp") {
        Some(115)
    } else if same_text(code, "AudioVolumeDown") {
        Some(114)
    } else if same_text(code, "AudioVolumeMute") {
        Some(113)
    } else if same_text(code, "MediaPlayPause") {
        Some(164)
    } else {
        None
    }
}

/// Map a browser `KeyboardEvent.code` (physical position, layout-independent)
/// to an evdev key code. `None` for codes that are not replayed.
pub fn code_to_key(code: &str) -> (key: Option<u16>)
    ensures
        key == evdev_key(code@),
{
    let key = find_letter_key(code);
    if key.is_some() {
        return key;
    }
    let key = find_digit_key(code);
    if key.is_some() {
        return key;
    }
    let key = find_function_key(code);
    if key.is_some() {
        return key;
    }
    let key = find_editing_key(code);
    if key.is_some() {
        return key;
    }
    let key = find_modifier_key(code);
    if key.is_some() {
        return key;
    }
    let key = find_navigation_key(code);
    if key.is_some() {
        return key;
    }
    let key = find_punctuation_key(code);
    if key.is_some() {
        return key;
    }
    let key = find_numpad_key(code);
    if key.is_some() {
        return key;
    }
    find_media_key(code)
}

/// The keyboard event code of a key of the remote controller: an evdev code, or
/// that of the left control key for the controller's command modifier.
pub open spec fn replayed_key(code: Seq<char>) -> Option<u16> {
    if code == "CommandMod"@ {
        Some(29)
    } else {
        evdev_key(code)
    }
}

/// Map a browser `KeyboardEvent.code` (or the `CommandMod` token, the peer's
/// command modifier) to an evdev keycode. `None` for codes that are not
/// replayed.
pub fn key_code(code: &str) -> (key: Option<u16>)
    ensures
        key == replayed_key(code@),
{
    if same_text(code, "CommandMod") {
        return Some(29);
    }
    code_to_key(code)
}

/// Every key that is replayed lies in the range that a virtual keyboard
/// advertises, and its X11 key code, which is 8 higher, fits a byte.
pub proof fn keys_are_advertised(code: Seq<char>)
    ensures
        replayed_key(code) matches Some(key) ==> 1 <= key <= 255 && key + 8 <= 255,
{
}

proof fn letter_key_is_distinct(a: Seq<char>, b: Seq<char>)
    requires
        letter_key(a) is Some,
        letter_key(a) == letter_key(b),
    ensures
        a == b,
{
}

proof fn digit_key_is_distinct(a: Seq<char>, b: Seq<char>)
    requires
        digit_key(a) is Some,
        digit_key(a) == digit_key(b),
    ensures
        a == b,
{
}

proof fn function_key_is_distinct(a: Seq<char>, b: Seq<char>)
    requires
        function_key(a) is Some,
        function_key(a) == function_key(b),
    ensures
        a == b,
{
}

proof fn editing_key_is_distinct(a: Seq<char>, b: Seq<char>)
    requires
        editing_key(a) is Some,
        editing_key(a) == editing_key(b),
    ensures
        a == b,
{
}

proof fn modifier_key_is_distinct(a: Seq<char>, b: Seq<char>)
    requires
        modifier_key(a) is Some,
        modifier_key(a) == modifier_key(b),
    ensures
        a == b,
{
}

proof fn navigation_key_is_distinct(a: Seq<char>, b: Seq<char>)
    requires
        navigation_key(a) is Some,
        navigation_key(a) == navigation_key(b),
    ensures
        a == b,
{
}

proof fn punctuation_key_is_distinct(a: Seq<char>, b: Seq<char>)
    requires
        punctuation_key(a) is Some,
        punctuation_key(a) == punctuation_key(b),
    ensures
        a == b,
{
}

proof fn numpad_key_is_distinct(a: Seq<char>, b: Seq<char>)
    requires
        numpad_key(a) is Some,
        numpad_key(a) == numpad_key(b),
    ensures
        a == b,
{
}

proof fn media_key_is_distinct(a: Seq<char>, b: Seq<char>)
    requires
        media_key(a) is Some,
        media_key(a) == media_key(b),
    ensures
        a == b,
{
}

proof fn letter_key_is_within(code: Seq<char>)
    ensures
        letter_key(code) matches Some(key) ==> (16 <= key <= 25 || 30 <= key <= 38 || 44 <= key <= 50),
{
}

proof fn digit_key_is_within(code: Seq<char>)
    ensures
        digit_key(code) matches Some(key) ==> (2 <= key <= 11),
{
}

proof fn function_key_is_within(code: Seq<char>)
    ensures
        function_key(code) matches Some(key) ==> (59 <= key <= 68 || 87 <= key <= 88),
{
}

proof fn editing_key_is_within(code: Seq<char>)
    ensures
        editing_key(code) matches Some(key) ==> (key == 1 || 14 <= key <= 15 || key == 28 || key == 57 || key == 111),
{
}

proof fn modifier_key_is_within(code: Seq<char>)
    ensures
        modifier_key(code) matches Some(key) ==> (key == 29 || key == 42 || key == 54 || key == 56 || key == 58 || key == 97 || key == 100 || 125 <= key <= 126),
{
}

proof fn navigation_key_is_within(code: Seq<char>)
    ensures
        navigation_key(code) matches Some(key) ==> (102 <= key <= 110),
{
}

proof fn punctuation_key_is_within(code: Seq<char>)
    ensures
        punctuation_key(code) matches Some(key) ==> (12 <= key <= 13 || 26 <= key <= 27 || 39 <= key <= 41 || key == 43 || 51 <= key <= 53 || key == 86),
{
}

proof fn numpad_key_is_within(code: Seq<char>)
    ensures
        numpad_key(code) matches Some(key) ==> (key == 55 || key == 69 || 71 <= key <= 83 || key == 96 || key == 98),
{
}

proof fn media_key_is_within(code: Seq<char>)
    ensures
        media_key(code) matches Some(key) ==> (key == 70 || key == 99 || 113 <= key <= 115 || key == 119 || key == 127 || key == 164),
{
}

/// No two keys have one evdev code.
pub proof fn keys_are_distinct(a: Seq<char>, b: Seq<char>)
    requires
        evdev_key(a) is Some,
        evdev_key(a) == evdev_key(b),
    ensures
        a == b,
{
    letter_key_is_within(a);
    letter_key_is_within(b);
    digit_key_is_within(a);
    digit_key_is_within(b);
    function_key_is_within(a);
    function_key_is_within(b);
    editing_key_is_within(a);
    editing_key_is_within(b);
    modifier_key_is_within(a);
    modifier_key_is_within(b);
    navigation_key_is_within(a);
    navigation_key_is_within(b);
    punctuation_key_is_within(a);
    punctuation_key_is_within(b);
    numpad_key_is_within(a);
    numpad_key_is_within(b);
    media_key_is_within(a);
    media_key_is_within(b);
    if letter_key(a) is Some && letter_key(b) is Some {
        letter_key_is_distinct(a, b);
    } else if digit_key(a) is Some && digit_key(b) is Some {
        digit_key_is_distinct(a, b);
    } else if function_key(a) is Some && function_key(b) is Some {
        function_key_is_distinct(a, b);
    } else if editing_key(a) is Some && editing_key(b) is Some {
        editing_key_is_distinct(a, b);
    } else if modifier_key(a) is Some && modifier_key(b) is Some {
        modifier_key_is_distinct(a, b);
    } else if navigation_key(a) is Some && navigation_key(b) is Some {
        navigation_key_is_distinct(a, b);
    } else if punctuation_key(a) is Some && punctuation_key(b) is Some {
        punctuation_key_is_distinct(a, b);
    } else if numpad_key(a) is Some && numpad_key(b) is Some {
        numpad_key_is_distinct(a, b);
    } else if media_key(a) is Some && media_key(b) is Some {
        media_key_is_distinct(a, b);
    }
}

/// The key at a place of the keyboard. The places are numbered row by row and from left
/// to right, from the escape key on; the keys that later keyboards added follow.
pub open spec fn key_at(place: u16) -> Option<Seq<char>> {
    match place {
        1 => Some("Escape"@),
        2 => Some("Digit1"@),
        3 => Some("Digit2"@),
        4 => Some("Digit3"@),
        5 => Some("Digit4"@),
        6 => Some("Digit5"@),
        7 => Some("Digit6"@),
        8 => Some("Digit7"@),
        9 => Some("Digit8"@),
        10 => Some("Digit9"@),
        11 => Some("Digit0"@),
        12 => Some("Minus"@),
        13 => Some("Equal"@),
        14 => Some("Backspace"@),
        15 => Some("Tab"@),
        16 => Some("KeyQ"@),
        17 => Some("KeyW"@),
        18 => Some("KeyE"@),
        19 => Some("KeyR"@),
        20 => Some("KeyT"@),
        21 => Some("KeyY"@),
        22 => Some("KeyU"@),
        23 => Some("KeyI"@),
        24 => Some("KeyO"@),
        25 => Some("KeyP"@),
        26 => Some("BracketLeft"@),
        27 => Some("BracketRight"@),
        28 => Some("Enter"@),
        29 => Some("ControlLeft"@),
        30 => Some("KeyA"@),
        31 => Some("KeyS"@),
        32 => Some("KeyD"@),
        33 => Some("KeyF"@),
        34 => Some("KeyG"@),
        35 => Some("KeyH"@),
        36 => Some("KeyJ"@),
        37 => Some("KeyK"@),
        38 => Some("KeyL"@),
        39 => Some("Semicolon"@),
        40 => Some("Quote"@),
        41 => Some("Backquote"@),
        42 => Some("ShiftLeft"@),
        43 => Some("Backslash"@),
        44 => Some("KeyZ"@),
        45 => Some("KeyX"@),
        46 => Some("KeyC"@),
        47 => Some("KeyV"@),
        48 => Some("KeyB"@),
        49 => Some("KeyN"@),
        50 => Some("KeyM"@),
        51 => Some("Comma"@),
        52 => Some("Period"@),
        53 => Some("Slash"@),
        54 => Some("ShiftRight"@),
        55 => Some("NumpadMultiply"@),
        56 => Some("AltLeft"@),
        57 => Some("Space"@),
        58 => Some("CapsLock"@),
        59 => Some("F1"@),
        60 => Some("F2"@),
        61 => Some("F3"@),
        62 => Some("F4"@),
        63 => Some("F5"@),
        64 => Some("F6"@),
        65 => Some("F7"@),
        66 => Some("F8"@),
        67 => Some("F9"@),
        68 => Some("F10"@),
        69 => Some("NumLock"@),
        70 => Some("ScrollLock"@),
        71 => Some("Numpad7"@),
        72 => Some("Numpad8"@),
        73 => Some("Numpad9"@),
        74 => Some("NumpadSubtract"@),
        75 => Some("Numpad4"@),
        76 => Some("Numpad5"@),
        77 => Some("Numpad6"@),
        78 => Some("NumpadAdd"@),
        79 => Some("Numpad1"@),
        80 => Some("Numpad2"@),
        81 => Some("Numpad3"@),
        82 => Some("Numpad0"@),
        83 => Some("NumpadDecimal"@),
        86 => Some("IntlBackslash"@),
        87 => Some("F11"@),
        88 => Some("F12"@),
        96 => Some("NumpadEnter"@),
        97 => Some("ControlRight"@),
        98 => Some("NumpadDivide"@),
        99 => Some("PrintScreen"@),
        100 => Some("AltRight"@),
        102 => Some("Home"@),
        103 => Some("ArrowUp"@),
        104 => Some("PageUp"@),
        105 => Some("ArrowLeft"@),
        106 => Some("ArrowRight"@),
        107 => Some("End"@),
        108 => Some("ArrowDown"@),
        109 => Some("PageDown"@),
        110 => Some("Insert"@),
        111 => Some("Delete"@),
        113 => Some("AudioVolumeMute"@),
        114 => Some("AudioVolumeDown"@),
        115 => Some("AudioVolumeUp"@),
        119 => Some("Pause"@),
        125 => Some("MetaLeft"@),
        126 => Some("MetaRight"@),
        127 => Some("ContextMenu"@),
        164 => Some("MediaPlayPause"@),
        _ => None,
    }
}

/// The evdev code of a key is the number of its place, and the keys that stand at a place
/// are those that are replayed.
pub proof fn keys_are_numbered_by_place(code: Seq<char>, place: u16)
    ensures
        evdev_key(code) == Some(place) ==> key_at(place) == Some(code),
        key_at(place) == Some(code) ==> evdev_key(code) is Some,
{
}

/// The command modifier is replayed as the left control key, and every other key as
/// itself.
pub proof fn command_is_control(code: Seq<char>)
    ensures
        code == "CommandMod"@ ==> replayed_key(code) == Some(29u16),
        code != "CommandMod"@ ==> replayed_key(code) == evdev_key(code),
        key_at(29) == Some("ControlLeft"@),
{
}

} // verus!
