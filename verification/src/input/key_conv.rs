//! The keys of the input crates (`mac_keycode`, `rdev`, `device_query`), by
//! the names of their variants, and the key code names they stand for.
use crate::input::key::{str_opt_view, Key, KeyParseError};
use crate::text::{owned, str_eq};
use vstd::prelude::*;

verus! {

/// The `mac_keycode` key of a key code name (by variant name), part 1 of the table.
pub open spec fn mac_keycode_of_0(v: Seq<char>) -> Option<Seq<char>> {
    if v == "KeyA"@ {
        Some("A"@)
    } else if v == "KeyS"@ {
        Some("S"@)
    } else if v == "KeyD"@ {
        Some("D"@)
    } else if v == "KeyF"@ {
        Some("F"@)
    } else if v == "KeyH"@ {
        Some("H"@)
    } else if v == "KeyG"@ {
        Some("G"@)
    } else if v == "KeyZ"@ {
        Some("Z"@)
    } else if v == "KeyX"@ {
        Some("X"@)
    } else if v == "KeyC"@ {
        Some("C"@)
    } else if v == "KeyV"@ {
        Some("V"@)
    } else if v == "IntlBackslash"@ {
        Some("ISOSection"@)
    } else if v == "KeyB"@ {
        Some("B"@)
    } else if v == "KeyQ"@ {
        Some("Q"@)
    } else if v == "KeyW"@ {
        Some("W"@)
    } else if v == "KeyE"@ {
        Some("E"@)
    } else if v == "KeyR"@ {
        Some("R"@)
    } else if v == "KeyY"@ {
        Some("Y"@)
    } else if v == "KeyT"@ {
        Some("T"@)
    } else if v == "Digit1"@ {
        Some("Digit1"@)
    } else if v == "Digit2"@ {
        Some("Digit2"@)
    } else if v == "Digit3"@ {
        Some("Digit3"@)
    } else if v == "Digit4"@ {
        Some("Digit4"@)
    } else if v == "Digit6"@ {
        Some("Digit6"@)
    } else if v == "Digit5"@ {
        Some("Digit5"@)
    } else if v == "Equal"@ {
        Some("Equal"@)
    } else if v == "Digit9"@ {
        Some("Digit9"@)
    } else if v == "Digit7"@ {
        Some("Digit7"@)
    } else if v == "Minus"@ {
        Some("Minus"@)
    } else if v == "Digit8"@ {
        Some("Digit8"@)
    } else if v == "Digit0"@ {
        Some("Digit0"@)
    } else {
        None
    }
}

fn mac_keycode_of_exec_0(v: &str) -> (r: Option<&'static str>)
    ensures
        str_opt_view(r) == mac_keycode_of_0(v@),
{
    if str_eq(v, "KeyA") {
        Some("A")
    } else if str_eq(v, "KeyS") {
        Some("S")
    } else if str_eq(v, "KeyD") {
        Some("D")
    } else if str_eq(v, "KeyF") {
        Some("F")
    } else if str_eq(v, "KeyH") {
        Some("H")
    } else if str_eq(v, "KeyG") {
        Some("G")
    } else if str_eq(v, "KeyZ") {
        Some("Z")
    } else if str_eq(v, "KeyX") {
        Some("X")
    } else if str_eq(v, "KeyC") {
        Some("C")
    } else if str_eq(v, "KeyV") {
        Some("V")
    } else if str_eq(v, "IntlBackslash") {
        Some("ISOSection")
    } else if str_eq(v, "KeyB") {
        Some("B")
    } else if str_eq(v, "KeyQ") {
        Some("Q")
    } else if str_eq(v, "KeyW") {
        Some("W")
    } else if str_eq(v, "KeyE") {
        Some("E")
    } else if str_eq(v, "KeyR") {
        Some("R")
    } else if str_eq(v, "KeyY") {
        Some("Y")
    } else if str_eq(v, "KeyT") {
        Some("T")
    } else if str_eq(v, "Digit1") {
        Some("Digit1")
    } else if str_eq(v, "Digit2") {
        Some("Digit2")
    } else if str_eq(v, "Digit3") {
        Some("Digit3")
    } else if str_eq(v, "Digit4") {
        Some("Digit4")
    } else if str_eq(v, "Digit6") {
        Some("Digit6")
    } else if str_eq(v, "Digit5") {
        Some("Digit5")
    } else if str_eq(v, "Equal") {
        Some("Equal")
    } else if str_eq(v, "Digit9") {
        Some("Digit9")
    } else if str_eq(v, "Digit7") {
        Some("Digit7")
    } else if str_eq(v, "Minus") {
        Some("Minus")
    } else if str_eq(v, "Digit8") {
        Some("Digit8")
    } else if str_eq(v, "Digit0") {
        Some("Digit0")
    } else {
        None
    }
}

/// The `mac_keycode` key of a key code name (by variant name), part 2 of the table.
pub open spec fn mac_keycode_of_1(v: Seq<char>) -> Option<Seq<char>> {
    if v == "BracketRight"@ {
        Some("RightBracket"@)
    } else if v == "KeyO"@ {
        Some("O"@)
    } else if v == "KeyU"@ {
        Some("U"@)
    } else if v == "BracketLeft"@ {
        Some("LeftBracket"@)
    } else if v == "KeyI"@ {
        Some("I"@)
    } else if v == "KeyP"@ {
        Some("P"@)
    } else if v == "Enter"@ {
        Some("Return"@)
    } else if v == "KeyL"@ {
        Some("L"@)
    } else if v == "KeyJ"@ {
        Some("J"@)
    } else if v == "Quote"@ {
        Some("Quote"@)
    } else if v == "KeyK"@ {
        Some("K"@)
    } else if v == "Semicolon"@ {
        Some("Semicolon"@)
    } else if v == "Backslash"@ {
        Some("Backslash"@)
    } else if v == "Comma"@ {
        Some("Comma"@)
    } else if v == "Slash"@ {
        Some("Slash"@)
    } else if v == "KeyN"@ {
        Some("N"@)
    } else if v == "KeyM"@ {
        Some("M"@)
    } else if v == "Period"@ {
        Some("Period"@)
    } else if v == "Tab"@ {
        Some("Tab"@)
    } else if v == "Space"@ {
        Some("Space"@)
    } else if v == "Backquote"@ {
        Some("Grave"@)
    } else if v == "Backspace"@ {
        Some("Delete"@)
    } else if v == "Escape"@ {
        Some("Escape"@)
    } else if v == "MetaRight"@ {
        Some("RightCommand"@)
    } else if v == "MetaLeft"@ {
        Some("Command"@)
    } else if v == "ShiftLeft"@ {
        Some("Shift"@)
    } else if v == "CapsLock"@ {
        Some("CapsLock"@)
    } else if v == "AltLeft"@ {
        Some("Option"@)
    } else if v == "ControlLeft"@ {
        Some("Control"@)
    } else if v == "ShiftRight"@ {
        Some("RightShift"@)
    } else {
        None
    }
}

fn mac_keycode_of_exec_1(v: &str) -> (r: Option<&'static str>)
    ensures
        str_opt_view(r) == mac_keycode_of_1(v@),
{
    if str_eq(v, "BracketRight") {
        Some("RightBracket")
    } else if str_eq(v, "KeyO") {
        Some("O")
    } else if str_eq(v, "KeyU") {
        Some("U")
    } else if str_eq(v, "BracketLeft") {
        Some("LeftBracket")
    } else if str_eq(v, "KeyI") {
        Some("I")
    } else if str_eq(v, "KeyP") {
        Some("P")
    } else if str_eq(v, "Enter") {
        Some("Return")
    } else if str_eq(v, "KeyL") {
        Some("L")
    } else if str_eq(v, "KeyJ") {
        Some("J")
    } else if str_eq(v, "Quote") {
        Some("Quote")
    } else if str_eq(v, "KeyK") {
        Some("K")
    } else if str_eq(v, "Semicolon") {
        Some("Semicolon")
    } else if str_eq(v, "Backslash") {
        Some("Backslash")
    } else if str_eq(v, "Comma") {
        Some("Comma")
    } else if str_eq(v, "Slash") {
        Some("Slash")
    } else if str_eq(v, "KeyN") {
        Some("N")
    } else if str_eq(v, "KeyM") {
        Some("M")
    } else if str_eq(v, "Period") {
        Some("Period")
    } else if str_eq(v, "Tab") {
        Some("Tab")
    } else if str_eq(v, "Space") {
        Some("Space")
    } else if str_eq(v, "Backquote") {
        Some("Grave")
    } else if str_eq(v, "Backspace") {
        Some("Delete")
    } else if str_eq(v, "Escape") {
        Some("Escape")
    } else if str_eq(v, "MetaRight") {
        Some("RightCommand")
    } else if str_eq(v, "MetaLeft") {
        Some("Command")
    } else if str_eq(v, "ShiftLeft") {
        Some("Shift")
    } else if str_eq(v, "CapsLock") {
        Some("CapsLock")
    } else if str_eq(v, "AltLeft") {
        Some("Option")
    } else if str_eq(v, "ControlLeft") {
        Some("Control")
    } else if str_eq(v, "ShiftRight") {
        Some("RightShift")
    } else {
        None
    }
}

/// The `mac_keycode` key of a key code name (by variant name), part 3 of the table.
pub open spec fn mac_keycode_of_2(v: Seq<char>) -> Option<Seq<char>> {
    if v == "AltRight"@ {
        Some("RightOption"@)
    } else if v == "ControlRight"@ {
        Some("RightControl"@)
    } else if v == "Fn"@ {
        Some("Function"@)
    } else if v == "F17"@ {
        Some("F17"@)
    } else if v == "NumpadDecimal"@ {
        Some("KeypadDecimal"@)
    } else if v == "NumpadMultiply"@ {
        Some("KeypadMultiply"@)
    } else if v == "NumpadAdd"@ {
        Some("KeypadPlus"@)
    } else if v == "AudioVolumeUp"@ {
        Some("VolumeUp"@)
    } else if v == "AudioVolumeDown"@ {
        Some("VolumeDown"@)
    } else if v == "AudioVolumeMute"@ {
        Some("Mute"@)
    } else if v == "NumpadDivide"@ {
        Some("KeypadDivide"@)
    } else if v == "NumpadEnter"@ {
        Some("KeypadEnter"@)
    } else if v == "NumpadSubtract"@ {
        Some("KeypadMinus"@)
    } else if v == "F18"@ {
        Some("F18"@)
    } else if v == "F19"@ {
        Some("F19"@)
    } else if v == "NumpadEqual"@ {
        Some("KeypadEquals"@)
    } else if v == "Numpad0"@ {
        Some("Keypad0"@)
    } else if v == "Numpad1"@ {
        Some("Keypad1"@)
    } else if v == "Numpad2"@ {
        Some("Keypad2"@)
    } else if v == "Numpad3"@ {
        Some("Keypad3"@)
    } else if v == "Numpad4"@ {
        Some("Keypad4"@)
    } else if v == "Numpad5"@ {
        Some("Keypad5"@)
    } else if v == "Numpad6"@ {
        Some("Keypad6"@)
    } else if v == "Numpad7"@ {
        Some("Keypad7"@)
    } else if v == "F20"@ {
        Some("F20"@)
    } else if v == "Numpad8"@ {
        Some("Keypad8"@)
    } else if v == "Numpad9"@ {
        Some("Keypad9"@)
    } else if v == "F5"@ {
        Some("F5"@)
    } else if v == "F6"@ {
        Some("F6"@)
    } else if v == "F7"@ {
        Some("F7"@)
    } else {
        None
    }
}

fn mac_keycode_of_exec_2(v: &str) -> (r: Option<&'static str>)
    ensures
        str_opt_view(r) == mac_keycode_of_2(v@),
{
    if str_eq(v, "AltRight") {
        Some("RightOption")
    } else if str_eq(v, "ControlRight") {
        Some("RightControl")
    } else if str_eq(v, "Fn") {
        Some("Function")
    } else if str_eq(v, "F17") {
        Some("F17")
    } else if str_eq(v, "NumpadDecimal") {
        Some("KeypadDecimal")
    } else if str_eq(v, "NumpadMultiply") {
        Some("KeypadMultiply")
    } else if str_eq(v, "NumpadAdd") {
        Some("KeypadPlus")
    } else if str_eq(v, "AudioVolumeUp") {
        Some("VolumeUp")
    } else if str_eq(v, "AudioVolumeDown") {
        Some("VolumeDown")
    } else if str_eq(v, "AudioVolumeMute") {
        Some("Mute")
    } else if str_eq(v, "NumpadDivide") {
        Some("KeypadDivide")
    } else if str_eq(v, "NumpadEnter") {
        Some("KeypadEnter")
    } else if str_eq(v, "NumpadSubtract") {
        Some("KeypadMinus")
    } else if str_eq(v, "F18") {
        Some("F18")
    } else if str_eq(v, "F19") {
        Some("F19")
    } else if str_eq(v, "NumpadEqual") {
        Some("KeypadEquals")
    } else if str_eq(v, "Numpad0") {
        Some("Keypad0")
    } else if str_eq(v, "Numpad1") {
        Some("Keypad1")
    } else if str_eq(v, "Numpad2") {
        Some("Keypad2")
    } else if str_eq(v, "Numpad3") {
        Some("Keypad3")
    } else if str_eq(v, "Numpad4") {
        Some("Keypad4")
    } else if str_eq(v, "Numpad5") {
        Some("Keypad5")
    } else if str_eq(v, "Numpad6") {
        Some("Keypad6")
    } else if str_eq(v, "Numpad7") {
        Some("Keypad7")
    } else if str_eq(v, "F20") {
        Some("F20")
    } else if str_eq(v, "Numpad8") {
        Some("Keypad8")
    } else if str_eq(v, "Numpad9") {
        Some("Keypad9")
    } else if str_eq(v, "F5") {
        Some("F5")
    } else if str_eq(v, "F6") {
        Some("F6")
    } else if str_eq(v, "F7") {
        Some("F7")
    } else {
        None
    }
}

/// The `mac_keycode` key of a key code name (by variant name), part 4 of the table.
pub open spec fn mac_keycode_of_3(v: Seq<char>) -> Option<Seq<char>> {
    if v == "F3"@ {
        Some("F3"@)
    } else if v == "F8"@ {
        Some("F8"@)
    } else if v == "F9"@ {
        Some("F9"@)
    } else if v == "F11"@ {
        Some("F11"@)
    } else if v == "F13"@ {
        Some("F13"@)
    } else if v == "F16"@ {
        Some("F16"@)
    } else if v == "F14"@ {
        Some("F14"@)
    } else if v == "F10"@ {
        Some("F10"@)
    } else if v == "F12"@ {
        Some("F12"@)
    } else if v == "F15"@ {
        Some("F15"@)
    } else if v == "Insert"@ {
        Some("Help"@)
    } else if v == "Home"@ {
        Some("Home"@)
    } else if v == "PageUp"@ {
        Some("PageUp"@)
    } else if v == "Delete"@ {
        Some("ForwardDelete"@)
    } else if v == "F4"@ {
        Some("F4"@)
    } else if v == "End"@ {
        Some("End"@)
    } else if v == "F2"@ {
        Some("F2"@)
    } else if v == "PageDown"@ {
        Some("PageDown"@)
    } else if v == "F1"@ {
        Some("F1"@)
    } else if v == "ArrowLeft"@ {
        Some("LeftArrow"@)
    } else if v == "ArrowRight"@ {
        Some("RightArrow"@)
    } else if v == "ArrowDown"@ {
        Some("DownArrow"@)
    } else if v == "ArrowUp"@ {
        Some("UpArrow"@)
    } else {
        None
    }
}

fn mac_keycode_of_exec_3(v: &str) -> (r: Option<&'static str>)
    ensures
        str_opt_view(r) == mac_keycode_of_3(v@),
{
    if str_eq(v, "F3") {
        Some("F3")
    } else if str_eq(v, "F8") {
        Some("F8")
    } else if str_eq(v, "F9") {
        Some("F9")
    } else if str_eq(v, "F11") {
        Some("F11")
    } else if str_eq(v, "F13") {
        Some("F13")
    } else if str_eq(v, "F16") {
        Some("F16")
    } else if str_eq(v, "F14") {
        Some("F14")
    } else if str_eq(v, "F10") {
        Some("F10")
    } else if str_eq(v, "F12") {
        Some("F12")
    } else if str_eq(v, "F15") {
        Some("F15")
    } else if str_eq(v, "Insert") {
        Some("Help")
    } else if str_eq(v, "Home") {
        Some("Home")
    } else if str_eq(v, "PageUp") {
        Some("PageUp")
    } else if str_eq(v, "Delete") {
        Some("ForwardDelete")
    } else if str_eq(v, "F4") {
        Some("F4")
    } else if str_eq(v, "End") {
        Some("End")
    } else if str_eq(v, "F2") {
        Some("F2")
    } else if str_eq(v, "PageDown") {
        Some("PageDown")
    } else if str_eq(v, "F1") {
        Some("F1")
    } else if str_eq(v, "ArrowLeft") {
        Some("LeftArrow")
    } else if str_eq(v, "ArrowRight") {
        Some("RightArrow")
    } else if str_eq(v, "ArrowDown") {
        Some("DownArrow")
    } else if str_eq(v, "ArrowUp") {
        Some("UpArrow")
    } else {
        None
    }
}

/// The `mac_keycode` key of a key code name (by variant name).
pub open spec fn mac_keycode_of(v: Seq<char>) -> Option<Seq<char>> {
    match mac_keycode_of_0(v) {
        Some(c) => Some(c),
        None => match mac_keycode_of_1(v) {
        Some(c) => Some(c),
        None => match mac_keycode_of_2(v) {
        Some(c) => Some(c),
        None => match mac_keycode_of_3(v) {
        Some(c) => Some(c),
        None => None,
    },
    },
    },
    }
}

fn mac_keycode_of_exec(v: &str) -> (r: Option<&'static str>)
    ensures
        str_opt_view(r) == mac_keycode_of(v@),
{
    let r0 = mac_keycode_of_exec_0(v);
    if r0.is_some() {
        return r0;
    }
    let r1 = mac_keycode_of_exec_1(v);
    if r1.is_some() {
        return r1;
    }
    let r2 = mac_keycode_of_exec_2(v);
    if r2.is_some() {
        return r2;
    }
    let r3 = mac_keycode_of_exec_3(v);
    if r3.is_some() {
        return r3;
    }
    None
}

/// The key code name of a `mac_keycode` key (by variant name), part 1 of the table.
pub open spec fn key_of_mac_keycode_0(v: Seq<char>) -> Option<Seq<char>> {
    if v == "A"@ {
        Some("KeyA"@)
    } else if v == "S"@ {
        Some("KeyS"@)
    } else if v == "D"@ {
        Some("KeyD"@)
    } else if v == "F"@ {
        Some("KeyF"@)
    } else if v == "H"@ {
        Some("KeyH"@)
    } else if v == "G"@ {
        Some("KeyG"@)
    } else if v == "Z"@ {
        Some("KeyZ"@)
    } else if v == "X"@ {
        Some("KeyX"@)
    } else if v == "C"@ {
        Some("KeyC"@)
    } else if v == "V"@ {
        Some("KeyV"@)
    } else if v == "ISOSection"@ {
        Some("IntlBackslash"@)
    } else if v == "B"@ {
        Some("KeyB"@)
    } else if v == "Q"@ {
        Some("KeyQ"@)
    } else if v == "W"@ {
        Some("KeyW"@)
    } else if v == "E"@ {
        Some("KeyE"@)
    } else if v == "R"@ {
        Some("KeyR"@)
    } else if v == "Y"@ {
        Some("KeyY"@)
    } else if v == "T"@ {
        Some("KeyT"@)
    } else if v == "Digit1"@ {
        Some("Digit1"@)
    } else if v == "Digit2"@ {
        Some("Digit2"@)
    } else if v == "Digit3"@ {
        Some("Digit3"@)
    } else if v == "Digit4"@ {
        Some("Digit4"@)
    } else if v == "Digit5"@ {
        Some("Digit5"@)
    } else if v == "Digit6"@ {
        Some("Digit6"@)
    } else if v == "Digit7"@ {
        Some("Digit7"@)
    } else if v == "Digit8"@ {
        Some("Digit8"@)
    } else if v == "Digit9"@ {
        Some("Digit9"@)
    } else if v == "Digit0"@ {
        Some("Digit0"@)
    } else if v == "Equal"@ {
        Some("Equal"@)
    } else if v == "Minus"@ {
        Some("Minus"@)
    } else {
        None
    }
}

fn key_of_mac_keycode_exec_0(v: &str) -> (r: Option<&'static str>)
    ensures
        str_opt_view(r) == key_of_mac_keycode_0(v@),
{
    if str_eq(v, "A") {
        Some("KeyA")
    } else if str_eq(v, "S") {
        Some("KeyS")
    } else if str_eq(v, "D") {
        Some("KeyD")
    } else if str_eq(v, "F") {
        Some("KeyF")
    } else if str_eq(v, "H") {
        Some("KeyH")
    } else if str_eq(v, "G") {
        Some("KeyG")
    } else if str_eq(v, "Z") {
        Some("KeyZ")
    } else if str_eq(v, "X") {
        Some("KeyX")
    } else if str_eq(v, "C") {
        Some("KeyC")
    } else if str_eq(v, "V") {
        Some("KeyV")
    } else if str_eq(v, "ISOSection") {
        Some("IntlBackslash")
    } else if str_eq(v, "B") {
        Some("KeyB")
    } else if str_eq(v, "Q") {
        Some("KeyQ")
    } else if str_eq(v, "W") {
        Some("KeyW")
    } else if str_eq(v, "E") {
        Some("KeyE")
    } else if str_eq(v, "R") {
        Some("KeyR")
    } else if str_eq(v, "Y") {
        Some("KeyY")
    } else if str_eq(v, "T") {
        Some("KeyT")
    } else if str_eq(v, "Digit1") {
        Some("Digit1")
    } else if str_eq(v, "Digit2") {
        Some("Digit2")
    } else if str_eq(v, "Digit3") {
        Some("Digit3")
    } else if str_eq(v, "Digit4") {
        Some("Digit4")
    } else if str_eq(v, "Digit5") {
        Some("Digit5")
    } else if str_eq(v, "Digit6") {
        Some("Digit6")
    } else if str_eq(v, "Digit7") {
        Some("Digit7")
    } else if str_eq(v, "Digit8") {
        Some("Digit8")
    } else if str_eq(v, "Digit9") {
        Some("Digit9")
    } else if str_eq(v, "Digit0") {
        Some("Digit0")
    } else if str_eq(v, "Equal") {
        Some("Equal")
    } else if str_eq(v, "Minus") {
        Some("Minus")
    } else {
        None
    }
}

/// The key code name of a `mac_keycode` key (by variant name), part 2 of the table.
pub open spec fn key_of_mac_keycode_1(v: Seq<char>) -> Option<Seq<char>> {
    if v == "LeftBracket"@ {
        Some("BracketLeft"@)
    } else if v == "RightBracket"@ {
        Some("BracketRight"@)
    } else if v == "O"@ {
        Some("KeyO"@)
    } else if v == "U"@ {
        Some("KeyU"@)
    } else if v == "I"@ {
        Some("KeyI"@)
    } else if v == "P"@ {
        Some("KeyP"@)
    } else if v == "Return"@ {
        Some("Enter"@)
    } else if v == "L"@ {
        Some("KeyL"@)
    } else if v == "J"@ {
        Some("KeyJ"@)
    } else if v == "Quote"@ {
        Some("Quote"@)
    } else if v == "K"@ {
        Some("KeyK"@)
    } else if v == "Semicolon"@ {
        Some("Semicolon"@)
    } else if v == "Backslash"@ {
        Some("Backslash"@)
    } else if v == "Comma"@ {
        Some("Comma"@)
    } else if v == "Slash"@ {
        Some("Slash"@)
    } else if v == "N"@ {
        Some("KeyN"@)
    } else if v == "M"@ {
        Some("KeyM"@)
    } else if v == "Period"@ {
        Some("Period"@)
    } else if v == "Tab"@ {
        Some("Tab"@)
    } else if v == "Space"@ {
        Some("Space"@)
    } else if v == "Grave"@ {
        Some("Backquote"@)
    } else if v == "Delete"@ {
        Some("Backspace"@)
    } else if v == "Escape"@ {
        Some("Escape"@)
    } else if v == "Command"@ {
        Some("MetaLeft"@)
    } else if v == "RightCommand"@ {
        Some("MetaRight"@)
    } else if v == "Shift"@ {
        Some("ShiftLeft"@)
    } else if v == "RightShift"@ {
        Some("ShiftRight"@)
    } else if v == "Option"@ {
        Some("AltLeft"@)
    } else if v == "RightOption"@ {
        Some("AltRight"@)
    } else if v == "Control"@ {
        Some("ControlLeft"@)
    } else {
        None
    }
}

fn key_of_mac_keycode_exec_1(v: &str) -> (r: Option<&'static str>)
    ensures
        str_opt_view(r) == key_of_mac_keycode_1(v@),
{
    if str_eq(v, "LeftBracket") {
        Some("BracketLeft")
    } else if str_eq(v, "RightBracket") {
        Some("BracketRight")
    } else if str_eq(v, "O") {
        Some("KeyO")
    } else if str_eq(v, "U") {
        Some("KeyU")
    } else if str_eq(v, "I") {
        Some("KeyI")
    } else if str_eq(v, "P") {
        Some("KeyP")
    } else if str_eq(v, "Return") {
        Some("Enter")
    } else if str_eq(v, "L") {
        Some("KeyL")
    } else if str_eq(v, "J") {
        Some("KeyJ")
    } else if str_eq(v, "Quote") {
        Some("Quote")
    } else if str_eq(v, "K") {
        Some("KeyK")
    } else if str_eq(v, "Semicolon") {
        Some("Semicolon")
    } else if str_eq(v, "Backslash") {
        Some("Backslash")
    } else if str_eq(v, "Comma") {
        Some("Comma")
    } else if str_eq(v, "Slash") {
        Some("Slash")
    } else if str_eq(v, "N") {
        Some("KeyN")
    } else if str_eq(v, "M") {
        Some("KeyM")
    } else if str_eq(v, "Period") {
        Some("Period")
    } else if str_eq(v, "Tab") {
        Some("Tab")
    } else if str_eq(v, "Space") {
        Some("Space")
    } else if str_eq(v, "Grave") {
        Some("Backquote")
    } else if str_eq(v, "Delete") {
        Some("Backspace")
    } else if str_eq(v, "Escape") {
        Some("Escape")
    } else if str_eq(v, "Command") {
        Some("MetaLeft")
    } else if str_eq(v, "RightCommand") {
        Some("MetaRight")
    } else if str_eq(v, "Shift") {
        Some("ShiftLeft")
    } else if str_eq(v, "RightShift") {
        Some("ShiftRight")
    } else if str_eq(v, "Option") {
        Some("AltLeft")
    } else if str_eq(v, "RightOption") {
        Some("AltRight")
    } else if str_eq(v, "Control") {
        Some("ControlLeft")
    } else {
        None
    }
}

/// The key code name of a `mac_keycode` key (by variant name), part 3 of the table.
pub open spec fn key_of_mac_keycode_2(v: Seq<char>) -> Option<Seq<char>> {
    if v == "RightControl"@ {
        Some("ControlRight"@)
    } else if v == "Function"@ {
        Some("Fn"@)
    } else if v == "F1"@ {
        Some("F1"@)
    } else if v == "F2"@ {
        Some("F2"@)
    } else if v == "F3"@ {
        Some("F3"@)
    } else if v == "F4"@ {
        Some("F4"@)
    } else if v == "F5"@ {
        Some("F5"@)
    } else if v == "F6"@ {
        Some("F6"@)
    } else if v == "F7"@ {
        Some("F7"@)
    } else if v == "F8"@ {
        Some("F8"@)
    } else if v == "F9"@ {
        Some("F9"@)
    } else if v == "F10"@ {
        Some("F10"@)
    } else if v == "F11"@ {
        Some("F11"@)
    } else if v == "F12"@ {
        Some("F12"@)
    } else if v == "F13"@ {
        Some("F13"@)
    } else if v == "F14"@ {
        Some("F14"@)
    } else if v == "F15"@ {
        Some("F15"@)
    } else if v == "F16"@ {
        Some("F16"@)
    } else if v == "F17"@ {
        Some("F17"@)
    } else if v == "F18"@ {
        Some("F18"@)
    } else if v == "F19"@ {
        Some("F19"@)
    } else if v == "F20"@ {
        Some("F20"@)
    } else if v == "Keypad0"@ {
        Some("Numpad0"@)
    } else if v == "Keypad1"@ {
        Some("Numpad1"@)
    } else if v == "Keypad2"@ {
        Some("Numpad2"@)
    } else if v == "Keypad3"@ {
        Some("Numpad3"@)
    } else if v == "Keypad4"@ {
        Some("Numpad4"@)
    } else if v == "Keypad5"@ {
        Some("Numpad5"@)
    } else if v == "Keypad6"@ {
        Some("Numpad6"@)
    } else if v == "Keypad7"@ {
        Some("Numpad7"@)
    } else {
        None
    }
}

fn key_of_mac_keycode_exec_2(v: &str) -> (r: Option<&'static str>)
    ensures
        str_opt_view(r) == key_of_mac_keycode_2(v@),
{
    if str_eq(v, "RightControl") {
        Some("ControlRight")
    } else if str_eq(v, "Function") {
        Some("Fn")
    } else if str_eq(v, "F1") {
        Some("F1")
    } else if str_eq(v, "F2") {
        Some("F2")
    } else if str_eq(v, "F3") {
        Some("F3")
    } else if str_eq(v, "F4") {
        Some("F4")
    } else if str_eq(v, "F5") {
        Some("F5")
    } else if str_eq(v, "F6") {
        Some("F6")
    } else if str_eq(v, "F7") {
        Some("F7")
    } else if str_eq(v, "F8") {
        Some("F8")
    } else if str_eq(v, "F9") {
        Some("F9")
    } else if str_eq(v, "F10") {
        Some("F10")
    } else if str_eq(v, "F11") {
        Some("F11")
    } else if str_eq(v, "F12") {
        Some("F12")
    } else if str_eq(v, "F13") {
        Some("F13")
    } else if str_eq(v, "F14") {
        Some("F14")
    } else if str_eq(v, "F15") {
        Some("F15")
    } else if str_eq(v, "F16") {
        Some("F16")
    } else if str_eq(v, "F17") {
        Some("F17")
    } else if str_eq(v, "F18") {
        Some("F18")
    } else if str_eq(v, "F19") {
        Some("F19")
    } else if str_eq(v, "F20") {
        Some("F20")
    } else if str_eq(v, "Keypad0") {
        Some("Numpad0")
    } else if str_eq(v, "Keypad1") {
        Some("Numpad1")
    } else if str_eq(v, "Keypad2") {
        Some("Numpad2")
    } else if str_eq(v, "Keypad3") {
        Some("Numpad3")
    } else if str_eq(v, "Keypad4") {
        Some("Numpad4")
    } else if str_eq(v, "Keypad5") {
        Some("Numpad5")
    } else if str_eq(v, "Keypad6") {
        Some("Numpad6")
    } else if str_eq(v, "Keypad7") {
        Some("Numpad7")
    } else {
        None
    }
}

/// The key code name of a `mac_keycode` key (by variant name), part 4 of the table.
pub open spec fn key_of_mac_keycode_3(v: Seq<char>) -> Option<Seq<char>> {
    if v == "Keypad8"@ {
        Some("Numpad8"@)
    } else if v == "Keypad9"@ {
        Some("Numpad9"@)
    } else if v == "KeypadDecimal"@ {
        Some("NumpadDecimal"@)
    } else if v == "KeypadMultiply"@ {
        Some("NumpadMultiply"@)
    } else if v == "KeypadPlus"@ {
        Some("NumpadAdd"@)
    } else if v == "KeypadDivide"@ {
        Some("NumpadDivide"@)
    } else if v == "KeypadEnter"@ {
        Some("NumpadEnter"@)
    } else if v == "KeypadMinus"@ {
        Some("NumpadSubtract"@)
    } else if v == "KeypadEquals"@ {
        Some("NumpadEqual"@)
    } else if v == "VolumeUp"@ {
        Some("AudioVolumeUp"@)
    } else if v == "VolumeDown"@ {
        Some("AudioVolumeDown"@)
    } else if v == "Mute"@ {
        Some("AudioVolumeMute"@)
    } else if v == "Help"@ {
        Some("Insert"@)
    } else if v == "Home"@ {
        Some("Home"@)
    } else if v == "PageUp"@ {
        Some("PageUp"@)
    } else if v == "ForwardDelete"@ {
        Some("Delete"@)
    } else if v == "End"@ {
        Some("End"@)
    } else if v == "PageDown"@ {
        Some("PageDown"@)
    } else if v == "LeftArrow"@ {
        Some("ArrowLeft"@)
    } else if v == "RightArrow"@ {
        Some("ArrowRight"@)
    } else if v == "DownArrow"@ {
        Some("ArrowDown"@)
    } else if v == "UpArrow"@ {
        Some("ArrowUp"@)
    } else if v == "CapsLock"@ {
        Some("CapsLock"@)
    } else {
        None
    }
}

fn key_of_mac_keycode_exec_3(v: &str) -> (r: Option<&'static str>)
    ensures
        str_opt_view(r) == key_of_mac_keycode_3(v@),
{
    if str_eq(v, "Keypad8") {
        Some("Numpad8")
    } else if str_eq(v, "Keypad9") {
        Some("Numpad9")
    } else if str_eq(v, "KeypadDecimal") {
        Some("NumpadDecimal")
    } else if str_eq(v, "KeypadMultiply") {
        Some("NumpadMultiply")
    } else if str_eq(v, "KeypadPlus") {
        Some("NumpadAdd")
    } else if str_eq(v, "KeypadDivide") {
        Some("NumpadDivide")
    } else if str_eq(v, "KeypadEnter") {
        Some("NumpadEnter")
    } else if str_eq(v, "KeypadMinus") {
        Some("NumpadSubtract")
    } else if str_eq(v, "KeypadEquals") {
        Some("NumpadEqual")
    } else if str_eq(v, "VolumeUp") {
        Some("AudioVolumeUp")
    } else if str_eq(v, "VolumeDown") {
        Some("AudioVolumeDown")
    } else if str_eq(v, "Mute") {
        Some("AudioVolumeMute")
    } else if str_eq(v, "Help") {
        Some("Insert")
    } else if str_eq(v, "Home") {
        Some("Home")
    } else if str_eq(v, "PageUp") {
        Some("PageUp")
    } else if str_eq(v, "ForwardDelete") {
        Some("Delete")
    } else if str_eq(v, "End") {
        Some("End")
    } else if str_eq(v, "PageDown") {
        Some("PageDown")
    } else if str_eq(v, "LeftArrow") {
        Some("ArrowLeft")
    } else if str_eq(v, "RightArrow") {
        Some("ArrowRight")
    } else if str_eq(v, "DownArrow") {
        Some("ArrowDown")
    } else if str_eq(v, "UpArrow") {
        Some("ArrowUp")
    } else if str_eq(v, "CapsLock") {
        Some("CapsLock")
    } else {
        None
    }
}

/// The key code name of a `mac_keycode` key (by variant name).
pub open spec fn key_of_mac_keycode(v: Seq<char>) -> Option<Seq<char>> {
    match key_of_mac_keycode_0(v) {
        Some(c) => Some(c),
        None => match key_of_mac_keycode_1(v) {
        Some(c) => Some(c),
        None => match key_of_mac_keycode_2(v) {
        Some(c) => Some(c),
        None => match key_of_mac_keycode_3(v) {
        Some(c) => Some(c),
        None => None,
    },
    },
    },
    }
}

fn key_of_mac_keycode_exec(v: &str) -> (r: Option<&'static str>)
    ensures
        str_opt_view(r) == key_of_mac_keycode(v@),
{
    let r0 = key_of_mac_keycode_exec_0(v);
    if r0.is_some() {
        return r0;
    }
    let r1 = key_of_mac_keycode_exec_1(v);
    if r1.is_some() {
        return r1;
    }
    let r2 = key_of_mac_keycode_exec_2(v);
    if r2.is_some() {
        return r2;
    }
    let r3 = key_of_mac_keycode_exec_3(v);
    if r3.is_some() {
        return r3;
    }
    None
}

/// The `rdev` key of a key code name (as `rdev` prints it), part 1 of the table.
pub open spec fn rdev_key_of_0(v: Seq<char>) -> Option<Seq<char>> {
    if v == "Backspace"@ {
        Some("Backspace"@)
    } else if v == "CapsLock"@ {
        Some("CapsLock"@)
    } else if v == "ControlLeft"@ {
        Some("ControlLeft"@)
    } else if v == "ControlRight"@ {
        Some("ControlRight"@)
    } else if v == "Delete"@ {
        Some("Delete"@)
    } else if v == "ArrowDown"@ {
        Some("DownArrow"@)
    } else if v == "End"@ {
        Some("End"@)
    } else if v == "Escape"@ {
        Some("Escape"@)
    } else if v == "F1"@ {
        Some("F1"@)
    } else if v == "F2"@ {
        Some("F2"@)
    } else if v == "F3"@ {
        Some("F3"@)
    } else if v == "F4"@ {
        Some("F4"@)
    } else if v == "F5"@ {
        Some("F5"@)
    } else if v == "F6"@ {
        Some("F6"@)
    } else if v == "F7"@ {
        Some("F7"@)
    } else if v == "F8"@ {
        Some("F8"@)
    } else if v == "F9"@ {
        Some("F9"@)
    } else if v == "F10"@ {
        Some("F10"@)
    } else if v == "F11"@ {
        Some("F11"@)
    } else if v == "F12"@ {
        Some("F12"@)
    } else if v == "F13"@ {
        Some("Unknown(105)"@)
    } else if v == "F14"@ {
        Some("Unknown(107)"@)
    } else if v == "F15"@ {
        Some("Unknown(113)"@)
    } else if v == "F16"@ {
        Some("Unknown(106)"@)
    } else if v == "F17"@ {
        Some("Unknown(64)"@)
    } else if v == "F18"@ {
        Some("Unknown(79)"@)
    } else if v == "F19"@ {
        Some("Unknown(80)"@)
    } else if v == "F20"@ {
        Some("Unknown(90)"@)
    } else if v == "F21"@ {
        Some("F21"@)
    } else if v == "F22"@ {
        Some("F22"@)
    } else {
        None
    }
}

fn rdev_key_of_exec_0(v: &str) -> (r: Option<&'static str>)
    ensures
        str_opt_view(r) == rdev_key_of_0(v@),
{
    if str_eq(v, "Backspace") {
        Some("Backspace")
    } else if str_eq(v, "CapsLock") {
        Some("CapsLock")
    } else if str_eq(v, "ControlLeft") {
        Some("ControlLeft")
    } else if str_eq(v, "ControlRight") {
        Some("ControlRight")
    } else if str_eq(v, "Delete") {
        Some("Delete")
    } else if str_eq(v, "ArrowDown") {
        Some("DownArrow")
    } else if str_eq(v, "End") {
        Some("End")
    } else if str_eq(v, "Escape") {
        Some("Escape")
    } else if str_eq(v, "F1") {
        Some("F1")
    } else if str_eq(v, "F2") {
        Some("F2")
    } else if str_eq(v, "F3") {
        Some("F3")
    } else if str_eq(v, "F4") {
        Some("F4")
    } else if str_eq(v, "F5") {
        Some("F5")
    } else if str_eq(v, "F6") {
        Some("F6")
    } else if str_eq(v, "F7") {
        Some("F7")
    } else if str_eq(v, "F8") {
        Some("F8")
    } else if str_eq(v, "F9") {
        Some("F9")
    } else if str_eq(v, "F10") {
        Some("F10")
    } else if str_eq(v, "F11") {
        Some("F11")
    } else if str_eq(v, "F12") {
        Some("F12")
    } else if str_eq(v, "F13") {
        Some("Unknown(105)")
    } else if str_eq(v, "F14") {
        Some("Unknown(107)")
    } else if str_eq(v, "F15") {
        Some("Unknown(113)")
    } else if str_eq(v, "F16") {
        Some("Unknown(106)")
    } else if str_eq(v, "F17") {
        Some("Unknown(64)")
    } else if str_eq(v, "F18") {
        Some("Unknown(79)")
    } else if str_eq(v, "F19") {
        Some("Unknown(80)")
    } else if str_eq(v, "F20") {
        Some("Unknown(90)")
    } else if str_eq(v, "F21") {
        Some("F21")
    } else if str_eq(v, "F22") {
        Some("F22")
    } else {
        None
    }
}

/// The `rdev` key of a key code name (as `rdev` prints it), part 2 of the table.
pub open spec fn rdev_key_of_1(v: Seq<char>) -> Option<Seq<char>> {
    if v == "F23"@ {
        Some("F23"@)
    } else if v == "F24"@ {
        Some("F24"@)
    } else if v == "Home"@ {
        Some("Home"@)
    } else if v == "ArrowLeft"@ {
        Some("LeftArrow"@)
    } else if v == "MetaLeft"@ {
        Some("MetaLeft"@)
    } else if v == "MetaRight"@ {
        Some("MetaRight"@)
    } else if v == "PageDown"@ {
        Some("PageDown"@)
    } else if v == "PageUp"@ {
        Some("PageUp"@)
    } else if v == "Enter"@ {
        Some("Return"@)
    } else if v == "ArrowRight"@ {
        Some("RightArrow"@)
    } else if v == "ShiftLeft"@ {
        Some("ShiftLeft"@)
    } else if v == "ShiftRight"@ {
        Some("ShiftRight"@)
    } else if v == "AltLeft"@ {
        Some("Alt"@)
    } else if v == "AltRight"@ {
        Some("AltGr"@)
    } else if v == "Space"@ {
        Some("Space"@)
    } else if v == "Tab"@ {
        Some("Tab"@)
    } else if v == "ArrowUp"@ {
        Some("UpArrow"@)
    } else if v == "PrintScreen"@ {
        Some("PrintScreen"@)
    } else if v == "ScrollLock"@ {
        Some("ScrollLock"@)
    } else if v == "Pause"@ {
        Some("Pause"@)
    } else if v == "NumLock"@ {
        Some("NumLock"@)
    } else if v == "Backquote"@ {
        Some("BackQuote"@)
    } else if v == "Digit1"@ {
        Some("Num1"@)
    } else if v == "Digit2"@ {
        Some("Num2"@)
    } else if v == "Digit3"@ {
        Some("Num3"@)
    } else if v == "Digit4"@ {
        Some("Num4"@)
    } else if v == "Digit5"@ {
        Some("Num5"@)
    } else if v == "Digit6"@ {
        Some("Num6"@)
    } else if v == "Digit7"@ {
        Some("Num7"@)
    } else if v == "Digit8"@ {
        Some("Num8"@)
    } else {
        None
    }
}

fn rdev_key_of_exec_1(v: &str) -> (r: Option<&'static str>)
    ensures
        str_opt_view(r) == rdev_key_of_1(v@),
{
    if str_eq(v, "F23") {
        Some("F23")
    } else if str_eq(v, "F24") {
        Some("F24")
    } else if str_eq(v, "Home") {
        Some("Home")
    } else if str_eq(v, "ArrowLeft") {
        Some("LeftArrow")
    } else if str_eq(v, "MetaLeft") {
        Some("MetaLeft")
    } else if str_eq(v, "MetaRight") {
        Some("MetaRight")
    } else if str_eq(v, "PageDown") {
        Some("PageDown")
    } else if str_eq(v, "PageUp") {
        Some("PageUp")
    } else if str_eq(v, "Enter") {
        Some("Return")
    } else if str_eq(v, "ArrowRight") {
        Some("RightArrow")
    } else if str_eq(v, "ShiftLeft") {
        Some("ShiftLeft")
    } else if str_eq(v, "ShiftRight") {
        Some("ShiftRight")
    } else if str_eq(v, "AltLeft") {
        Some("Alt")
    } else if str_eq(v, "AltRight") {
        Some("AltGr")
    } else if str_eq(v, "Space") {
        Some("Space")
    } else if str_eq(v, "Tab") {
        Some("Tab")
    } else if str_eq(v, "ArrowUp") {
        Some("UpArrow")
    } else if str_eq(v, "PrintScreen") {
        Some("PrintScreen")
    } else if str_eq(v, "ScrollLock") {
        Some("ScrollLock")
    } else if str_eq(v, "Pause") {
        Some("Pause")
    } else if str_eq(v, "NumLock") {
        Some("NumLock")
    } else if str_eq(v, "Backquote") {
        Some("BackQuote")
    } else if str_eq(v, "Digit1") {
        Some("Num1")
    } else if str_eq(v, "Digit2") {
        Some("Num2")
    } else if str_eq(v, "Digit3") {
        Some("Num3")
    } else if str_eq(v, "Digit4") {
        Some("Num4")
    } else if str_eq(v, "Digit5") {
        Some("Num5")
    } else if str_eq(v, "Digit6") {
        Some("Num6")
    } else if str_eq(v, "Digit7") {
        Some("Num7")
    } else if str_eq(v, "Digit8") {
        Some("Num8")
    } else {
        None
    }
}

/// The `rdev` key of a key code name (as `rdev` prints it), part 3 of the table.
pub open spec fn rdev_key_of_2(v: Seq<char>) -> Option<Seq<char>> {
    if v == "Digit9"@ {
        Some("Num9"@)
    } else if v == "Digit0"@ {
        Some("Num0"@)
    } else if v == "Minus"@ {
        Some("Minus"@)
    } else if v == "Equal"@ {
        Some("Equal"@)
    } else if v == "KeyQ"@ {
        Some("KeyQ"@)
    } else if v == "KeyW"@ {
        Some("KeyW"@)
    } else if v == "KeyE"@ {
        Some("KeyE"@)
    } else if v == "KeyR"@ {
        Some("KeyR"@)
    } else if v == "KeyT"@ {
        Some("KeyT"@)
    } else if v == "KeyY"@ {
        Some("KeyY"@)
    } else if v == "KeyU"@ {
        Some("KeyU"@)
    } else if v == "KeyI"@ {
        Some("KeyI"@)
    } else if v == "KeyO"@ {
        Some("KeyO"@)
    } else if v == "KeyP"@ {
        Some("KeyP"@)
    } else if v == "BracketLeft"@ {
        Some("LeftBracket"@)
    } else if v == "BracketRight"@ {
        Some("RightBracket"@)
    } else if v == "KeyA"@ {
        Some("KeyA"@)
    } else if v == "KeyS"@ {
        Some("KeyS"@)
    } else if v == "KeyD"@ {
        Some("KeyD"@)
    } else if v == "KeyF"@ {
        Some("KeyF"@)
    } else if v == "KeyG"@ {
        Some("KeyG"@)
    } else if v == "KeyH"@ {
        Some("KeyH"@)
    } else if v == "KeyJ"@ {
        Some("KeyJ"@)
    } else if v == "KeyK"@ {
        Some("KeyK"@)
    } else if v == "KeyL"@ {
        Some("KeyL"@)
    } else if v == "Semicolon"@ {
        Some("SemiColon"@)
    } else if v == "Quote"@ {
        Some("Quote"@)
    } else if v == "Backslash"@ {
        Some("BackSlash"@)
    } else if v == "IntlBackslash"@ {
        Some("IntlBackslash"@)
    } else if v == "KeyZ"@ {
        Some("KeyZ"@)
    } else {
        None
    }
}

fn rdev_key_of_exec_2(v: &str) -> (r: Option<&'static str>)
    ensures
        str_opt_view(r) == rdev_key_of_2(v@),
{
    if str_eq(v, "Digit9") {
        Some("Num9")
    } else if str_eq(v, "Digit0") {
        Some("Num0")
    } else if str_eq(v, "Minus") {
        Some("Minus")
    } else if str_eq(v, "Equal") {
        Some("Equal")
    } else if str_eq(v, "KeyQ") {
        Some("KeyQ")
    } else if str_eq(v, "KeyW") {
        Some("KeyW")
    } else if str_eq(v, "KeyE") {
        Some("KeyE")
    } else if str_eq(v, "KeyR") {
        Some("KeyR")
    } else if str_eq(v, "KeyT") {
        Some("KeyT")
    } else if str_eq(v, "KeyY") {
        Some("KeyY")
    } else if str_eq(v, "KeyU") {
        Some("KeyU")
    } else if str_eq(v, "KeyI") {
        Some("KeyI")
    } else if str_eq(v, "KeyO") {
        Some("KeyO")
    } else if str_eq(v, "KeyP") {
        Some("KeyP")
    } else if str_eq(v, "BracketLeft") {
        Some("LeftBracket")
    } else if str_eq(v, "BracketRight") {
        Some("RightBracket")
    } else if str_eq(v, "KeyA") {
        Some("KeyA")
    } else if str_eq(v, "KeyS") {
        Some("KeyS")
    } else if str_eq(v, "KeyD") {
        Some("KeyD")
    } else if str_eq(v, "KeyF") {
        Some("KeyF")
    } else if str_eq(v, "KeyG") {
        Some("KeyG")
    } else if str_eq(v, "KeyH") {
        Some("KeyH")
    } else if str_eq(v, "KeyJ") {
        Some("KeyJ")
    } else if str_eq(v, "KeyK") {
        Some("KeyK")
    } else if str_eq(v, "KeyL") {
        Some("KeyL")
    } else if str_eq(v, "Semicolon") {
        Some("SemiColon")
    } else if str_eq(v, "Quote") {
        Some("Quote")
    } else if str_eq(v, "Backslash") {
        Some("BackSlash")
    } else if str_eq(v, "IntlBackslash") {
        Some("IntlBackslash")
    } else if str_eq(v, "KeyZ") {
        Some("KeyZ")
    } else {
        None
    }
}

/// The `rdev` key of a key code name (as `rdev` prints it), part 4 of the table.
pub open spec fn rdev_key_of_3(v: Seq<char>) -> Option<Seq<char>> {
    if v == "KeyX"@ {
        Some("KeyX"@)
    } else if v == "KeyC"@ {
        Some("KeyC"@)
    } else if v == "KeyV"@ {
        Some("KeyV"@)
    } else if v == "KeyB"@ {
        Some("KeyB"@)
    } else if v == "KeyN"@ {
        Some("KeyN"@)
    } else if v == "KeyM"@ {
        Some("KeyM"@)
    } else if v == "Comma"@ {
        Some("Comma"@)
    } else if v == "Period"@ {
        Some("Dot"@)
    } else if v == "Slash"@ {
        Some("Slash"@)
    } else if v == "Insert"@ {
        Some("Insert"@)
    } else if v == "NumpadEnter"@ {
        Some("KpReturn"@)
    } else if v == "NumpadSubtract"@ {
        Some("KpMinus"@)
    } else if v == "NumpadAdd"@ {
        Some("KpPlus"@)
    } else if v == "NumpadMultiply"@ {
        Some("KpMultiply"@)
    } else if v == "NumpadDivide"@ {
        Some("KpDivide"@)
    } else if v == "Numpad0"@ {
        Some("Kp0"@)
    } else if v == "Numpad1"@ {
        Some("Kp1"@)
    } else if v == "Numpad2"@ {
        Some("Kp2"@)
    } else if v == "Numpad3"@ {
        Some("Kp3"@)
    } else if v == "Numpad4"@ {
        Some("Kp4"@)
    } else if v == "Numpad5"@ {
        Some("Kp5"@)
    } else if v == "Numpad6"@ {
        Some("Kp6"@)
    } else if v == "Numpad7"@ {
        Some("Kp7"@)
    } else if v == "Numpad8"@ {
        Some("Kp8"@)
    } else if v == "Numpad9"@ {
        Some("Kp9"@)
    } else if v == "NumpadBackspace"@ {
        Some("KpDelete"@)
    } else if v == "Fn"@ {
        Some("Function"@)
    } else if v == "AudioVolumeUp"@ {
        Some("VolumeUp"@)
    } else if v == "AudioVolumeDown"@ {
        Some("VolumeDown"@)
    } else if v == "AudioVolumeMute"@ {
        Some("VolumeMute"@)
    } else {
        None
    }
}

fn rdev_key_of_exec_3(v: &str) -> (r: Option<&'static str>)
    ensures
        str_opt_view(r) == rdev_key_of_3(v@),
{
    if str_eq(v, "KeyX") {
        Some("KeyX")
    } else if str_eq(v, "KeyC") {
        Some("KeyC")
    } else if str_eq(v, "KeyV") {
        Some("KeyV")
    } else if str_eq(v, "KeyB") {
        Some("KeyB")
    } else if str_eq(v, "KeyN") {
        Some("KeyN")
    } else if str_eq(v, "KeyM") {
        Some("KeyM")
    } else if str_eq(v, "Comma") {
        Some("Comma")
    } else if str_eq(v, "Period") {
        Some("Dot")
    } else if str_eq(v, "Slash") {
        Some("Slash")
    } else if str_eq(v, "Insert") {
        Some("Insert")
    } else if str_eq(v, "NumpadEnter") {
        Some("KpReturn")
    } else if str_eq(v, "NumpadSubtract") {
        Some("KpMinus")
    } else if str_eq(v, "NumpadAdd") {
        Some("KpPlus")
    } else if str_eq(v, "NumpadMultiply") {
        Some("KpMultiply")
    } else if str_eq(v, "NumpadDivide") {
        Some("KpDivide")
    } else if str_eq(v, "Numpad0") {
        Some("Kp0")
    } else if str_eq(v, "Numpad1") {
        Some("Kp1")
    } else if str_eq(v, "Numpad2") {
        Some("Kp2")
    } else if str_eq(v, "Numpad3") {
        Some("Kp3")
    } else if str_eq(v, "Numpad4") {
        Some("Kp4")
    } else if str_eq(v, "Numpad5") {
        Some("Kp5")
    } else if str_eq(v, "Numpad6") {
        Some("Kp6")
    } else if str_eq(v, "Numpad7") {
        Some("Kp7")
    } else if str_eq(v, "Numpad8") {
        Some("Kp8")
    } else if str_eq(v, "Numpad9") {
        Some("Kp9")
    } else if str_eq(v, "NumpadBackspace") {
        Some("KpDelete")
    } else if str_eq(v, "Fn") {
        Some("Function")
    } else if str_eq(v, "AudioVolumeUp") {
        Some("VolumeUp")
    } else if str_eq(v, "AudioVolumeDown") {
        Some("VolumeDown")
    } else if str_eq(v, "AudioVolumeMute") {
        Some("VolumeMute")
    } else {
        None
    }
}

/// The `rdev` key of a key code name (as `rdev` prints it), part 5 of the table.
pub open spec fn rdev_key_of_4(v: Seq<char>) -> Option<Seq<char>> {
    if v == "BrightnessUp"@ {
        Some("BrightnessUp"@)
    } else if v == "BrightnessDown"@ {
        Some("BrightnessDown"@)
    } else if v == "MediaTrackPrevious"@ {
        Some("PreviousTrack"@)
    } else if v == "MediaPlayPause"@ {
        Some("PlayPause"@)
    } else if v == "MediaPlay"@ {
        Some("PlayCd"@)
    } else if v == "MediaTrackNext"@ {
        Some("NextTrack"@)
    } else {
        None
    }
}

fn rdev_key_of_exec_4(v: &str) -> (r: Option<&'static str>)
    ensures
        str_opt_view(r) == rdev_key_of_4(v@),
{
    if str_eq(v, "BrightnessUp") {
        Some("BrightnessUp")
    } else if str_eq(v, "BrightnessDown") {
        Some("BrightnessDown")
    } else if str_eq(v, "MediaTrackPrevious") {
        Some("PreviousTrack")
    } else if str_eq(v, "MediaPlayPause") {
        Some("PlayPause")
    } else if str_eq(v, "MediaPlay") {
        Some("PlayCd")
    } else if str_eq(v, "MediaTrackNext") {
        Some("NextTrack")
    } else {
        None
    }
}

/// The `rdev` key of a key code name (as `rdev` prints it).
pub open spec fn rdev_key_of(v: Seq<char>) -> Option<Seq<char>> {
    match rdev_key_of_0(v) {
        Some(c) => Some(c),
        None => match rdev_key_of_1(v) {
        Some(c) => Some(c),
        None => match rdev_key_of_2(v) {
        Some(c) => Some(c),
        None => match rdev_key_of_3(v) {
        Some(c) => Some(c),
        None => match rdev_key_of_4(v) {
        Some(c) => Some(c),
        None => None,
    },
    },
    },
    },
    }
}

fn rdev_key_of_exec(v: &str) -> (r: Option<&'static str>)
    ensures
        str_opt_view(r) == rdev_key_of(v@),
{
    let r0 = rdev_key_of_exec_0(v);
    if r0.is_some() {
        return r0;
    }
    let r1 = rdev_key_of_exec_1(v);
    if r1.is_some() {
        return r1;
    }
    let r2 = rdev_key_of_exec_2(v);
    if r2.is_some() {
        return r2;
    }
    let r3 = rdev_key_of_exec_3(v);
    if r3.is_some() {
        return r3;
    }
    let r4 = rdev_key_of_exec_4(v);
    if r4.is_some() {
        return r4;
    }
    None
}

/// The key code name of an `rdev` key (as `rdev` prints it), part 1 of the table.
pub open spec fn key_of_rdev_0(v: Seq<char>) -> Option<Seq<char>> {
    if v == "Alt"@ {
        Some("AltLeft"@)
    } else if v == "AltGr"@ {
        Some("AltRight"@)
    } else if v == "Backspace"@ {
        Some("Backspace"@)
    } else if v == "CapsLock"@ {
        Some("CapsLock"@)
    } else if v == "ControlLeft"@ {
        Some("ControlLeft"@)
    } else if v == "ControlRight"@ {
        Some("ControlRight"@)
    } else if v == "Delete"@ {
        Some("Delete"@)
    } else if v == "DownArrow"@ {
        Some("ArrowDown"@)
    } else if v == "End"@ {
        Some("End"@)
    } else if v == "Escape"@ {
        Some("Escape"@)
    } else if v == "F1"@ {
        Some("F1"@)
    } else if v == "F2"@ {
        Some("F2"@)
    } else if v == "F3"@ {
        Some("F3"@)
    } else if v == "F4"@ {
        Some("F4"@)
    } else if v == "F5"@ {
        Some("F5"@)
    } else if v == "F6"@ {
        Some("F6"@)
    } else if v == "F7"@ {
        Some("F7"@)
    } else if v == "F8"@ {
        Some("F8"@)
    } else if v == "F9"@ {
        Some("F9"@)
    } else if v == "F10"@ {
        Some("F10"@)
    } else if v == "F11"@ {
        Some("F11"@)
    } else if v == "F12"@ {
        Some("F12"@)
    } else if v == "F13"@ {
        Some("F13"@)
    } else if v == "F14"@ {
        Some("F14"@)
    } else if v == "F15"@ {
        Some("F15"@)
    } else if v == "F16"@ {
        Some("F16"@)
    } else if v == "F17"@ {
        Some("F17"@)
    } else if v == "F18"@ {
        Some("F18"@)
    } else if v == "F19"@ {
        Some("F19"@)
    } else if v == "F20"@ {
        Some("F20"@)
    } else {
        None
    }
}

fn key_of_rdev_exec_0(v: &str) -> (r: Option<&'static str>)
    ensures
        str_opt_view(r) == key_of_rdev_0(v@),
{
    if str_eq(v, "Alt") {
        Some("AltLeft")
    } else if str_eq(v, "AltGr") {
        Some("AltRight")
    } else if str_eq(v, "Backspace") {
        Some("Backspace")
    } else if str_eq(v, "CapsLock") {
        Some("CapsLock")
    } else if str_eq(v, "ControlLeft") {
        Some("ControlLeft")
    } else if str_eq(v, "ControlRight") {
        Some("ControlRight")
    } else if str_eq(v, "Delete") {
        Some("Delete")
    } else if str_eq(v, "DownArrow") {
        Some("ArrowDown")
    } else if str_eq(v, "End") {
        Some("End")
    } else if str_eq(v, "Escape") {
        Some("Escape")
    } else if str_eq(v, "F1") {
        Some("F1")
    } else if str_eq(v, "F2") {
        Some("F2")
    } else if str_eq(v, "F3") {
        Some("F3")
    } else if str_eq(v, "F4") {
        Some("F4")
    } else if str_eq(v, "F5") {
        Some("F5")
    } else if str_eq(v, "F6") {
        Some("F6")
    } else if str_eq(v, "F7") {
        Some("F7")
    } else if str_eq(v, "F8") {
        Some("F8")
    } else if str_eq(v, "F9") {
        Some("F9")
    } else if str_eq(v, "F10") {
        Some("F10")
    } else if str_eq(v, "F11") {
        Some("F11")
    } else if str_eq(v, "F12") {
        Some("F12")
    } else if str_eq(v, "F13") {
        Some("F13")
    } else if str_eq(v, "F14") {
        Some("F14")
    } else if str_eq(v, "F15") {
        Some("F15")
    } else if str_eq(v, "F16") {
        Some("F16")
    } else if str_eq(v, "F17") {
        Some("F17")
    } else if str_eq(v, "F18") {
        Some("F18")
    } else if str_eq(v, "F19") {
        Some("F19")
    } else if str_eq(v, "F20") {
        Some("F20")
    } else {
        None
    }
}

/// The key code name of an `rdev` key (as `rdev` prints it), part 2 of the table.
pub open spec fn key_of_rdev_1(v: Seq<char>) -> Option<Seq<char>> {
    if v == "F21"@ {
        Some("F21"@)
    } else if v == "F22"@ {
        Some("F22"@)
    } else if v == "F23"@ {
        Some("F23"@)
    } else if v == "F24"@ {
        Some("F24"@)
    } else if v == "Home"@ {
        Some("Home"@)
    } else if v == "LeftArrow"@ {
        Some("ArrowLeft"@)
    } else if v == "MetaLeft"@ {
        Some("MetaLeft"@)
    } else if v == "MetaRight"@ {
        Some("MetaRight"@)
    } else if v == "PageDown"@ {
        Some("PageDown"@)
    } else if v == "PageUp"@ {
        Some("PageUp"@)
    } else if v == "Return"@ {
        Some("Enter"@)
    } else if v == "RightArrow"@ {
        Some("ArrowRight"@)
    } else if v == "ShiftLeft"@ {
        Some("ShiftLeft"@)
    } else if v == "ShiftRight"@ {
        Some("ShiftRight"@)
    } else if v == "Space"@ {
        Some("Space"@)
    } else if v == "Tab"@ {
        Some("Tab"@)
    } else if v == "UpArrow"@ {
        Some("ArrowUp"@)
    } else if v == "PrintScreen"@ {
        Some("PrintScreen"@)
    } else if v == "ScrollLock"@ {
        Some("ScrollLock"@)
    } else if v == "Pause"@ {
        Some("Pause"@)
    } else if v == "NumLock"@ {
        Some("NumLock"@)
    } else if v == "BackQuote"@ {
        Some("Backquote"@)
    } else if v == "Num1"@ {
        Some("Digit1"@)
    } else if v == "Num2"@ {
        Some("Digit2"@)
    } else if v == "Num3"@ {
        Some("Digit3"@)
    } else if v == "Num4"@ {
        Some("Digit4"@)
    } else if v == "Num5"@ {
        Some("Digit5"@)
    } else if v == "Num6"@ {
        Some("Digit6"@)
    } else if v == "Num7"@ {
        Some("Digit7"@)
    } else if v == "Num8"@ {
        Some("Digit8"@)
    } else {
        None
    }
}

fn key_of_rdev_exec_1(v: &str) -> (r: Option<&'static str>)
    ensures
        str_opt_view(r) == key_of_rdev_1(v@),
{
    if str_eq(v, "F21") {
        Some("F21")
    } else if str_eq(v, "F22") {
        Some("F22")
    } else if str_eq(v, "F23") {
        Some("F23")
    } else if str_eq(v, "F24") {
        Some("F24")
    } else if str_eq(v, "Home") {
        Some("Home")
    } else if str_eq(v, "LeftArrow") {
        Some("ArrowLeft")
    } else if str_eq(v, "MetaLeft") {
        Some("MetaLeft")
    } else if str_eq(v, "MetaRight") {
        Some("MetaRight")
    } else if str_eq(v, "PageDown") {
        Some("PageDown")
    } else if str_eq(v, "PageUp") {
        Some("PageUp")
    } else if str_eq(v, "Return") {
        Some("Enter")
    } else if str_eq(v, "RightArrow") {
        Some("ArrowRight")
    } else if str_eq(v, "ShiftLeft") {
        Some("ShiftLeft")
    } else if str_eq(v, "ShiftRight") {
        Some("ShiftRight")
    } else if str_eq(v, "Space") {
        Some("Space")
    } else if str_eq(v, "Tab") {
        Some("Tab")
    } else if str_eq(v, "UpArrow") {
        Some("ArrowUp")
    } else if str_eq(v, "PrintScreen") {
        Some("PrintScreen")
    } else if str_eq(v, "ScrollLock") {
        Some("ScrollLock")
    } else if str_eq(v, "Pause") {
        Some("Pause")
    } else if str_eq(v, "NumLock") {
        Some("NumLock")
    } else if str_eq(v, "BackQuote") {
        Some("Backquote")
    } else if str_eq(v, "Num1") {
        Some("Digit1")
    } else if str_eq(v, "Num2") {
        Some("Digit2")
    } else if str_eq(v, "Num3") {
        Some("Digit3")
    } else if str_eq(v, "Num4") {
        Some("Digit4")
    } else if str_eq(v, "Num5") {
        Some("Digit5")
    } else if str_eq(v, "Num6") {
        Some("Digit6")
    } else if str_eq(v, "Num7") {
        Some("Digit7")
    } else if str_eq(v, "Num8") {
        Some("Digit8")
    } else {
        None
    }
}

/// The key code name of an `rdev` key (as `rdev` prints it), part 3 of the table.
pub open spec fn key_of_rdev_2(v: Seq<char>) -> Option<Seq<char>> {
    if v == "Num9"@ {
        Some("Digit9"@)
    } else if v == "Num0"@ {
        Some("Digit0"@)
    } else if v == "Minus"@ {
        Some("Minus"@)
    } else if v == "Equal"@ {
        Some("Equal"@)
    } else if v == "KeyQ"@ {
        Some("KeyQ"@)
    } else if v == "KeyW"@ {
        Some("KeyW"@)
    } else if v == "KeyE"@ {
        Some("KeyE"@)
    } else if v == "KeyR"@ {
        Some("KeyR"@)
    } else if v == "KeyT"@ {
        Some("KeyT"@)
    } else if v == "KeyY"@ {
        Some("KeyY"@)
    } else if v == "KeyU"@ {
        Some("KeyU"@)
    } else if v == "KeyI"@ {
        Some("KeyI"@)
    } else if v == "KeyO"@ {
        Some("KeyO"@)
    } else if v == "KeyP"@ {
        Some("KeyP"@)
    } else if v == "LeftBracket"@ {
        Some("BracketLeft"@)
    } else if v == "RightBracket"@ {
        Some("BracketRight"@)
    } else if v == "KeyA"@ {
        Some("KeyA"@)
    } else if v == "KeyS"@ {
        Some("KeyS"@)
    } else if v == "KeyD"@ {
        Some("KeyD"@)
    } else if v == "KeyF"@ {
        Some("KeyF"@)
    } else if v == "KeyG"@ {
        Some("KeyG"@)
    } else if v == "KeyH"@ {
        Some("KeyH"@)
    } else if v == "KeyJ"@ {
        Some("KeyJ"@)
    } else if v == "KeyK"@ {
        Some("KeyK"@)
    } else if v == "KeyL"@ {
        Some("KeyL"@)
    } else if v == "SemiColon"@ {
        Some("Semicolon"@)
    } else if v == "Quote"@ {
        Some("Quote"@)
    } else if v == "BackSlash"@ {
        Some("Backslash"@)
    } else if v == "IntlBackslash"@ {
        Some("IntlBackslash"@)
    } else if v == "KeyZ"@ {
        Some("KeyZ"@)
    } else {
        None
    }
}

fn key_of_rdev_exec_2(v: &str) -> (r: Option<&'static str>)
    ensures
        str_opt_view(r) == key_of_rdev_2(v@),
{
    if str_eq(v, "Num9") {
        Some("Digit9")
    } else if str_eq(v, "Num0") {
        Some("Digit0")
    } else if str_eq(v, "Minus") {
        Some("Minus")
    } else if str_eq(v, "Equal") {
        Some("Equal")
    } else if str_eq(v, "KeyQ") {
        Some("KeyQ")
    } else if str_eq(v, "KeyW") {
        Some("KeyW")
    } else if str_eq(v, "KeyE") {
        Some("KeyE")
    } else if str_eq(v, "KeyR") {
        Some("KeyR")
    } else if str_eq(v, "KeyT") {
        Some("KeyT")
    } else if str_eq(v, "KeyY") {
        Some("KeyY")
    } else if str_eq(v, "KeyU") {
        Some("KeyU")
    } else if str_eq(v, "KeyI") {
        Some("KeyI")
    } else if str_eq(v, "KeyO") {
        Some("KeyO")
    } else if str_eq(v, "KeyP") {
        Some("KeyP")
    } else if str_eq(v, "LeftBracket") {
        Some("BracketLeft")
    } else if str_eq(v, "RightBracket") {
        Some("BracketRight")
    } else if str_eq(v, "KeyA") {
        Some("KeyA")
    } else if str_eq(v, "KeyS") {
        Some("KeyS")
    } else if str_eq(v, "KeyD") {
        Some("KeyD")
    } else if str_eq(v, "KeyF") {
        Some("KeyF")
    } else if str_eq(v, "KeyG") {
        Some("KeyG")
    } else if str_eq(v, "KeyH") {
        Some("KeyH")
    } else if str_eq(v, "KeyJ") {
        Some("KeyJ")
    } else if str_eq(v, "KeyK") {
        Some("KeyK")
    } else if str_eq(v, "KeyL") {
        Some("KeyL")
    } else if str_eq(v, "SemiColon") {
        Some("Semicolon")
    } else if str_eq(v, "Quote") {
        Some("Quote")
    } else if str_eq(v, "BackSlash") {
        Some("Backslash")
    } else if str_eq(v, "IntlBackslash") {
        Some("IntlBackslash")
    } else if str_eq(v, "KeyZ") {
        Some("KeyZ")
    } else {
        None
    }
}

/// The key code name of an `rdev` key (as `rdev` prints it), part 4 of the table.
pub open spec fn key_of_rdev_3(v: Seq<char>) -> Option<Seq<char>> {
    if v == "KeyX"@ {
        Some("KeyX"@)
    } else if v == "KeyC"@ {
        Some("KeyC"@)
    } else if v == "KeyV"@ {
        Some("KeyV"@)
    } else if v == "KeyB"@ {
        Some("KeyB"@)
    } else if v == "KeyN"@ {
        Some("KeyN"@)
    } else if v == "KeyM"@ {
        Some("KeyM"@)
    } else if v == "Comma"@ {
        Some("Comma"@)
    } else if v == "Dot"@ {
        Some("Period"@)
    } else if v == "Slash"@ {
        Some("Slash"@)
    } else if v == "Insert"@ {
        Some("Insert"@)
    } else if v == "KpReturn"@ {
        Some("NumpadEnter"@)
    } else if v == "KpMinus"@ {
        Some("NumpadSubtract"@)
    } else if v == "KpPlus"@ {
        Some("NumpadAdd"@)
    } else if v == "KpMultiply"@ {
        Some("NumpadMultiply"@)
    } else if v == "KpDivide"@ {
        Some("NumpadDivide"@)
    } else if v == "Kp0"@ {
        Some("Numpad0"@)
    } else if v == "Kp1"@ {
        Some("Numpad1"@)
    } else if v == "Kp2"@ {
        Some("Numpad2"@)
    } else if v == "Kp3"@ {
        Some("Numpad3"@)
    } else if v == "Kp4"@ {
        Some("Numpad4"@)
    } else if v == "Kp5"@ {
        Some("Numpad5"@)
    } else if v == "Kp6"@ {
        Some("Numpad6"@)
    } else if v == "Kp7"@ {
        Some("Numpad7"@)
    } else if v == "Kp8"@ {
        Some("Numpad8"@)
    } else if v == "Kp9"@ {
        Some("Numpad9"@)
    } else if v == "KpDelete"@ {
        Some("NumpadBackspace"@)
    } else if v == "Function"@ {
        Some("Fn"@)
    } else if v == "VolumeUp"@ {
        Some("AudioVolumeUp"@)
    } else if v == "VolumeDown"@ {
        Some("AudioVolumeDown"@)
    } else if v == "VolumeMute"@ {
        Some("AudioVolumeMute"@)
    } else {
        None
    }
}

fn key_of_rdev_exec_3(v: &str) -> (r: Option<&'static str>)
    ensures
        str_opt_view(r) == key_of_rdev_3(v@),
{
    if str_eq(v, "KeyX") {
        Some("KeyX")
    } else if str_eq(v, "KeyC") {
        Some("KeyC")
    } else if str_eq(v, "KeyV") {
        Some("KeyV")
    } else if str_eq(v, "KeyB") {
        Some("KeyB")
    } else if str_eq(v, "KeyN") {
        Some("KeyN")
    } else if str_eq(v, "KeyM") {
        Some("KeyM")
    } else if str_eq(v, "Comma") {
        Some("Comma")
    } else if str_eq(v, "Dot") {
        Some("Period")
    } else if str_eq(v, "Slash") {
        Some("Slash")
    } else if str_eq(v, "Insert") {
        Some("Insert")
    } else if str_eq(v, "KpReturn") {
        Some("NumpadEnter")
    } else if str_eq(v, "KpMinus") {
        Some("NumpadSubtract")
    } else if str_eq(v, "KpPlus") {
        Some("NumpadAdd")
    } else if str_eq(v, "KpMultiply") {
        Some("NumpadMultiply")
    } else if str_eq(v, "KpDivide") {
        Some("NumpadDivide")
    } else if str_eq(v, "Kp0") {
        Some("Numpad0")
    } else if str_eq(v, "Kp1") {
        Some("Numpad1")
    } else if str_eq(v, "Kp2") {
        Some("Numpad2")
    } else if str_eq(v, "Kp3") {
        Some("Numpad3")
    } else if str_eq(v, "Kp4") {
        Some("Numpad4")
    } else if str_eq(v, "Kp5") {
        Some("Numpad5")
    } else if str_eq(v, "Kp6") {
        Some("Numpad6")
    } else if str_eq(v, "Kp7") {
        Some("Numpad7")
    } else if str_eq(v, "Kp8") {
        Some("Numpad8")
    } else if str_eq(v, "Kp9") {
        Some("Numpad9")
    } else if str_eq(v, "KpDelete") {
        Some("NumpadBackspace")
    } else if str_eq(v, "Function") {
        Some("Fn")
    } else if str_eq(v, "VolumeUp") {
        Some("AudioVolumeUp")
    } else if str_eq(v, "VolumeDown") {
        Some("AudioVolumeDown")
    } else if str_eq(v, "VolumeMute") {
        Some("AudioVolumeMute")
    } else {
        None
    }
}

/// The key code name of an `rdev` key (as `rdev` prints it), part 5 of the table.
pub open spec fn key_of_rdev_4(v: Seq<char>) -> Option<Seq<char>> {
    if v == "BrightnessUp"@ {
        Some("BrightnessUp"@)
    } else if v == "BrightnessDown"@ {
        Some("BrightnessDown"@)
    } else if v == "PreviousTrack"@ {
        Some("MediaTrackPrevious"@)
    } else if v == "PlayPause"@ {
        Some("MediaPlayPause"@)
    } else if v == "PlayCd"@ {
        Some("MediaPlay"@)
    } else if v == "NextTrack"@ {
        Some("MediaTrackNext"@)
    } else {
        None
    }
}

fn key_of_rdev_exec_4(v: &str) -> (r: Option<&'static str>)
    ensures
        str_opt_view(r) == key_of_rdev_4(v@),
{
    if str_eq(v, "BrightnessUp") {
        Some("BrightnessUp")
    } else if str_eq(v, "BrightnessDown") {
        Some("BrightnessDown")
    } else if str_eq(v, "PreviousTrack") {
        Some("MediaTrackPrevious")
    } else if str_eq(v, "PlayPause") {
        Some("MediaPlayPause")
    } else if str_eq(v, "PlayCd") {
        Some("MediaPlay")
    } else if str_eq(v, "NextTrack") {
        Some("MediaTrackNext")
    } else {
        None
    }
}

/// The key code name of an `rdev` key (as `rdev` prints it).
pub open spec fn key_of_rdev(v: Seq<char>) -> Option<Seq<char>> {
    match key_of_rdev_0(v) {
        Some(c) => Some(c),
        None => match key_of_rdev_1(v) {
        Some(c) => Some(c),
        None => match key_of_rdev_2(v) {
        Some(c) => Some(c),
        None => match key_of_rdev_3(v) {
        Some(c) => Some(c),
        None => match key_of_rdev_4(v) {
        Some(c) => Some(c),
        None => None,
    },
    },
    },
    },
    }
}

fn key_of_rdev_exec(v: &str) -> (r: Option<&'static str>)
    ensures
        str_opt_view(r) == key_of_rdev(v@),
{
    let r0 = key_of_rdev_exec_0(v);
    if r0.is_some() {
        return r0;
    }
    let r1 = key_of_rdev_exec_1(v);
    if r1.is_some() {
        return r1;
    }
    let r2 = key_of_rdev_exec_2(v);
    if r2.is_some() {
        return r2;
    }
    let r3 = key_of_rdev_exec_3(v);
    if r3.is_some() {
        return r3;
    }
    let r4 = key_of_rdev_exec_4(v);
    if r4.is_some() {
        return r4;
    }
    None
}

/// The key code name of a `device_query` key code (by variant name), part 1 of the table.
pub open spec fn key_of_device_query_0(v: Seq<char>) -> Option<Seq<char>> {
    if v == "Key0"@ {
        Some("Digit0"@)
    } else if v == "Key1"@ {
        Some("Digit1"@)
    } else if v == "Key2"@ {
        Some("Digit2"@)
    } else if v == "Key3"@ {
        Some("Digit3"@)
    } else if v == "Key4"@ {
        Some("Digit4"@)
    } else if v == "Key5"@ {
        Some("Digit5"@)
    } else if v == "Key6"@ {
        Some("Digit6"@)
    } else if v == "Key7"@ {
        Some("Digit7"@)
    } else if v == "Key8"@ {
        Some("Digit8"@)
    } else if v == "Key9"@ {
        Some("Digit9"@)
    } else if v == "A"@ {
        Some("KeyA"@)
    } else if v == "B"@ {
        Some("KeyB"@)
    } else if v == "C"@ {
        Some("KeyC"@)
    } else if v == "D"@ {
        Some("KeyD"@)
    } else if v == "E"@ {
        Some("KeyE"@)
    } else if v == "F"@ {
        Some("KeyF"@)
    } else if v == "G"@ {
        Some("KeyG"@)
    } else if v == "H"@ {
        Some("KeyH"@)
    } else if v == "I"@ {
        Some("KeyI"@)
    } else if v == "J"@ {
        Some("KeyJ"@)
    } else if v == "K"@ {
        Some("KeyK"@)
    } else if v == "L"@ {
        Some("KeyL"@)
    } else if v == "M"@ {
        Some("KeyM"@)
    } else if v == "N"@ {
        Some("KeyN"@)
    } else if v == "O"@ {
        Some("KeyO"@)
    } else if v == "P"@ {
        Some("KeyP"@)
    } else if v == "Q"@ {
        Some("KeyQ"@)
    } else if v == "R"@ {
        Some("KeyR"@)
    } else if v == "S"@ {
        Some("KeyS"@)
    } else if v == "T"@ {
        Some("KeyT"@)
    } else {
        None
    }
}

fn key_of_device_query_exec_0(v: &str) -> (r: Option<&'static str>)
    ensures
        str_opt_view(r) == key_of_device_query_0(v@),
{
    if str_eq(v, "Key0") {
        Some("Digit0")
    } else if str_eq(v, "Key1") {
        Some("Digit1")
    } else if str_eq(v, "Key2") {
        Some("Digit2")
    } else if str_eq(v, "Key3") {
        Some("Digit3")
    } else if str_eq(v, "Key4") {
        Some("Digit4")
    } else if str_eq(v, "Key5") {
        Some("Digit5")
    } else if str_eq(v, "Key6") {
        Some("Digit6")
    } else if str_eq(v, "Key7") {
        Some("Digit7")
    } else if str_eq(v, "Key8") {
        Some("Digit8")
    } else if str_eq(v, "Key9") {
        Some("Digit9")
    } else if str_eq(v, "A") {
        Some("KeyA")
    } else if str_eq(v, "B") {
        Some("KeyB")
    } else if str_eq(v, "C") {
        Some("KeyC")
    } else if str_eq(v, "D") {
        Some("KeyD")
    } else if str_eq(v, "E") {
        Some("KeyE")
    } else if str_eq(v, "F") {
        Some("KeyF")
    } else if str_eq(v, "G") {
        Some("KeyG")
    } else if str_eq(v, "H") {
        Some("KeyH")
    } else if str_eq(v, "I") {
        Some("KeyI")
    } else if str_eq(v, "J") {
        Some("KeyJ")
    } else if str_eq(v, "K") {
        Some("KeyK")
    } else if str_eq(v, "L") {
        Some("KeyL")
    } else if str_eq(v, "M") {
        Some("KeyM")
    } else if str_eq(v, "N") {
        Some("KeyN")
    } else if str_eq(v, "O") {
        Some("KeyO")
    } else if str_eq(v, "P") {
        Some("KeyP")
    } else if str_eq(v, "Q") {
        Some("KeyQ")
    } else if str_eq(v, "R") {
        Some("KeyR")
    } else if str_eq(v, "S") {
        Some("KeyS")
    } else if str_eq(v, "T") {
        Some("KeyT")
    } else {
        None
    }
}

/// The key code name of a `device_query` key code (by variant name), part 2 of the table.
pub open spec fn key_of_device_query_1(v: Seq<char>) -> Option<Seq<char>> {
    if v == "U"@ {
        Some("KeyU"@)
    } else if v == "V"@ {
        Some("KeyV"@)
    } else if v == "W"@ {
        Some("KeyW"@)
    } else if v == "X"@ {
        Some("KeyX"@)
    } else if v == "Y"@ {
        Some("KeyY"@)
    } else if v == "Z"@ {
        Some("KeyZ"@)
    } else if v == "F1"@ {
        Some("F1"@)
    } else if v == "F2"@ {
        Some("F2"@)
    } else if v == "F3"@ {
        Some("F3"@)
    } else if v == "F4"@ {
        Some("F4"@)
    } else if v == "F5"@ {
        Some("F5"@)
    } else if v == "F6"@ {
        Some("F6"@)
    } else if v == "F7"@ {
        Some("F7"@)
    } else if v == "F8"@ {
        Some("F8"@)
    } else if v == "F9"@ {
        Some("F9"@)
    } else if v == "F10"@ {
        Some("F10"@)
    } else if v == "F11"@ {
        Some("F11"@)
    } else if v == "F12"@ {
        Some("F12"@)
    } else if v == "F13"@ {
        Some("F13"@)
    } else if v == "F14"@ {
        Some("F14"@)
    } else if v == "F15"@ {
        Some("F15"@)
    } else if v == "F16"@ {
        Some("F16"@)
    } else if v == "F17"@ {
        Some("F17"@)
    } else if v == "F18"@ {
        Some("F18"@)
    } else if v == "F19"@ {
        Some("F19"@)
    } else if v == "F20"@ {
        Some("F20"@)
    } else if v == "Escape"@ {
        Some("Escape"@)
    } else if v == "Space"@ {
        Some("Space"@)
    } else if v == "LControl"@ {
        Some("ControlLeft"@)
    } else if v == "RControl"@ {
        Some("ControlRight"@)
    } else {
        None
    }
}

fn key_of_device_query_exec_1(v: &str) -> (r: Option<&'static str>)
    ensures
        str_opt_view(r) == key_of_device_query_1(v@),
{
    if str_eq(v, "U") {
        Some("KeyU")
    } else if str_eq(v, "V") {
        Some("KeyV")
    } else if str_eq(v, "W") {
        Some("KeyW")
    } else if str_eq(v, "X") {
        Some("KeyX")
    } else if str_eq(v, "Y") {
        Some("KeyY")
    } else if str_eq(v, "Z") {
        Some("KeyZ")
    } else if str_eq(v, "F1") {
        Some("F1")
    } else if str_eq(v, "F2") {
        Some("F2")
    } else if str_eq(v, "F3") {
        Some("F3")
    } else if str_eq(v, "F4") {
        Some("F4")
    } else if str_eq(v, "F5") {
        Some("F5")
    } else if str_eq(v, "F6") {
        Some("F6")
    } else if str_eq(v, "F7") {
        Some("F7")
    } else if str_eq(v, "F8") {
        Some("F8")
    } else if str_eq(v, "F9") {
        Some("F9")
    } else if str_eq(v, "F10") {
        Some("F10")
    } else if str_eq(v, "F11") {
        Some("F11")
    } else if str_eq(v, "F12") {
        Some("F12")
    } else if str_eq(v, "F13") {
        Some("F13")
    } else if str_eq(v, "F14") {
        Some("F14")
    } else if str_eq(v, "F15") {
        Some("F15")
    } else if str_eq(v, "F16") {
        Some("F16")
    } else if str_eq(v, "F17") {
        Some("F17")
    } else if str_eq(v, "F18") {
        Some("F18")
    } else if str_eq(v, "F19") {
        Some("F19")
    } else if str_eq(v, "F20") {
        Some("F20")
    } else if str_eq(v, "Escape") {
        Some("Escape")
    } else if str_eq(v, "Space") {
        Some("Space")
    } else if str_eq(v, "LControl") {
        Some("ControlLeft")
    } else if str_eq(v, "RControl") {
        Some("ControlRight")
    } else {
        None
    }
}

/// The key code name of a `device_query` key code (by variant name), part 3 of the table.
pub open spec fn key_of_device_query_2(v: Seq<char>) -> Option<Seq<char>> {
    if v == "LShift"@ {
        Some("ShiftLeft"@)
    } else if v == "RShift"@ {
        Some("ShiftRight"@)
    } else if v == "LAlt"@ {
        Some("AltLeft"@)
    } else if v == "LOption"@ {
        Some("AltLeft"@)
    } else if v == "RAlt"@ {
        Some("AltRight"@)
    } else if v == "ROption"@ {
        Some("AltRight"@)
    } else if v == "Command"@ {
        Some("MetaLeft"@)
    } else if v == "LMeta"@ {
        Some("MetaLeft"@)
    } else if v == "RCommand"@ {
        Some("MetaRight"@)
    } else if v == "RMeta"@ {
        Some("MetaRight"@)
    } else if v == "Enter"@ {
        Some("Enter"@)
    } else if v == "Up"@ {
        Some("ArrowUp"@)
    } else if v == "Down"@ {
        Some("ArrowDown"@)
    } else if v == "Left"@ {
        Some("ArrowLeft"@)
    } else if v == "Right"@ {
        Some("ArrowRight"@)
    } else if v == "Backspace"@ {
        Some("Backspace"@)
    } else if v == "CapsLock"@ {
        Some("CapsLock"@)
    } else if v == "Tab"@ {
        Some("Tab"@)
    } else if v == "Home"@ {
        Some("Home"@)
    } else if v == "End"@ {
        Some("End"@)
    } else if v == "PageUp"@ {
        Some("PageUp"@)
    } else if v == "PageDown"@ {
        Some("PageDown"@)
    } else if v == "Insert"@ {
        Some("Insert"@)
    } else if v == "Delete"@ {
        Some("Delete"@)
    } else if v == "Numpad0"@ {
        Some("Numpad0"@)
    } else if v == "Numpad1"@ {
        Some("Numpad1"@)
    } else if v == "Numpad2"@ {
        Some("Numpad2"@)
    } else if v == "Numpad3"@ {
        Some("Numpad3"@)
    } else if v == "Numpad4"@ {
        Some("Numpad4"@)
    } else if v == "Numpad5"@ {
        Some("Numpad5"@)
    } else {
        None
    }
}

fn key_of_device_query_exec_2(v: &str) -> (r: Option<&'static str>)
    ensures
        str_opt_view(r) == key_of_device_query_2(v@),
{
    if str_eq(v, "LShift") {
        Some("ShiftLeft")
    } else if str_eq(v, "RShift") {
        Some("ShiftRight")
    } else if str_eq(v, "LAlt") {
        Some("AltLeft")
    } else if str_eq(v, "LOption") {
        Some("AltLeft")
    } else if str_eq(v, "RAlt") {
        Some("AltRight")
    } else if str_eq(v, "ROption") {
        Some("AltRight")
    } else if str_eq(v, "Command") {
        Some("MetaLeft")
    } else if str_eq(v, "LMeta") {
        Some("MetaLeft")
    } else if str_eq(v, "RCommand") {
        Some("MetaRight")
    } else if str_eq(v, "RMeta") {
        Some("MetaRight")
    } else if str_eq(v, "Enter") {
        Some("Enter")
    } else if str_eq(v, "Up") {
        Some("ArrowUp")
    } else if str_eq(v, "Down") {
        Some("ArrowDown")
    } else if str_eq(v, "Left") {
        Some("ArrowLeft")
    } else if str_eq(v, "Right") {
        Some("ArrowRight")
    } else if str_eq(v, "Backspace") {
        Some("Backspace")
    } else if str_eq(v, "CapsLock") {
        Some("CapsLock")
    } else if str_eq(v, "Tab") {
        Some("Tab")
    } else if str_eq(v, "Home") {
        Some("Home")
    } else if str_eq(v, "End") {
        Some("End")
    } else if str_eq(v, "PageUp") {
        Some("PageUp")
    } else if str_eq(v, "PageDown") {
        Some("PageDown")
    } else if str_eq(v, "Insert") {
        Some("Insert")
    } else if str_eq(v, "Delete") {
        Some("Delete")
    } else if str_eq(v, "Numpad0") {
        Some("Numpad0")
    } else if str_eq(v, "Numpad1") {
        Some("Numpad1")
    } else if str_eq(v, "Numpad2") {
        Some("Numpad2")
    } else if str_eq(v, "Numpad3") {
        Some("Numpad3")
    } else if str_eq(v, "Numpad4") {
        Some("Numpad4")
    } else if str_eq(v, "Numpad5") {
        Some("Numpad5")
    } else {
        None
    }
}

/// The key code name of a `device_query` key code (by variant name), part 4 of the table.
pub open spec fn key_of_device_query_3(v: Seq<char>) -> Option<Seq<char>> {
    if v == "Numpad6"@ {
        Some("Numpad6"@)
    } else if v == "Numpad7"@ {
        Some("Numpad7"@)
    } else if v == "Numpad8"@ {
        Some("Numpad8"@)
    } else if v == "Numpad9"@ {
        Some("Numpad9"@)
    } else if v == "NumpadSubtract"@ {
        Some("NumpadSubtract"@)
    } else if v == "NumpadAdd"@ {
        Some("NumpadAdd"@)
    } else if v == "NumpadDivide"@ {
        Some("NumpadDivide"@)
    } else if v == "NumpadMultiply"@ {
        Some("NumpadMultiply"@)
    } else if v == "NumpadEquals"@ {
        Some("NumpadEqual"@)
    } else if v == "NumpadEnter"@ {
        Some("NumpadEnter"@)
    } else if v == "NumpadDecimal"@ {
        Some("NumpadDecimal"@)
    } else if v == "Grave"@ {
        Some("Backquote"@)
    } else if v == "Minus"@ {
        Some("Minus"@)
    } else if v == "Equal"@ {
        Some("Equal"@)
    } else if v == "LeftBracket"@ {
        Some("BracketLeft"@)
    } else if v == "RightBracket"@ {
        Some("BracketRight"@)
    } else if v == "BackSlash"@ {
        Some("Backslash"@)
    } else if v == "Semicolon"@ {
        Some("Semicolon"@)
    } else if v == "Apostrophe"@ {
        Some("Quote"@)
    } else if v == "Comma"@ {
        Some("Comma"@)
    } else if v == "Dot"@ {
        Some("Period"@)
    } else if v == "Slash"@ {
        Some("Slash"@)
    } else {
        None
    }
}

fn key_of_device_query_exec_3(v: &str) -> (r: Option<&'static str>)
    ensures
        str_opt_view(r) == key_of_device_query_3(v@),
{
    if str_eq(v, "Numpad6") {
        Some("Numpad6")
    } else if str_eq(v, "Numpad7") {
        Some("Numpad7")
    } else if str_eq(v, "Numpad8") {
        Some("Numpad8")
    } else if str_eq(v, "Numpad9") {
        Some("Numpad9")
    } else if str_eq(v, "NumpadSubtract") {
        Some("NumpadSubtract")
    } else if str_eq(v, "NumpadAdd") {
        Some("NumpadAdd")
    } else if str_eq(v, "NumpadDivide") {
        Some("NumpadDivide")
    } else if str_eq(v, "NumpadMultiply") {
        Some("NumpadMultiply")
    } else if str_eq(v, "NumpadEquals") {
        Some("NumpadEqual")
    } else if str_eq(v, "NumpadEnter") {
        Some("NumpadEnter")
    } else if str_eq(v, "NumpadDecimal") {
        Some("NumpadDecimal")
    } else if str_eq(v, "Grave") {
        Some("Backquote")
    } else if str_eq(v, "Minus") {
        Some("Minus")
    } else if str_eq(v, "Equal") {
        Some("Equal")
    } else if str_eq(v, "LeftBracket") {
        Some("BracketLeft")
    } else if str_eq(v, "RightBracket") {
        Some("BracketRight")
    } else if str_eq(v, "BackSlash") {
        Some("Backslash")
    } else if str_eq(v, "Semicolon") {
        Some("Semicolon")
    } else if str_eq(v, "Apostrophe") {
        Some("Quote")
    } else if str_eq(v, "Comma") {
        Some("Comma")
    } else if str_eq(v, "Dot") {
        Some("Period")
    } else if str_eq(v, "Slash") {
        Some("Slash")
    } else {
        None
    }
}

/// The key code name of a `device_query` key code (by variant name).
pub open spec fn key_of_device_query(v: Seq<char>) -> Option<Seq<char>> {
    match key_of_device_query_0(v) {
        Some(c) => Some(c),
        None => match key_of_device_query_1(v) {
        Some(c) => Some(c),
        None => match key_of_device_query_2(v) {
        Some(c) => Some(c),
        None => match key_of_device_query_3(v) {
        Some(c) => Some(c),
        None => None,
    },
    },
    },
    }
}

fn key_of_device_query_exec(v: &str) -> (r: Option<&'static str>)
    ensures
        str_opt_view(r) == key_of_device_query(v@),
{
    let r0 = key_of_device_query_exec_0(v);
    if r0.is_some() {
        return r0;
    }
    let r1 = key_of_device_query_exec_1(v);
    if r1.is_some() {
        return r1;
    }
    let r2 = key_of_device_query_exec_2(v);
    if r2.is_some() {
        return r2;
    }
    let r3 = key_of_device_query_exec_3(v);
    if r3.is_some() {
        return r3;
    }
    None
}

impl Key {
    /// The `mac_keycode` key (its variant name) of this key.
    pub fn to_mac_keycode(&self) -> (r: Result<String, KeyParseError>)
        ensures
            match mac_keycode_of(self@) {
                Some(n) => r matches Ok(s) && s@ == n,
                None => r matches Err(KeyParseError::UnknownKey(s)) && s@ == self@,
            },
    {
        match mac_keycode_of_exec(self.name()) {
            Some(n) => Ok(owned(n)),
            None => Err(KeyParseError::UnknownKey(owned(self.name()))),
        }
    }

    /// The key of a `mac_keycode` key, given by its variant name.
    pub fn from_mac_keycode(name: &str) -> (r: Result<Key, KeyParseError>)
        ensures
            match key_of_mac_keycode(name@) {
                Some(n) => r matches Ok(k) && k@ == n,
                None => r matches Err(KeyParseError::UnknownKey(s)) && s@ == name@,
            },
    {
        match key_of_mac_keycode_exec(name) {
            Some(n) => Ok(Key::named(n)),
            None => Err(KeyParseError::UnknownKey(owned(name))),
        }
    }

    /// The `rdev` key of this key, as `rdev` prints it.
    pub fn to_rdev(&self) -> (r: Result<String, KeyParseError>)
        ensures
            match rdev_key_of(self@) {
                Some(n) => r matches Ok(s) && s@ == n,
                None => r matches Err(KeyParseError::UnknownKey(s)) && s@ == self@,
            },
    {
        match rdev_key_of_exec(self.name()) {
            Some(n) => Ok(owned(n)),
            None => Err(KeyParseError::UnknownKey(owned(self.name()))),
        }
    }

    /// The key of an `rdev` key, given as `rdev` prints it.
    pub fn from_rdev(name: &str) -> (r: Result<Key, KeyParseError>)
        ensures
            match key_of_rdev(name@) {
                Some(n) => r matches Ok(k) && k@ == n,
                None => r matches Err(KeyParseError::UnknownKey(s)) && s@ == name@,
            },
    {
        match key_of_rdev_exec(name) {
            Some(n) => Ok(Key::named(n)),
            None => Err(KeyParseError::UnknownKey(owned(name))),
        }
    }

    /// The key of a `device_query` key code, given by its variant name (every
    /// variant has one).
    pub fn from_device_query(name: &str) -> (r: Option<Key>)
        ensures
            match key_of_device_query(name@) {
                Some(n) => r matches Some(k) && k@ == n,
                None => r is None,
            },
    {
        match key_of_device_query_exec(name) {
            Some(n) => Some(Key::named(n)),
            None => None,
        }
    }
}


/// The keys that `rdev` knows only by an unknown key code: F13 to F20.
pub open spec fn rdev_unknown_code_key(k: Seq<char>) -> bool {
    ||| k == "F13"@
    ||| k == "F14"@
    ||| k == "F15"@
    ||| k == "F16"@
    ||| k == "F17"@
    ||| k == "F18"@
    ||| k == "F19"@
    ||| k == "F20"@
}

proof fn lemma_rdev_round_trip_0(k: Seq<char>)
    requires
        rdev_key_of_0(k) is Some,
        !rdev_unknown_code_key(k),
    ensures
        key_of_rdev(rdev_key_of_0(k).unwrap()) == Some(k),
{
    reveal_strlit("Alt");
    reveal_strlit("AltGr");
    reveal_strlit("ArrowDown");
    reveal_strlit("Backspace");
    reveal_strlit("CapsLock");
    reveal_strlit("ControlLeft");
    reveal_strlit("ControlRight");
    reveal_strlit("Delete");
    reveal_strlit("DownArrow");
    reveal_strlit("End");
    reveal_strlit("Escape");
    reveal_strlit("F1");
    reveal_strlit("F10");
    reveal_strlit("F11");
    reveal_strlit("F12");
    reveal_strlit("F13");
    reveal_strlit("F14");
    reveal_strlit("F15");
    reveal_strlit("F16");
    reveal_strlit("F17");
    reveal_strlit("F18");
    reveal_strlit("F19");
    reveal_strlit("F2");
    reveal_strlit("F20");
    reveal_strlit("F21");
    reveal_strlit("F22");
    reveal_strlit("F3");
    reveal_strlit("F4");
    reveal_strlit("F5");
    reveal_strlit("F6");
    reveal_strlit("F7");
    reveal_strlit("F8");
    reveal_strlit("F9");
    assert("Alt"@.len() == 3);
    assert("AltGr"@.len() == 5);
    assert("ArrowDown"@.len() == 9);
    assert("Backspace"@.len() == 9);
    assert("CapsLock"@.len() == 8);
    assert("ControlLeft"@.len() == 11);
    assert("ControlRight"@.len() == 12);
    assert("Delete"@.len() == 6);
    assert("DownArrow"@.len() == 9);
    assert("End"@.len() == 3);
    assert("Escape"@.len() == 6);
    assert("F1"@.len() == 2);
    assert("F10"@.len() == 3);
    assert("F11"@.len() == 3);
    assert("F12"@.len() == 3);
    assert("F13"@.len() == 3);
    assert("F14"@.len() == 3);
    assert("F15"@.len() == 3);
    assert("F16"@.len() == 3);
    assert("F17"@.len() == 3);
    assert("F18"@.len() == 3);
    assert("F19"@.len() == 3);
    assert("F2"@.len() == 2);
    assert("F20"@.len() == 3);
    assert("F21"@.len() == 3);
    assert("F22"@.len() == 3);
    assert("F3"@.len() == 2);
    assert("F4"@.len() == 2);
    assert("F5"@.len() == 2);
    assert("F6"@.len() == 2);
    assert("F7"@.len() == 2);
    assert("F8"@.len() == 2);
    assert("F9"@.len() == 2);
        if k == "Backspace"@ {
        }
        if k == "CapsLock"@ {
        }
        if k == "ControlLeft"@ {
        }
        if k == "ControlRight"@ {
        }
        if k == "Delete"@ {
        }
        if k == "ArrowDown"@ {
            assert("DownArrow"@[0] != "Backspace"@[0]);
        }
        if k == "End"@ {
            assert("End"@[0] != "Alt"@[0]);
        }
        if k == "Escape"@ {
            assert("Escape"@[0] != "Delete"@[0]);
        }
        if k == "F1"@ {
        }
        if k == "F2"@ {
            assert("F2"@[1] != "F1"@[1]);
        }
        if k == "F3"@ {
            assert("F3"@[1] != "F1"@[1]);
            assert("F3"@[1] != "F2"@[1]);
        }
        if k == "F4"@ {
            assert("F4"@[1] != "F1"@[1]);
            assert("F4"@[1] != "F2"@[1]);
            assert("F4"@[1] != "F3"@[1]);
        }
        if k == "F5"@ {
            assert("F5"@[1] != "F1"@[1]);
            assert("F5"@[1] != "F2"@[1]);
            assert("F5"@[1] != "F3"@[1]);
            assert("F5"@[1] != "F4"@[1]);
        }
        if k == "F6"@ {
            assert("F6"@[1] != "F1"@[1]);
            assert("F6"@[1] != "F2"@[1]);
            assert("F6"@[1] != "F3"@[1]);
            assert("F6"@[1] != "F4"@[1]);
            assert("F6"@[1] != "F5"@[1]);
        }
        if k == "F7"@ {
            assert("F7"@[1] != "F1"@[1]);
            assert("F7"@[1] != "F2"@[1]);
            assert("F7"@[1] != "F3"@[1]);
            assert("F7"@[1] != "F4"@[1]);
            assert("F7"@[1] != "F5"@[1]);
            assert("F7"@[1] != "F6"@[1]);
        }
        if k == "F8"@ {
            assert("F8"@[1] != "F1"@[1]);
            assert("F8"@[1] != "F2"@[1]);
            assert("F8"@[1] != "F3"@[1]);
            assert("F8"@[1] != "F4"@[1]);
            assert("F8"@[1] != "F5"@[1]);
            assert("F8"@[1] != "F6"@[1]);
            assert("F8"@[1] != "F7"@[1]);
        }
        if k == "F9"@ {
            assert("F9"@[1] != "F1"@[1]);
            assert("F9"@[1] != "F2"@[1]);
            assert("F9"@[1] != "F3"@[1]);
            assert("F9"@[1] != "F4"@[1]);
            assert("F9"@[1] != "F5"@[1]);
            assert("F9"@[1] != "F6"@[1]);
            assert("F9"@[1] != "F7"@[1]);
            assert("F9"@[1] != "F8"@[1]);
        }
        if k == "F10"@ {
            assert("F10"@[0] != "Alt"@[0]);
            assert("F10"@[0] != "End"@[0]);
        }
        if k == "F11"@ {
            assert("F11"@[0] != "Alt"@[0]);
            assert("F11"@[0] != "End"@[0]);
            assert("F11"@[2] != "F10"@[2]);
        }
        if k == "F12"@ {
            assert("F12"@[0] != "Alt"@[0]);
            assert("F12"@[0] != "End"@[0]);
            assert("F12"@[2] != "F10"@[2]);
            assert("F12"@[2] != "F11"@[2]);
        }
        if k == "F21"@ {
            assert("F21"@[0] != "Alt"@[0]);
            assert("F21"@[0] != "End"@[0]);
            assert("F21"@[1] != "F10"@[1]);
            assert("F21"@[1] != "F11"@[1]);
            assert("F21"@[1] != "F12"@[1]);
            assert("F21"@[1] != "F13"@[1]);
            assert("F21"@[1] != "F14"@[1]);
            assert("F21"@[1] != "F15"@[1]);
            assert("F21"@[1] != "F16"@[1]);
            assert("F21"@[1] != "F17"@[1]);
            assert("F21"@[1] != "F18"@[1]);
            assert("F21"@[1] != "F19"@[1]);
            assert("F21"@[2] != "F20"@[2]);
        }
        if k == "F22"@ {
            assert("F22"@[0] != "Alt"@[0]);
            assert("F22"@[0] != "End"@[0]);
            assert("F22"@[1] != "F10"@[1]);
            assert("F22"@[1] != "F11"@[1]);
            assert("F22"@[1] != "F12"@[1]);
            assert("F22"@[1] != "F13"@[1]);
            assert("F22"@[1] != "F14"@[1]);
            assert("F22"@[1] != "F15"@[1]);
            assert("F22"@[1] != "F16"@[1]);
            assert("F22"@[1] != "F17"@[1]);
            assert("F22"@[1] != "F18"@[1]);
            assert("F22"@[1] != "F19"@[1]);
            assert("F22"@[2] != "F20"@[2]);
            assert("F22"@[2] != "F21"@[2]);
        }
}

proof fn lemma_rdev_round_trip_1(k: Seq<char>)
    requires
        rdev_key_of_1(k) is Some,
        !rdev_unknown_code_key(k),
    ensures
        key_of_rdev(rdev_key_of_1(k).unwrap()) == Some(k),
{
    reveal_strlit("Alt");
    reveal_strlit("AltGr");
    reveal_strlit("AltLeft");
    reveal_strlit("AltRight");
    reveal_strlit("ArrowLeft");
    reveal_strlit("ArrowRight");
    reveal_strlit("ArrowUp");
    reveal_strlit("BackQuote");
    reveal_strlit("Backquote");
    reveal_strlit("Backspace");
    reveal_strlit("CapsLock");
    reveal_strlit("ControlLeft");
    reveal_strlit("ControlRight");
    reveal_strlit("Delete");
    reveal_strlit("Digit1");
    reveal_strlit("Digit2");
    reveal_strlit("Digit3");
    reveal_strlit("Digit4");
    reveal_strlit("Digit5");
    reveal_strlit("Digit6");
    reveal_strlit("Digit7");
    reveal_strlit("Digit8");
    reveal_strlit("DownArrow");
    reveal_strlit("End");
    reveal_strlit("Enter");
    reveal_strlit("Escape");
    reveal_strlit("F1");
    reveal_strlit("F10");
    reveal_strlit("F11");
    reveal_strlit("F12");
    reveal_strlit("F13");
    reveal_strlit("F14");
    reveal_strlit("F15");
    reveal_strlit("F16");
    reveal_strlit("F17");
    reveal_strlit("F18");
    reveal_strlit("F19");
    reveal_strlit("F2");
    reveal_strlit("F20");
    reveal_strlit("F21");
    reveal_strlit("F22");
    reveal_strlit("F23");
    reveal_strlit("F24");
    reveal_strlit("F3");
    reveal_strlit("F4");
    reveal_strlit("F5");
    reveal_strlit("F6");
    reveal_strlit("F7");
    reveal_strlit("F8");
    reveal_strlit("F9");
    reveal_strlit("Home");
    reveal_strlit("LeftArrow");
    reveal_strlit("MetaLeft");
    reveal_strlit("MetaRight");
    reveal_strlit("Num1");
    reveal_strlit("Num2");
    reveal_strlit("Num3");
    reveal_strlit("Num4");
    reveal_strlit("Num5");
    reveal_strlit("Num6");
    reveal_strlit("Num7");
    reveal_strlit("Num8");
    reveal_strlit("NumLock");
    reveal_strlit("PageDown");
    reveal_strlit("PageUp");
    reveal_strlit("Pause");
    reveal_strlit("PrintScreen");
    reveal_strlit("Return");
    reveal_strlit("RightArrow");
    reveal_strlit("ScrollLock");
    reveal_strlit("ShiftLeft");
    reveal_strlit("ShiftRight");
    reveal_strlit("Space");
    reveal_strlit("Tab");
    reveal_strlit("UpArrow");
    assert("Alt"@.len() == 3);
    assert("AltGr"@.len() == 5);
    assert("AltLeft"@.len() == 7);
    assert("AltRight"@.len() == 8);
    assert("ArrowLeft"@.len() == 9);
    assert("ArrowRight"@.len() == 10);
    assert("ArrowUp"@.len() == 7);
    assert("BackQuote"@.len() == 9);
    assert("Backquote"@.len() == 9);
    assert("Backspace"@.len() == 9);
    assert("CapsLock"@.len() == 8);
    assert("ControlLeft"@.len() == 11);
    assert("ControlRight"@.len() == 12);
    assert("Delete"@.len() == 6);
    assert("Digit1"@.len() == 6);
    assert("Digit2"@.len() == 6);
    assert("Digit3"@.len() == 6);
    assert("Digit4"@.len() == 6);
    assert("Digit5"@.len() == 6);
    assert("Digit6"@.len() == 6);
    assert("Digit7"@.len() == 6);
    assert("Digit8"@.len() == 6);
    assert("DownArrow"@.len() == 9);
    assert("End"@.len() == 3);
    assert("Enter"@.len() == 5);
    assert("Escape"@.len() == 6);
    assert("F1"@.len() == 2);
    assert("F10"@.len() == 3);
    assert("F11"@.len() == 3);
    assert("F12"@.len() == 3);
    assert("F13"@.len() == 3);
    assert("F14"@.len() == 3);
    assert("F15"@.len() == 3);
    assert("F16"@.len() == 3);
    assert("F17"@.len() == 3);
    assert("F18"@.len() == 3);
    assert("F19"@.len() == 3);
    assert("F2"@.len() == 2);
    assert("F20"@.len() == 3);
    assert("F21"@.len() == 3);
    assert("F22"@.len() == 3);
    assert("F23"@.len() == 3);
    assert("F24"@.len() == 3);
    assert("F3"@.len() == 2);
    assert("F4"@.len() == 2);
    assert("F5"@.len() == 2);
    assert("F6"@.len() == 2);
    assert("F7"@.len() == 2);
    assert("F8"@.len() == 2);
    assert("F9"@.len() == 2);
    assert("Home"@.len() == 4);
    assert("LeftArrow"@.len() == 9);
    assert("MetaLeft"@.len() == 8);
    assert("MetaRight"@.len() == 9);
    assert("Num1"@.len() == 4);
    assert("Num2"@.len() == 4);
    assert("Num3"@.len() == 4);
    assert("Num4"@.len() == 4);
    assert("Num5"@.len() == 4);
    assert("Num6"@.len() == 4);
    assert("Num7"@.len() == 4);
    assert("Num8"@.len() == 4);
    assert("NumLock"@.len() == 7);
    assert("PageDown"@.len() == 8);
    assert("PageUp"@.len() == 6);
    assert("Pause"@.len() == 5);
    assert("PrintScreen"@.len() == 11);
    assert("Return"@.len() == 6);
    assert("RightArrow"@.len() == 10);
    assert("ScrollLock"@.len() == 10);
    assert("ShiftLeft"@.len() == 9);
    assert("ShiftRight"@.len() == 10);
    assert("Space"@.len() == 5);
    assert("Tab"@.len() == 3);
    assert("UpArrow"@.len() == 7);
        if k == "F23"@ {
            assert("F23"@[0] != "Alt"@[0]);
            assert("F23"@[0] != "End"@[0]);
            assert("F23"@[1] != "F10"@[1]);
            assert("F23"@[1] != "F11"@[1]);
            assert("F23"@[1] != "F12"@[1]);
            assert("F23"@[1] != "F13"@[1]);
            assert("F23"@[1] != "F14"@[1]);
            assert("F23"@[1] != "F15"@[1]);
            assert("F23"@[1] != "F16"@[1]);
            assert("F23"@[1] != "F17"@[1]);
            assert("F23"@[1] != "F18"@[1]);
            assert("F23"@[1] != "F19"@[1]);
            assert("F23"@[2] != "F20"@[2]);
            assert("F23"@[2] != "F21"@[2]);
            assert("F23"@[2] != "F22"@[2]);
        }
        if k == "F24"@ {
            assert("F24"@[0] != "Alt"@[0]);
            assert("F24"@[0] != "End"@[0]);
            assert("F24"@[1] != "F10"@[1]);
            assert("F24"@[1] != "F11"@[1]);
            assert("F24"@[1] != "F12"@[1]);
            assert("F24"@[1] != "F13"@[1]);
            assert("F24"@[1] != "F14"@[1]);
            assert("F24"@[1] != "F15"@[1]);
            assert("F24"@[1] != "F16"@[1]);
            assert("F24"@[1] != "F17"@[1]);
            assert("F24"@[1] != "F18"@[1]);
            assert("F24"@[1] != "F19"@[1]);
            assert("F24"@[2] != "F20"@[2]);
            assert("F24"@[2] != "F21"@[2]);
            assert("F24"@[2] != "F22"@[2]);
            assert("F24"@[2] != "F23"@[2]);
        }
        if k == "Home"@ {
        }
        if k == "ArrowLeft"@ {
            assert("LeftArrow"@[0] != "Backspace"@[0]);
            assert("LeftArrow"@[0] != "DownArrow"@[0]);
        }
        if k == "MetaLeft"@ {
            assert("MetaLeft"@[0] != "CapsLock"@[0]);
        }
        if k == "MetaRight"@ {
            assert("MetaRight"@[0] != "Backspace"@[0]);
            assert("MetaRight"@[0] != "DownArrow"@[0]);
            assert("MetaRight"@[0] != "LeftArrow"@[0]);
        }
        if k == "PageDown"@ {
            assert("PageDown"@[0] != "CapsLock"@[0]);
            assert("PageDown"@[0] != "MetaLeft"@[0]);
        }
        if k == "PageUp"@ {
            assert("PageUp"@[0] != "Delete"@[0]);
            assert("PageUp"@[0] != "Escape"@[0]);
        }
        if k == "Enter"@ {
            assert("Return"@[0] != "Delete"@[0]);
            assert("Return"@[0] != "Escape"@[0]);
            assert("Return"@[0] != "PageUp"@[0]);
        }
        if k == "ArrowRight"@ {
        }
        if k == "ShiftLeft"@ {
            assert("ShiftLeft"@[0] != "Backspace"@[0]);
            assert("ShiftLeft"@[0] != "DownArrow"@[0]);
            assert("ShiftLeft"@[0] != "LeftArrow"@[0]);
            assert("ShiftLeft"@[0] != "MetaRight"@[0]);
        }
        if k == "ShiftRight"@ {
            assert("ShiftRight"@[0] != "RightArrow"@[0]);
        }
        if k == "AltLeft"@ {
        }
        if k == "AltRight"@ {
        }
        if k == "Space"@ {
            assert("Space"@[0] != "AltGr"@[0]);
        }
        if k == "Tab"@ {
            assert("Tab"@[0] != "Alt"@[0]);
            assert("Tab"@[0] != "End"@[0]);
            assert("Tab"@[0] != "F10"@[0]);
            assert("Tab"@[0] != "F11"@[0]);
            assert("Tab"@[0] != "F12"@[0]);
            assert("Tab"@[0] != "F13"@[0]);
            assert("Tab"@[0] != "F14"@[0]);
            assert("Tab"@[0] != "F15"@[0]);
            assert("Tab"@[0] != "F16"@[0]);
            assert("Tab"@[0] != "F17"@[0]);
            assert("Tab"@[0] != "F18"@[0]);
            assert("Tab"@[0] != "F19"@[0]);
            assert("Tab"@[0] != "F20"@[0]);
            assert("Tab"@[0] != "F21"@[0]);
            assert("Tab"@[0] != "F22"@[0]);
            assert("Tab"@[0] != "F23"@[0]);
            assert("Tab"@[0] != "F24"@[0]);
        }
        if k == "ArrowUp"@ {
        }
        if k == "PrintScreen"@ {
            assert("PrintScreen"@[0] != "ControlLeft"@[0]);
        }
        if k == "ScrollLock"@ {
            assert("ScrollLock"@[0] != "RightArrow"@[0]);
            assert("ScrollLock"@[1] != "ShiftRight"@[1]);
        }
        if k == "Pause"@ {
            assert("Pause"@[0] != "AltGr"@[0]);
            assert("Pause"@[0] != "Space"@[0]);
        }
        if k == "NumLock"@ {
            assert("NumLock"@[0] != "UpArrow"@[0]);
        }
        if k == "Backquote"@ {
            assert("BackQuote"@[4] != "Backspace"@[4]);
            assert("BackQuote"@[0] != "DownArrow"@[0]);
            assert("BackQuote"@[0] != "LeftArrow"@[0]);
            assert("BackQuote"@[0] != "MetaRight"@[0]);
            assert("BackQuote"@[0] != "ShiftLeft"@[0]);
        }
        if k == "Digit1"@ {
            assert("Num1"@[0] != "Home"@[0]);
        }
        if k == "Digit2"@ {
            assert("Num2"@[0] != "Home"@[0]);
            assert("Num2"@[3] != "Num1"@[3]);
        }
        if k == "Digit3"@ {
            assert("Num3"@[0] != "Home"@[0]);
            assert("Num3"@[3] != "Num1"@[3]);
            assert("Num3"@[3] != "Num2"@[3]);
        }
        if k == "Digit4"@ {
            assert("Num4"@[0] != "Home"@[0]);
            assert("Num4"@[3] != "Num1"@[3]);
            assert("Num4"@[3] != "Num2"@[3]);
            assert("Num4"@[3] != "Num3"@[3]);
        }
        if k == "Digit5"@ {
            assert("Num5"@[0] != "Home"@[0]);
            assert("Num5"@[3] != "Num1"@[3]);
            assert("Num5"@[3] != "Num2"@[3]);
            assert("Num5"@[3] != "Num3"@[3]);
            assert("Num5"@[3] != "Num4"@[3]);
        }
        if k == "Digit6"@ {
            assert("Num6"@[0] != "Home"@[0]);
            assert("Num6"@[3] != "Num1"@[3]);
            assert("Num6"@[3] != "Num2"@[3]);
            assert("Num6"@[3] != "Num3"@[3]);
            assert("Num6"@[3] != "Num4"@[3]);
            assert("Num6"@[3] != "Num5"@[3]);
        }
        if k == "Digit7"@ {
            assert("Num7"@[0] != "Home"@[0]);
            assert("Num7"@[3] != "Num1"@[3]);
            assert("Num7"@[3] != "Num2"@[3]);
            assert("Num7"@[3] != "Num3"@[3]);
            assert("Num7"@[3] != "Num4"@[3]);
            assert("Num7"@[3] != "Num5"@[3]);
            assert("Num7"@[3] != "Num6"@[3]);
        }
        if k == "Digit8"@ {
            assert("Num8"@[0] != "Home"@[0]);
            assert("Num8"@[3] != "Num1"@[3]);
            assert("Num8"@[3] != "Num2"@[3]);
            assert("Num8"@[3] != "Num3"@[3]);
            assert("Num8"@[3] != "Num4"@[3]);
            assert("Num8"@[3] != "Num5"@[3]);
            assert("Num8"@[3] != "Num6"@[3]);
            assert("Num8"@[3] != "Num7"@[3]);
        }
}

proof fn lemma_rdev_round_trip_2(k: Seq<char>)
    requires
        rdev_key_of_2(k) is Some,
        !rdev_unknown_code_key(k),
    ensures
        key_of_rdev(rdev_key_of_2(k).unwrap()) == Some(k),
{
    reveal_strlit("Alt");
    reveal_strlit("AltGr");
    reveal_strlit("BackQuote");
    reveal_strlit("BackSlash");
    reveal_strlit("Backslash");
    reveal_strlit("Backspace");
    reveal_strlit("BracketLeft");
    reveal_strlit("BracketRight");
    reveal_strlit("CapsLock");
    reveal_strlit("ControlLeft");
    reveal_strlit("ControlRight");
    reveal_strlit("Delete");
    reveal_strlit("Digit0");
    reveal_strlit("Digit9");
    reveal_strlit("DownArrow");
    reveal_strlit("End");
    reveal_strlit("Equal");
    reveal_strlit("Escape");
    reveal_strlit("F1");
    reveal_strlit("F10");
    reveal_strlit("F11");
    reveal_strlit("F12");
    reveal_strlit("F13");
    reveal_strlit("F14");
    reveal_strlit("F15");
    reveal_strlit("F16");
    reveal_strlit("F17");
    reveal_strlit("F18");
    reveal_strlit("F19");
    reveal_strlit("F2");
    reveal_strlit("F20");
    reveal_strlit("F21");
    reveal_strlit("F22");
    reveal_strlit("F23");
    reveal_strlit("F24");
    reveal_strlit("F3");
    reveal_strlit("F4");
    reveal_strlit("F5");
    reveal_strlit("F6");
    reveal_strlit("F7");
    reveal_strlit("F8");
    reveal_strlit("F9");
    reveal_strlit("Home");
    reveal_strlit("IntlBackslash");
    reveal_strlit("KeyA");
    reveal_strlit("KeyD");
    reveal_strlit("KeyE");
    reveal_strlit("KeyF");
    reveal_strlit("KeyG");
    reveal_strlit("KeyH");
    reveal_strlit("KeyI");
    reveal_strlit("KeyJ");
    reveal_strlit("KeyK");
    reveal_strlit("KeyL");
    reveal_strlit("KeyO");
    reveal_strlit("KeyP");
    reveal_strlit("KeyQ");
    reveal_strlit("KeyR");
    reveal_strlit("KeyS");
    reveal_strlit("KeyT");
    reveal_strlit("KeyU");
    reveal_strlit("KeyW");
    reveal_strlit("KeyY");
    reveal_strlit("KeyZ");
    reveal_strlit("LeftArrow");
    reveal_strlit("LeftBracket");
    reveal_strlit("MetaLeft");
    reveal_strlit("MetaRight");
    reveal_strlit("Minus");
    reveal_strlit("Num0");
    reveal_strlit("Num1");
    reveal_strlit("Num2");
    reveal_strlit("Num3");
    reveal_strlit("Num4");
    reveal_strlit("Num5");
    reveal_strlit("Num6");
    reveal_strlit("Num7");
    reveal_strlit("Num8");
    reveal_strlit("Num9");
    reveal_strlit("NumLock");
    reveal_strlit("PageDown");
    reveal_strlit("PageUp");
    reveal_strlit("Pause");
    reveal_strlit("PrintScreen");
    reveal_strlit("Quote");
    reveal_strlit("Return");
    reveal_strlit("RightArrow");
    reveal_strlit("RightBracket");
    reveal_strlit("ScrollLock");
    reveal_strlit("SemiColon");
    reveal_strlit("Semicolon");
    reveal_strlit("ShiftLeft");
    reveal_strlit("ShiftRight");
    reveal_strlit("Space");
    reveal_strlit("Tab");
    reveal_strlit("UpArrow");
    assert("Alt"@.len() == 3);
    assert("AltGr"@.len() == 5);
    assert("BackQuote"@.len() == 9);
    assert("BackSlash"@.len() == 9);
    assert("Backslash"@.len() == 9);
    assert("Backspace"@.len() == 9);
    assert("BracketLeft"@.len() == 11);
    assert("BracketRight"@.len() == 12);
    assert("CapsLock"@.len() == 8);
    assert("ControlLeft"@.len() == 11);
    assert("ControlRight"@.len() == 12);
    assert("Delete"@.len() == 6);
    assert("Digit0"@.len() == 6);
    assert("Digit9"@.len() == 6);
    assert("DownArrow"@.len() == 9);
    assert("End"@.len() == 3);
    assert("Equal"@.len() == 5);
    assert("Escape"@.len() == 6);
    assert("F1"@.len() == 2);
    assert("F10"@.len() == 3);
    assert("F11"@.len() == 3);
    assert("F12"@.len() == 3);
    assert("F13"@.len() == 3);
    assert("F14"@.len() == 3);
    assert("F15"@.len() == 3);
    assert("F16"@.len() == 3);
    assert("F17"@.len() == 3);
    assert("F18"@.len() == 3);
    assert("F19"@.len() == 3);
    assert("F2"@.len() == 2);
    assert("F20"@.len() == 3);
    assert("F21"@.len() == 3);
    assert("F22"@.len() == 3);
    assert("F23"@.len() == 3);
    assert("F24"@.len() == 3);
    assert("F3"@.len() == 2);
    assert("F4"@.len() == 2);
    assert("F5"@.len() == 2);
    assert("F6"@.len() == 2);
    assert("F7"@.len() == 2);
    assert("F8"@.len() == 2);
    assert("F9"@.len() == 2);
    assert("Home"@.len() == 4);
    assert("IntlBackslash"@.len() == 13);
    assert("KeyA"@.len() == 4);
    assert("KeyD"@.len() == 4);
    assert("KeyE"@.len() == 4);
    assert("KeyF"@.len() == 4);
    assert("KeyG"@.len() == 4);
    assert("KeyH"@.len() == 4);
    assert("KeyI"@.len() == 4);
    assert("KeyJ"@.len() == 4);
    assert("KeyK"@.len() == 4);
    assert("KeyL"@.len() == 4);
    assert("KeyO"@.len() == 4);
    assert("KeyP"@.len() == 4);
    assert("KeyQ"@.len() == 4);
    assert("KeyR"@.len() == 4);
    assert("KeyS"@.len() == 4);
    assert("KeyT"@.len() == 4);
    assert("KeyU"@.len() == 4);
    assert("KeyW"@.len() == 4);
    assert("KeyY"@.len() == 4);
    assert("KeyZ"@.len() == 4);
    assert("LeftArrow"@.len() == 9);
    assert("LeftBracket"@.len() == 11);
    assert("MetaLeft"@.len() == 8);
    assert("MetaRight"@.len() == 9);
    assert("Minus"@.len() == 5);
    assert("Num0"@.len() == 4);
    assert("Num1"@.len() == 4);
    assert("Num2"@.len() == 4);
    assert("Num3"@.len() == 4);
    assert("Num4"@.len() == 4);
    assert("Num5"@.len() == 4);
    assert("Num6"@.len() == 4);
    assert("Num7"@.len() == 4);
    assert("Num8"@.len() == 4);
    assert("Num9"@.len() == 4);
    assert("NumLock"@.len() == 7);
    assert("PageDown"@.len() == 8);
    assert("PageUp"@.len() == 6);
    assert("Pause"@.len() == 5);
    assert("PrintScreen"@.len() == 11);
    assert("Quote"@.len() == 5);
    assert("Return"@.len() == 6);
    assert("RightArrow"@.len() == 10);
    assert("RightBracket"@.len() == 12);
    assert("ScrollLock"@.len() == 10);
    assert("SemiColon"@.len() == 9);
    assert("Semicolon"@.len() == 9);
    assert("ShiftLeft"@.len() == 9);
    assert("ShiftRight"@.len() == 10);
    assert("Space"@.len() == 5);
    assert("Tab"@.len() == 3);
    assert("UpArrow"@.len() == 7);
        if k == "Digit9"@ {
            assert("Num9"@[0] != "Home"@[0]);
            assert("Num9"@[3] != "Num1"@[3]);
            assert("Num9"@[3] != "Num2"@[3]);
            assert("Num9"@[3] != "Num3"@[3]);
            assert("Num9"@[3] != "Num4"@[3]);
            assert("Num9"@[3] != "Num5"@[3]);
            assert("Num9"@[3] != "Num6"@[3]);
            assert("Num9"@[3] != "Num7"@[3]);
            assert("Num9"@[3] != "Num8"@[3]);
        }
        if k == "Digit0"@ {
            assert("Num0"@[0] != "Home"@[0]);
            assert("Num0"@[3] != "Num1"@[3]);
            assert("Num0"@[3] != "Num2"@[3]);
            assert("Num0"@[3] != "Num3"@[3]);
            assert("Num0"@[3] != "Num4"@[3]);
            assert("Num0"@[3] != "Num5"@[3]);
            assert("Num0"@[3] != "Num6"@[3]);
            assert("Num0"@[3] != "Num7"@[3]);
            assert("Num0"@[3] != "Num8"@[3]);
            assert("Num0"@[3] != "Num9"@[3]);
        }
        if k == "Minus"@ {
            assert("Minus"@[0] != "AltGr"@[0]);
            assert("Minus"@[0] != "Space"@[0]);
            assert("Minus"@[0] != "Pause"@[0]);
        }
        if k == "Equal"@ {
            assert("Equal"@[0] != "AltGr"@[0]);
            assert("Equal"@[0] != "Space"@[0]);
            assert("Equal"@[0] != "Pause"@[0]);
            assert("Equal"@[0] != "Minus"@[0]);
        }
        if k == "KeyQ"@ {
            assert("KeyQ"@[0] != "Home"@[0]);
            assert("KeyQ"@[0] != "Num1"@[0]);
            assert("KeyQ"@[0] != "Num2"@[0]);
            assert("KeyQ"@[0] != "Num3"@[0]);
            assert("KeyQ"@[0] != "Num4"@[0]);
            assert("KeyQ"@[0] != "Num5"@[0]);
            assert("KeyQ"@[0] != "Num6"@[0]);
            assert("KeyQ"@[0] != "Num7"@[0]);
            assert("KeyQ"@[0] != "Num8"@[0]);
            assert("KeyQ"@[0] != "Num9"@[0]);
            assert("KeyQ"@[0] != "Num0"@[0]);
        }
        if k == "KeyW"@ {
            assert("KeyW"@[0] != "Home"@[0]);
            assert("KeyW"@[0] != "Num1"@[0]);
            assert("KeyW"@[0] != "Num2"@[0]);
            assert("KeyW"@[0] != "Num3"@[0]);
            assert("KeyW"@[0] != "Num4"@[0]);
            assert("KeyW"@[0] != "Num5"@[0]);
            assert("KeyW"@[0] != "Num6"@[0]);
            assert("KeyW"@[0] != "Num7"@[0]);
            assert("KeyW"@[0] != "Num8"@[0]);
            assert("KeyW"@[0] != "Num9"@[0]);
            assert("KeyW"@[0] != "Num0"@[0]);
            assert("KeyW"@[3] != "KeyQ"@[3]);
        }
        if k == "KeyE"@ {
            assert("KeyE"@[0] != "Home"@[0]);
            assert("KeyE"@[0] != "Num1"@[0]);
            assert("KeyE"@[0] != "Num2"@[0]);
            assert("KeyE"@[0] != "Num3"@[0]);
            assert("KeyE"@[0] != "Num4"@[0]);
            assert("KeyE"@[0] != "Num5"@[0]);
            assert("KeyE"@[0] != "Num6"@[0]);
            assert("KeyE"@[0] != "Num7"@[0]);
            assert("KeyE"@[0] != "Num8"@[0]);
            assert("KeyE"@[0] != "Num9"@[0]);
            assert("KeyE"@[0] != "Num0"@[0]);
            assert("KeyE"@[3] != "KeyQ"@[3]);
            assert("KeyE"@[3] != "KeyW"@[3]);
        }
        if k == "KeyR"@ {
            assert("KeyR"@[0] != "Home"@[0]);
            assert("KeyR"@[0] != "Num1"@[0]);
            assert("KeyR"@[0] != "Num2"@[0]);
            assert("KeyR"@[0] != "Num3"@[0]);
            assert("KeyR"@[0] != "Num4"@[0]);
            assert("KeyR"@[0] != "Num5"@[0]);
            assert("KeyR"@[0] != "Num6"@[0]);
            assert("KeyR"@[0] != "Num7"@[0]);
            assert("KeyR"@[0] != "Num8"@[0]);
            assert("KeyR"@[0] != "Num9"@[0]);
            assert("KeyR"@[0] != "Num0"@[0]);
            assert("KeyR"@[3] != "KeyQ"@[3]);
            assert("KeyR"@[3] != "KeyW"@[3]);
            assert("KeyR"@[3] != "KeyE"@[3]);
        }
        if k == "KeyT"@ {
            assert("KeyT"@[0] != "Home"@[0]);
            assert("KeyT"@[0] != "Num1"@[0]);
            assert("KeyT"@[0] != "Num2"@[0]);
            assert("KeyT"@[0] != "Num3"@[0]);
            assert("KeyT"@[0] != "Num4"@[0]);
            assert("KeyT"@[0] != "Num5"@[0]);
            assert("KeyT"@[0] != "Num6"@[0]);
            assert("KeyT"@[0] != "Num7"@[0]);
            assert("KeyT"@[0] != "Num8"@[0]);
            assert("KeyT"@[0] != "Num9"@[0]);
            assert("KeyT"@[0] != "Num0"@[0]);
            assert("KeyT"@[3] != "KeyQ"@[3]);
            assert("KeyT"@[3] != "KeyW"@[3]);
            assert("KeyT"@[3] != "KeyE"@[3]);
            assert("KeyT"@[3] != "KeyR"@[3]);
        }
        if k == "KeyY"@ {
            assert("KeyY"@[0] != "Home"@[0]);
            assert("KeyY"@[0] != "Num1"@[0]);
            assert("KeyY"@[0] != "Num2"@[0]);
            assert("KeyY"@[0] != "Num3"@[0]);
            assert("KeyY"@[0] != "Num4"@[0]);
            assert("KeyY"@[0] != "Num5"@[0]);
            assert("KeyY"@[0] != "Num6"@[0]);
            assert("KeyY"@[0] != "Num7"@[0]);
            assert("KeyY"@[0] != "Num8"@[0]);
            assert("KeyY"@[0] != "Num9"@[0]);
            assert("KeyY"@[0] != "Num0"@[0]);
            assert("KeyY"@[3] != "KeyQ"@[3]);
            assert("KeyY"@[3] != "KeyW"@[3]);
            assert("KeyY"@[3] != "KeyE"@[3]);
            assert("KeyY"@[3] != "KeyR"@[3]);
            assert("KeyY"@[3] != "KeyT"@[3]);
        }
        if k == "KeyU"@ {
            assert("KeyU"@[0] != "Home"@[0]);
            assert("KeyU"@[0] != "Num1"@[0]);
            assert("KeyU"@[0] != "Num2"@[0]);
            assert("KeyU"@[0] != "Num3"@[0]);
            assert("KeyU"@[0] != "Num4"@[0]);
            assert("KeyU"@[0] != "Num5"@[0]);
            assert("KeyU"@[0] != "Num6"@[0]);
            assert("KeyU"@[0] != "Num7"@[0]);
            assert("KeyU"@[0] != "Num8"@[0]);
            assert("KeyU"@[0] != "Num9"@[0]);
            assert("KeyU"@[0] != "Num0"@[0]);
            assert("KeyU"@[3] != "KeyQ"@[3]);
            assert("KeyU"@[3] != "KeyW"@[3]);
            assert("KeyU"@[3] != "KeyE"@[3]);
            assert("KeyU"@[3] != "KeyR"@[3]);
            assert("KeyU"@[3] != "KeyT"@[3]);
            assert("KeyU"@[3] != "KeyY"@[3]);
        }
        if k == "KeyI"@ {
            assert("KeyI"@[0] != "Home"@[0]);
            assert("KeyI"@[0] != "Num1"@[0]);
            assert("KeyI"@[0] != "Num2"@[0]);
            assert("KeyI"@[0] != "Num3"@[0]);
            assert("KeyI"@[0] != "Num4"@[0]);
            assert("KeyI"@[0] != "Num5"@[0]);
            assert("KeyI"@[0] != "Num6"@[0]);
            assert("KeyI"@[0] != "Num7"@[0]);
            assert("KeyI"@[0] != "Num8"@[0]);
            assert("KeyI"@[0] != "Num9"@[0]);
            assert("KeyI"@[0] != "Num0"@[0]);
            assert("KeyI"@[3] != "KeyQ"@[3]);
            assert("KeyI"@[3] != "KeyW"@[3]);
            assert("KeyI"@[3] != "KeyE"@[3]);
            assert("KeyI"@[3] != "KeyR"@[3]);
            assert("KeyI"@[3] != "KeyT"@[3]);
            assert("KeyI"@[3] != "KeyY"@[3]);
            assert("KeyI"@[3] != "KeyU"@[3]);
        }
        if k == "KeyO"@ {
            assert("KeyO"@[0] != "Home"@[0]);
            assert("KeyO"@[0] != "Num1"@[0]);
            assert("KeyO"@[0] != "Num2"@[0]);
            assert("KeyO"@[0] != "Num3"@[0]);
            assert("KeyO"@[0] != "Num4"@[0]);
            assert("KeyO"@[0] != "Num5"@[0]);
            assert("KeyO"@[0] != "Num6"@[0]);
            assert("KeyO"@[0] != "Num7"@[0]);
            assert("KeyO"@[0] != "Num8"@[0]);
            assert("KeyO"@[0] != "Num9"@[0]);
            assert("KeyO"@[0] != "Num0"@[0]);
            assert("KeyO"@[3] != "KeyQ"@[3]);
            assert("KeyO"@[3] != "KeyW"@[3]);
            assert("KeyO"@[3] != "KeyE"@[3]);
            assert("KeyO"@[3] != "KeyR"@[3]);
            assert("KeyO"@[3] != "KeyT"@[3]);
            assert("KeyO"@[3] != "KeyY"@[3]);
            assert("KeyO"@[3] != "KeyU"@[3]);
            assert("KeyO"@[3] != "KeyI"@[3]);
        }
        if k == "KeyP"@ {
            assert("KeyP"@[0] != "Home"@[0]);
            assert("KeyP"@[0] != "Num1"@[0]);
            assert("KeyP"@[0] != "Num2"@[0]);
            assert("KeyP"@[0] != "Num3"@[0]);
            assert("KeyP"@[0] != "Num4"@[0]);
            assert("KeyP"@[0] != "Num5"@[0]);
            assert("KeyP"@[0] != "Num6"@[0]);
            assert("KeyP"@[0] != "Num7"@[0]);
            assert("KeyP"@[0] != "Num8"@[0]);
            assert("KeyP"@[0] != "Num9"@[0]);
            assert("KeyP"@[0] != "Num0"@[0]);
            assert("KeyP"@[3] != "KeyQ"@[3]);
            assert("KeyP"@[3] != "KeyW"@[3]);
            assert("KeyP"@[3] != "KeyE"@[3]);
            assert("KeyP"@[3] != "KeyR"@[3]);
            assert("KeyP"@[3] != "KeyT"@[3]);
            assert("KeyP"@[3] != "KeyY"@[3]);
            assert("KeyP"@[3] != "KeyU"@[3]);
            assert("KeyP"@[3] != "KeyI"@[3]);
            assert("KeyP"@[3] != "KeyO"@[3]);
        }
        if k == "BracketLeft"@ {
            assert("LeftBracket"@[0] != "ControlLeft"@[0]);
            assert("LeftBracket"@[0] != "PrintScreen"@[0]);
        }
        if k == "BracketRight"@ {
            assert("RightBracket"@[0] != "ControlRight"@[0]);
        }
        if k == "KeyA"@ {
            assert("KeyA"@[0] != "Home"@[0]);
            assert("KeyA"@[0] != "Num1"@[0]);
            assert("KeyA"@[0] != "Num2"@[0]);
            assert("KeyA"@[0] != "Num3"@[0]);
            assert("KeyA"@[0] != "Num4"@[0]);
            assert("KeyA"@[0] != "Num5"@[0]);
            assert("KeyA"@[0] != "Num6"@[0]);
            assert("KeyA"@[0] != "Num7"@[0]);
            assert("KeyA"@[0] != "Num8"@[0]);
            assert("KeyA"@[0] != "Num9"@[0]);
            assert("KeyA"@[0] != "Num0"@[0]);
            assert("KeyA"@[3] != "KeyQ"@[3]);
            assert("KeyA"@[3] != "KeyW"@[3]);
            assert("KeyA"@[3] != "KeyE"@[3]);
            assert("KeyA"@[3] != "KeyR"@[3]);
            assert("KeyA"@[3] != "KeyT"@[3]);
            assert("KeyA"@[3] != "KeyY"@[3]);
            assert("KeyA"@[3] != "KeyU"@[3]);
            assert("KeyA"@[3] != "KeyI"@[3]);
            assert("KeyA"@[3] != "KeyO"@[3]);
            assert("KeyA"@[3] != "KeyP"@[3]);
        }
        if k == "KeyS"@ {
            assert("KeyS"@[0] != "Home"@[0]);
            assert("KeyS"@[0] != "Num1"@[0]);
            assert("KeyS"@[0] != "Num2"@[0]);
            assert("KeyS"@[0] != "Num3"@[0]);
            assert("KeyS"@[0] != "Num4"@[0]);
            assert("KeyS"@[0] != "Num5"@[0]);
            assert("KeyS"@[0] != "Num6"@[0]);
            assert("KeyS"@[0] != "Num7"@[0]);
            assert("KeyS"@[0] != "Num8"@[0]);
            assert("KeyS"@[0] != "Num9"@[0]);
            assert("KeyS"@[0] != "Num0"@[0]);
            assert("KeyS"@[3] != "KeyQ"@[3]);
            assert("KeyS"@[3] != "KeyW"@[3]);
            assert("KeyS"@[3] != "KeyE"@[3]);
            assert("KeyS"@[3] != "KeyR"@[3]);
            assert("KeyS"@[3] != "KeyT"@[3]);
            assert("KeyS"@[3] != "KeyY"@[3]);
            assert("KeyS"@[3] != "KeyU"@[3]);
            assert("KeyS"@[3] != "KeyI"@[3]);
            assert("KeyS"@[3] != "KeyO"@[3]);
            assert("KeyS"@[3] != "KeyP"@[3]);
            assert("KeyS"@[3] != "KeyA"@[3]);
        }
        if k == "KeyD"@ {
            assert("KeyD"@[0] != "Home"@[0]);
            assert("KeyD"@[0] != "Num1"@[0]);
            assert("KeyD"@[0] != "Num2"@[0]);
            assert("KeyD"@[0] != "Num3"@[0]);
            assert("KeyD"@[0] != "Num4"@[0]);
            assert("KeyD"@[0] != "Num5"@[0]);
            assert("KeyD"@[0] != "Num6"@[0]);
            assert("KeyD"@[0] != "Num7"@[0]);
            assert("KeyD"@[0] != "Num8"@[0]);
            assert("KeyD"@[0] != "Num9"@[0]);
            assert("KeyD"@[0] != "Num0"@[0]);
            assert("KeyD"@[3] != "KeyQ"@[3]);
            assert("KeyD"@[3] != "KeyW"@[3]);
            assert("KeyD"@[3] != "KeyE"@[3]);
            assert("KeyD"@[3] != "KeyR"@[3]);
            assert("KeyD"@[3] != "KeyT"@[3]);
            assert("KeyD"@[3] != "KeyY"@[3]);
            assert("KeyD"@[3] != "KeyU"@[3]);
            assert("KeyD"@[3] != "KeyI"@[3]);
            assert("KeyD"@[3] != "KeyO"@[3]);
            assert("KeyD"@[3] != "KeyP"@[3]);
            assert("KeyD"@[3] != "KeyA"@[3]);
            assert("KeyD"@[3] != "KeyS"@[3]);
        }
        if k == "KeyF"@ {
            assert("KeyF"@[0] != "Home"@[0]);
            assert("KeyF"@[0] != "Num1"@[0]);
            assert("KeyF"@[0] != "Num2"@[0]);
            assert("KeyF"@[0] != "Num3"@[0]);
            assert("KeyF"@[0] != "Num4"@[0]);
            assert("KeyF"@[0] != "Num5"@[0]);
            assert("KeyF"@[0] != "Num6"@[0]);
            assert("KeyF"@[0] != "Num7"@[0]);
            assert("KeyF"@[0] != "Num8"@[0]);
            assert("KeyF"@[0] != "Num9"@[0]);
            assert("KeyF"@[0] != "Num0"@[0]);
            assert("KeyF"@[3] != "KeyQ"@[3]);
            assert("KeyF"@[3] != "KeyW"@[3]);
            assert("KeyF"@[3] != "KeyE"@[3]);
            assert("KeyF"@[3] != "KeyR"@[3]);
            assert("KeyF"@[3] != "KeyT"@[3]);
            assert("KeyF"@[3] != "KeyY"@[3]);
            assert("KeyF"@[3] != "KeyU"@[3]);
            assert("KeyF"@[3] != "KeyI"@[3]);
            assert("KeyF"@[3] != "KeyO"@[3]);
            assert("KeyF"@[3] != "KeyP"@[3]);
            assert("KeyF"@[3] != "KeyA"@[3]);
            assert("KeyF"@[3] != "KeyS"@[3]);
            assert("KeyF"@[3] != "KeyD"@[3]);
        }
        if k == "KeyG"@ {
            assert("KeyG"@[0] != "Home"@[0]);
            assert("KeyG"@[0] != "Num1"@[0]);
            assert("KeyG"@[0] != "Num2"@[0]);
            assert("KeyG"@[0] != "Num3"@[0]);
            assert("KeyG"@[0] != "Num4"@[0]);
            assert("KeyG"@[0] != "Num5"@[0]);
            assert("KeyG"@[0] != "Num6"@[0]);
            assert("KeyG"@[0] != "Num7"@[0]);
            assert("KeyG"@[0] != "Num8"@[0]);
            assert("KeyG"@[0] != "Num9"@[0]);
            assert("KeyG"@[0] != "Num0"@[0]);
            assert("KeyG"@[3] != "KeyQ"@[3]);
            assert("KeyG"@[3] != "KeyW"@[3]);
            assert("KeyG"@[3] != "KeyE"@[3]);
            assert("KeyG"@[3] != "KeyR"@[3]);
            assert("KeyG"@[3] != "KeyT"@[3]);
            assert("KeyG"@[3] != "KeyY"@[3]);
            assert("KeyG"@[3] != "KeyU"@[3]);
            assert("KeyG"@[3] != "KeyI"@[3]);
            assert("KeyG"@[3] != "KeyO"@[3]);
            assert("KeyG"@[3] != "KeyP"@[3]);
            assert("KeyG"@[3] != "KeyA"@[3]);
            assert("KeyG"@[3] != "KeyS"@[3]);
            assert("KeyG"@[3] != "KeyD"@[3]);
            assert("KeyG"@[3] != "KeyF"@[3]);
        }
        if k == "KeyH"@ {
            assert("KeyH"@[0] != "Home"@[0]);
            assert("KeyH"@[0] != "Num1"@[0]);
            assert("KeyH"@[0] != "Num2"@[0]);
            assert("KeyH"@[0] != "Num3"@[0]);
            assert("KeyH"@[0] != "Num4"@[0]);
            assert("KeyH"@[0] != "Num5"@[0]);
            assert("KeyH"@[0] != "Num6"@[0]);
            assert("KeyH"@[0] != "Num7"@[0]);
            assert("KeyH"@[0] != "Num8"@[0]);
            assert("KeyH"@[0] != "Num9"@[0]);
            assert("KeyH"@[0] != "Num0"@[0]);
            assert("KeyH"@[3] != "KeyQ"@[3]);
            assert("KeyH"@[3] != "KeyW"@[3]);
            assert("KeyH"@[3] != "KeyE"@[3]);
            assert("KeyH"@[3] != "KeyR"@[3]);
            assert("KeyH"@[3] != "KeyT"@[3]);
            assert("KeyH"@[3] != "KeyY"@[3]);
            assert("KeyH"@[3] != "KeyU"@[3]);
            assert("KeyH"@[3] != "KeyI"@[3]);
            assert("KeyH"@[3] != "KeyO"@[3]);
            assert("KeyH"@[3] != "KeyP"@[3]);
            assert("KeyH"@[3] != "KeyA"@[3]);
            assert("KeyH"@[3] != "KeyS"@[3]);
            assert("KeyH"@[3] != "KeyD"@[3]);
            assert("KeyH"@[3] != "KeyF"@[3]);
            assert("KeyH"@[3] != "KeyG"@[3]);
        }
        if k == "KeyJ"@ {
            assert("KeyJ"@[0] != "Home"@[0]);
            assert("KeyJ"@[0] != "Num1"@[0]);
            assert("KeyJ"@[0] != "Num2"@[0]);
            assert("KeyJ"@[0] != "Num3"@[0]);
            assert("KeyJ"@[0] != "Num4"@[0]);
            assert("KeyJ"@[0] != "Num5"@[0]);
            assert("KeyJ"@[0] != "Num6"@[0]);
            assert("KeyJ"@[0] != "Num7"@[0]);
            assert("KeyJ"@[0] != "Num8"@[0]);
            assert("KeyJ"@[0] != "Num9"@[0]);
            assert("KeyJ"@[0] != "Num0"@[0]);
            assert("KeyJ"@[3] != "KeyQ"@[3]);
            assert("KeyJ"@[3] != "KeyW"@[3]);
            assert("KeyJ"@[3] != "KeyE"@[3]);
            assert("KeyJ"@[3] != "KeyR"@[3]);
            assert("KeyJ"@[3] != "KeyT"@[3]);
            assert("KeyJ"@[3] != "KeyY"@[3]);
            assert("KeyJ"@[3] != "KeyU"@[3]);
            assert("KeyJ"@[3] != "KeyI"@[3]);
            assert("KeyJ"@[3] != "KeyO"@[3]);
            assert("KeyJ"@[3] != "KeyP"@[3]);
            assert("KeyJ"@[3] != "KeyA"@[3]);
            assert("KeyJ"@[3] != "KeyS"@[3]);
            assert("KeyJ"@[3] != "KeyD"@[3]);
            assert("KeyJ"@[3] != "KeyF"@[3]);
            assert("KeyJ"@[3] != "KeyG"@[3]);
            assert("KeyJ"@[3] != "KeyH"@[3]);
        }
        if k == "KeyK"@ {
            assert("KeyK"@[0] != "Home"@[0]);
            assert("KeyK"@[0] != "Num1"@[0]);
            assert("KeyK"@[0] != "Num2"@[0]);
            assert("KeyK"@[0] != "Num3"@[0]);
            assert("KeyK"@[0] != "Num4"@[0]);
            assert("KeyK"@[0] != "Num5"@[0]);
            assert("KeyK"@[0] != "Num6"@[0]);
            assert("KeyK"@[0] != "Num7"@[0]);
            assert("KeyK"@[0] != "Num8"@[0]);
            assert("KeyK"@[0] != "Num9"@[0]);
            assert("KeyK"@[0] != "Num0"@[0]);
            assert("KeyK"@[3] != "KeyQ"@[3]);
            assert("KeyK"@[3] != "KeyW"@[3]);
            assert("KeyK"@[3] != "KeyE"@[3]);
            assert("KeyK"@[3] != "KeyR"@[3]);
            assert("KeyK"@[3] != "KeyT"@[3]);
            assert("KeyK"@[3] != "KeyY"@[3]);
            assert("KeyK"@[3] != "KeyU"@[3]);
            assert("KeyK"@[3] != "KeyI"@[3]);
            assert("KeyK"@[3] != "KeyO"@[3]);
            assert("KeyK"@[3] != "KeyP"@[3]);
            assert("KeyK"@[3] != "KeyA"@[3]);
            assert("KeyK"@[3] != "KeyS"@[3]);
            assert("KeyK"@[3] != "KeyD"@[3]);
            assert("KeyK"@[3] != "KeyF"@[3]);
            assert("KeyK"@[3] != "KeyG"@[3]);
            assert("KeyK"@[3] != "KeyH"@[3]);
            assert("KeyK"@[3] != "KeyJ"@[3]);
        }
        if k == "KeyL"@ {
            assert("KeyL"@[0] != "Home"@[0]);
            assert("KeyL"@[0] != "Num1"@[0]);
            assert("KeyL"@[0] != "Num2"@[0]);
            assert("KeyL"@[0] != "Num3"@[0]);
            assert("KeyL"@[0] != "Num4"@[0]);
            assert("KeyL"@[0] != "Num5"@[0]);
            assert("KeyL"@[0] != "Num6"@[0]);
            assert("KeyL"@[0] != "Num7"@[0]);
            assert("KeyL"@[0] != "Num8"@[0]);
            assert("KeyL"@[0] != "Num9"@[0]);
            assert("KeyL"@[0] != "Num0"@[0]);
            assert("KeyL"@[3] != "KeyQ"@[3]);
            assert("KeyL"@[3] != "KeyW"@[3]);
            assert("KeyL"@[3] != "KeyE"@[3]);
            assert("KeyL"@[3] != "KeyR"@[3]);
            assert("KeyL"@[3] != "KeyT"@[3]);
            assert("KeyL"@[3] != "KeyY"@[3]);
            assert("KeyL"@[3] != "KeyU"@[3]);
            assert("KeyL"@[3] != "KeyI"@[3]);
            assert("KeyL"@[3] != "KeyO"@[3]);
            assert("KeyL"@[3] != "KeyP"@[3]);
            assert("KeyL"@[3] != "KeyA"@[3]);
            assert("KeyL"@[3] != "KeyS"@[3]);
            assert("KeyL"@[3] != "KeyD"@[3]);
            assert("KeyL"@[3] != "KeyF"@[3]);
            assert("KeyL"@[3] != "KeyG"@[3]);
            assert("KeyL"@[3] != "KeyH"@[3]);
            assert("KeyL"@[3] != "KeyJ"@[3]);
            assert("KeyL"@[3] != "KeyK"@[3]);
        }
        if k == "Semicolon"@ {
            assert("SemiColon"@[0] != "Backspace"@[0]);
            assert("SemiColon"@[0] != "DownArrow"@[0]);
            assert("SemiColon"@[0] != "LeftArrow"@[0]);
            assert("SemiColon"@[0] != "MetaRight"@[0]);
            assert("SemiColon"@[1] != "ShiftLeft"@[1]);
            assert("SemiColon"@[0] != "BackQuote"@[0]);
        }
        if k == "Quote"@ {
            assert("Quote"@[0] != "AltGr"@[0]);
            assert("Quote"@[0] != "Space"@[0]);
            assert("Quote"@[0] != "Pause"@[0]);
            assert("Quote"@[0] != "Minus"@[0]);
            assert("Quote"@[0] != "Equal"@[0]);
        }
        if k == "Backslash"@ {
            assert("BackSlash"@[4] != "Backspace"@[4]);
            assert("BackSlash"@[0] != "DownArrow"@[0]);
            assert("BackSlash"@[0] != "LeftArrow"@[0]);
            assert("BackSlash"@[0] != "MetaRight"@[0]);
            assert("BackSlash"@[0] != "ShiftLeft"@[0]);
            assert("BackSlash"@[4] != "BackQuote"@[4]);
            assert("BackSlash"@[0] != "SemiColon"@[0]);
        }
        if k == "IntlBackslash"@ {
        }
        if k == "KeyZ"@ {
            assert("KeyZ"@[0] != "Home"@[0]);
            assert("KeyZ"@[0] != "Num1"@[0]);
            assert("KeyZ"@[0] != "Num2"@[0]);
            assert("KeyZ"@[0] != "Num3"@[0]);
            assert("KeyZ"@[0] != "Num4"@[0]);
            assert("KeyZ"@[0] != "Num5"@[0]);
            assert("KeyZ"@[0] != "Num6"@[0]);
            assert("KeyZ"@[0] != "Num7"@[0]);
            assert("KeyZ"@[0] != "Num8"@[0]);
            assert("KeyZ"@[0] != "Num9"@[0]);
            assert("KeyZ"@[0] != "Num0"@[0]);
            assert("KeyZ"@[3] != "KeyQ"@[3]);
            assert("KeyZ"@[3] != "KeyW"@[3]);
            assert("KeyZ"@[3] != "KeyE"@[3]);
            assert("KeyZ"@[3] != "KeyR"@[3]);
            assert("KeyZ"@[3] != "KeyT"@[3]);
            assert("KeyZ"@[3] != "KeyY"@[3]);
            assert("KeyZ"@[3] != "KeyU"@[3]);
            assert("KeyZ"@[3] != "KeyI"@[3]);
            assert("KeyZ"@[3] != "KeyO"@[3]);
            assert("KeyZ"@[3] != "KeyP"@[3]);
            assert("KeyZ"@[3] != "KeyA"@[3]);
            assert("KeyZ"@[3] != "KeyS"@[3]);
            assert("KeyZ"@[3] != "KeyD"@[3]);
            assert("KeyZ"@[3] != "KeyF"@[3]);
            assert("KeyZ"@[3] != "KeyG"@[3]);
            assert("KeyZ"@[3] != "KeyH"@[3]);
            assert("KeyZ"@[3] != "KeyJ"@[3]);
            assert("KeyZ"@[3] != "KeyK"@[3]);
            assert("KeyZ"@[3] != "KeyL"@[3]);
        }
}

proof fn lemma_rdev_round_trip_3(k: Seq<char>)
    requires
        rdev_key_of_3(k) is Some,
        !rdev_unknown_code_key(k),
    ensures
        key_of_rdev(rdev_key_of_3(k).unwrap()) == Some(k),
{
    reveal_strlit("Alt");
    reveal_strlit("AltGr");
    reveal_strlit("AudioVolumeDown");
    reveal_strlit("AudioVolumeMute");
    reveal_strlit("AudioVolumeUp");
    reveal_strlit("BackQuote");
    reveal_strlit("BackSlash");
    reveal_strlit("Backspace");
    reveal_strlit("CapsLock");
    reveal_strlit("Comma");
    reveal_strlit("ControlLeft");
    reveal_strlit("ControlRight");
    reveal_strlit("Delete");
    reveal_strlit("Dot");
    reveal_strlit("DownArrow");
    reveal_strlit("End");
    reveal_strlit("Equal");
    reveal_strlit("Escape");
    reveal_strlit("F1");
    reveal_strlit("F10");
    reveal_strlit("F11");
    reveal_strlit("F12");
    reveal_strlit("F13");
    reveal_strlit("F14");
    reveal_strlit("F15");
    reveal_strlit("F16");
    reveal_strlit("F17");
    reveal_strlit("F18");
    reveal_strlit("F19");
    reveal_strlit("F2");
    reveal_strlit("F20");
    reveal_strlit("F21");
    reveal_strlit("F22");
    reveal_strlit("F23");
    reveal_strlit("F24");
    reveal_strlit("F3");
    reveal_strlit("F4");
    reveal_strlit("F5");
    reveal_strlit("F6");
    reveal_strlit("F7");
    reveal_strlit("F8");
    reveal_strlit("F9");
    reveal_strlit("Fn");
    reveal_strlit("Function");
    reveal_strlit("Home");
    reveal_strlit("Insert");
    reveal_strlit("IntlBackslash");
    reveal_strlit("KeyA");
    reveal_strlit("KeyB");
    reveal_strlit("KeyC");
    reveal_strlit("KeyD");
    reveal_strlit("KeyE");
    reveal_strlit("KeyF");
    reveal_strlit("KeyG");
    reveal_strlit("KeyH");
    reveal_strlit("KeyI");
    reveal_strlit("KeyJ");
    reveal_strlit("KeyK");
    reveal_strlit("KeyL");
    reveal_strlit("KeyM");
    reveal_strlit("KeyN");
    reveal_strlit("KeyO");
    reveal_strlit("KeyP");
    reveal_strlit("KeyQ");
    reveal_strlit("KeyR");
    reveal_strlit("KeyS");
    reveal_strlit("KeyT");
    reveal_strlit("KeyU");
    reveal_strlit("KeyV");
    reveal_strlit("KeyW");
    reveal_strlit("KeyX");
    reveal_strlit("KeyY");
    reveal_strlit("KeyZ");
    reveal_strlit("Kp0");
    reveal_strlit("Kp1");
    reveal_strlit("Kp2");
    reveal_strlit("Kp3");
    reveal_strlit("Kp4");
    reveal_strlit("Kp5");
    reveal_strlit("Kp6");
    reveal_strlit("Kp7");
    reveal_strlit("Kp8");
    reveal_strlit("Kp9");
    reveal_strlit("KpDelete");
    reveal_strlit("KpDivide");
    reveal_strlit("KpMinus");
    reveal_strlit("KpMultiply");
    reveal_strlit("KpPlus");
    reveal_strlit("KpReturn");
    reveal_strlit("LeftArrow");
    reveal_strlit("LeftBracket");
    reveal_strlit("MetaLeft");
    reveal_strlit("MetaRight");
    reveal_strlit("Minus");
    reveal_strlit("Num0");
    reveal_strlit("Num1");
    reveal_strlit("Num2");
    reveal_strlit("Num3");
    reveal_strlit("Num4");
    reveal_strlit("Num5");
    reveal_strlit("Num6");
    reveal_strlit("Num7");
    reveal_strlit("Num8");
    reveal_strlit("Num9");
    reveal_strlit("NumLock");
    reveal_strlit("Numpad0");
    reveal_strlit("Numpad1");
    reveal_strlit("Numpad2");
    reveal_strlit("Numpad3");
    reveal_strlit("Numpad4");
    reveal_strlit("Numpad5");
    reveal_strlit("Numpad6");
    reveal_strlit("Numpad7");
    reveal_strlit("Numpad8");
    reveal_strlit("Numpad9");
    reveal_strlit("NumpadAdd");
    reveal_strlit("NumpadBackspace");
    reveal_strlit("NumpadDivide");
    reveal_strlit("NumpadEnter");
    reveal_strlit("NumpadMultiply");
    reveal_strlit("NumpadSubtract");
    reveal_strlit("PageDown");
    reveal_strlit("PageUp");
    reveal_strlit("Pause");
    reveal_strlit("Period");
    reveal_strlit("PrintScreen");
    reveal_strlit("Quote");
    reveal_strlit("Return");
    reveal_strlit("RightArrow");
    reveal_strlit("RightBracket");
    reveal_strlit("ScrollLock");
    reveal_strlit("SemiColon");
    reveal_strlit("ShiftLeft");
    reveal_strlit("ShiftRight");
    reveal_strlit("Slash");
    reveal_strlit("Space");
    reveal_strlit("Tab");
    reveal_strlit("UpArrow");
    reveal_strlit("VolumeDown");
    reveal_strlit("VolumeMute");
    reveal_strlit("VolumeUp");
    assert("Alt"@.len() == 3);
    assert("AltGr"@.len() == 5);
    assert("AudioVolumeDown"@.len() == 15);
    assert("AudioVolumeMute"@.len() == 15);
    assert("AudioVolumeUp"@.len() == 13);
    assert("BackQuote"@.len() == 9);
    assert("BackSlash"@.len() == 9);
    assert("Backspace"@.len() == 9);
    assert("CapsLock"@.len() == 8);
    assert("Comma"@.len() == 5);
    assert("ControlLeft"@.len() == 11);
    assert("ControlRight"@.len() == 12);
    assert("Delete"@.len() == 6);
    assert("Dot"@.len() == 3);
    assert("DownArrow"@.len() == 9);
    assert("End"@.len() == 3);
    assert("Equal"@.len() == 5);
    assert("Escape"@.len() == 6);
    assert("F1"@.len() == 2);
    assert("F10"@.len() == 3);
    assert("F11"@.len() == 3);
    assert("F12"@.len() == 3);
    assert("F13"@.len() == 3);
    assert("F14"@.len() == 3);
    assert("F15"@.len() == 3);
    assert("F16"@.len() == 3);
    assert("F17"@.len() == 3);
    assert("F18"@.len() == 3);
    assert("F19"@.len() == 3);
    assert("F2"@.len() == 2);
    assert("F20"@.len() == 3);
    assert("F21"@.len() == 3);
    assert("F22"@.len() == 3);
    assert("F23"@.len() == 3);
    assert("F24"@.len() == 3);
    assert("F3"@.len() == 2);
    assert("F4"@.len() == 2);
    assert("F5"@.len() == 2);
    assert("F6"@.len() == 2);
    assert("F7"@.len() == 2);
    assert("F8"@.len() == 2);
    assert("F9"@.len() == 2);
    assert("Fn"@.len() == 2);
    assert("Function"@.len() == 8);
    assert("Home"@.len() == 4);
    assert("Insert"@.len() == 6);
    assert("IntlBackslash"@.len() == 13);
    assert("KeyA"@.len() == 4);
    assert("KeyB"@.len() == 4);
    assert("KeyC"@.len() == 4);
    assert("KeyD"@.len() == 4);
    assert("KeyE"@.len() == 4);
    assert("KeyF"@.len() == 4);
    assert("KeyG"@.len() == 4);
    assert("KeyH"@.len() == 4);
    assert("KeyI"@.len() == 4);
    assert("KeyJ"@.len() == 4);
    assert("KeyK"@.len() == 4);
    assert("KeyL"@.len() == 4);
    assert("KeyM"@.len() == 4);
    assert("KeyN"@.len() == 4);
    assert("KeyO"@.len() == 4);
    assert("KeyP"@.len() == 4);
    assert("KeyQ"@.len() == 4);
    assert("KeyR"@.len() == 4);
    assert("KeyS"@.len() == 4);
    assert("KeyT"@.len() == 4);
    assert("KeyU"@.len() == 4);
    assert("KeyV"@.len() == 4);
    assert("KeyW"@.len() == 4);
    assert("KeyX"@.len() == 4);
    assert("KeyY"@.len() == 4);
    assert("KeyZ"@.len() == 4);
    assert("Kp0"@.len() == 3);
    assert("Kp1"@.len() == 3);
    assert("Kp2"@.len() == 3);
    assert("Kp3"@.len() == 3);
    assert("Kp4"@.len() == 3);
    assert("Kp5"@.len() == 3);
    assert("Kp6"@.len() == 3);
    assert("Kp7"@.len() == 3);
    assert("Kp8"@.len() == 3);
    assert("Kp9"@.len() == 3);
    assert("KpDelete"@.len() == 8);
    assert("KpDivide"@.len() == 8);
    assert("KpMinus"@.len() == 7);
    assert("KpMultiply"@.len() == 10);
    assert("KpPlus"@.len() == 6);
    assert("KpReturn"@.len() == 8);
    assert("LeftArrow"@.len() == 9);
    assert("LeftBracket"@.len() == 11);
    assert("MetaLeft"@.len() == 8);
    assert("MetaRight"@.len() == 9);
    assert("Minus"@.len() == 5);
    assert("Num0"@.len() == 4);
    assert("Num1"@.len() == 4);
    assert("Num2"@.len() == 4);
    assert("Num3"@.len() == 4);
    assert("Num4"@.len() == 4);
    assert("Num5"@.len() == 4);
    assert("Num6"@.len() == 4);
    assert("Num7"@.len() == 4);
    assert("Num8"@.len() == 4);
    assert("Num9"@.len() == 4);
    assert("NumLock"@.len() == 7);
    assert("Numpad0"@.len() == 7);
    assert("Numpad1"@.len() == 7);
    assert("Numpad2"@.len() == 7);
    assert("Numpad3"@.len() == 7);
    assert("Numpad4"@.len() == 7);
    assert("Numpad5"@.len() == 7);
    assert("Numpad6"@.len() == 7);
    assert("Numpad7"@.len() == 7);
    assert("Numpad8"@.len() == 7);
    assert("Numpad9"@.len() == 7);
    assert("NumpadAdd"@.len() == 9);
    assert("NumpadBackspace"@.len() == 15);
    assert("NumpadDivide"@.len() == 12);
    assert("NumpadEnter"@.len() == 11);
    assert("NumpadMultiply"@.len() == 14);
    assert("NumpadSubtract"@.len() == 14);
    assert("PageDown"@.len() == 8);
    assert("PageUp"@.len() == 6);
    assert("Pause"@.len() == 5);
    assert("Period"@.len() == 6);
    assert("PrintScreen"@.len() == 11);
    assert("Quote"@.len() == 5);
    assert("Return"@.len() == 6);
    assert("RightArrow"@.len() == 10);
    assert("RightBracket"@.len() == 12);
    assert("ScrollLock"@.len() == 10);
    assert("SemiColon"@.len() == 9);
    assert("ShiftLeft"@.len() == 9);
    assert("ShiftRight"@.len() == 10);
    assert("Slash"@.len() == 5);
    assert("Space"@.len() == 5);
    assert("Tab"@.len() == 3);
    assert("UpArrow"@.len() == 7);
    assert("VolumeDown"@.len() == 10);
    assert("VolumeMute"@.len() == 10);
    assert("VolumeUp"@.len() == 8);
        if k == "KeyX"@ {
            assert("KeyX"@[0] != "Home"@[0]);
            assert("KeyX"@[0] != "Num1"@[0]);
            assert("KeyX"@[0] != "Num2"@[0]);
            assert("KeyX"@[0] != "Num3"@[0]);
            assert("KeyX"@[0] != "Num4"@[0]);
            assert("KeyX"@[0] != "Num5"@[0]);
            assert("KeyX"@[0] != "Num6"@[0]);
            assert("KeyX"@[0] != "Num7"@[0]);
            assert("KeyX"@[0] != "Num8"@[0]);
            assert("KeyX"@[0] != "Num9"@[0]);
            assert("KeyX"@[0] != "Num0"@[0]);
            assert("KeyX"@[3] != "KeyQ"@[3]);
            assert("KeyX"@[3] != "KeyW"@[3]);
            assert("KeyX"@[3] != "KeyE"@[3]);
            assert("KeyX"@[3] != "KeyR"@[3]);
            assert("KeyX"@[3] != "KeyT"@[3]);
            assert("KeyX"@[3] != "KeyY"@[3]);
            assert("KeyX"@[3] != "KeyU"@[3]);
            assert("KeyX"@[3] != "KeyI"@[3]);
            assert("KeyX"@[3] != "KeyO"@[3]);
            assert("KeyX"@[3] != "KeyP"@[3]);
            assert("KeyX"@[3] != "KeyA"@[3]);
            assert("KeyX"@[3] != "KeyS"@[3]);
            assert("KeyX"@[3] != "KeyD"@[3]);
            assert("KeyX"@[3] != "KeyF"@[3]);
            assert("KeyX"@[3] != "KeyG"@[3]);
            assert("KeyX"@[3] != "KeyH"@[3]);
            assert("KeyX"@[3] != "KeyJ"@[3]);
            assert("KeyX"@[3] != "KeyK"@[3]);
            assert("KeyX"@[3] != "KeyL"@[3]);
            assert("KeyX"@[3] != "KeyZ"@[3]);
        }
        if k == "KeyC"@ {
            assert("KeyC"@[0] != "Home"@[0]);
            assert("KeyC"@[0] != "Num1"@[0]);
            assert("KeyC"@[0] != "Num2"@[0]);
            assert("KeyC"@[0] != "Num3"@[0]);
            assert("KeyC"@[0] != "Num4"@[0]);
            assert("KeyC"@[0] != "Num5"@[0]);
            assert("KeyC"@[0] != "Num6"@[0]);
            assert("KeyC"@[0] != "Num7"@[0]);
            assert("KeyC"@[0] != "Num8"@[0]);
            assert("KeyC"@[0] != "Num9"@[0]);
            assert("KeyC"@[0] != "Num0"@[0]);
            assert("KeyC"@[3] != "KeyQ"@[3]);
            assert("KeyC"@[3] != "KeyW"@[3]);
            assert("KeyC"@[3] != "KeyE"@[3]);
            assert("KeyC"@[3] != "KeyR"@[3]);
            assert("KeyC"@[3] != "KeyT"@[3]);
            assert("KeyC"@[3] != "KeyY"@[3]);
            assert("KeyC"@[3] != "KeyU"@[3]);
            assert("KeyC"@[3] != "KeyI"@[3]);
            assert("KeyC"@[3] != "KeyO"@[3]);
            assert("KeyC"@[3] != "KeyP"@[3]);
            assert("KeyC"@[3] != "KeyA"@[3]);
            assert("KeyC"@[3] != "KeyS"@[3]);
            assert("KeyC"@[3] != "KeyD"@[3]);
            assert("KeyC"@[3] != "KeyF"@[3]);
            assert("KeyC"@[3] != "KeyG"@[3]);
            assert("KeyC"@[3] != "KeyH"@[3]);
            assert("KeyC"@[3] != "KeyJ"@[3]);
            assert("KeyC"@[3] != "KeyK"@[3]);
            assert("KeyC"@[3] != "KeyL"@[3]);
            assert("KeyC"@[3] != "KeyZ"@[3]);
            assert("KeyC"@[3] != "KeyX"@[3]);
        }
        if k == "KeyV"@ {
            assert("KeyV"@[0] != "Home"@[0]);
            assert("KeyV"@[0] != "Num1"@[0]);
            assert("KeyV"@[0] != "Num2"@[0]);
            assert("KeyV"@[0] != "Num3"@[0]);
            assert("KeyV"@[0] != "Num4"@[0]);
            assert("KeyV"@[0] != "Num5"@[0]);
            assert("KeyV"@[0] != "Num6"@[0]);
            assert("KeyV"@[0] != "Num7"@[0]);
            assert("KeyV"@[0] != "Num8"@[0]);
            assert("KeyV"@[0] != "Num9"@[0]);
            assert("KeyV"@[0] != "Num0"@[0]);
            assert("KeyV"@[3] != "KeyQ"@[3]);
            assert("KeyV"@[3] != "KeyW"@[3]);
            assert("KeyV"@[3] != "KeyE"@[3]);
            assert("KeyV"@[3] != "KeyR"@[3]);
            assert("KeyV"@[3] != "KeyT"@[3]);
            assert("KeyV"@[3] != "KeyY"@[3]);
            assert("KeyV"@[3] != "KeyU"@[3]);
            assert("KeyV"@[3] != "KeyI"@[3]);
            assert("KeyV"@[3] != "KeyO"@[3]);
            assert("KeyV"@[3] != "KeyP"@[3]);
            assert("KeyV"@[3] != "KeyA"@[3]);
            assert("KeyV"@[3] != "KeyS"@[3]);
            assert("KeyV"@[3] != "KeyD"@[3]);
            assert("KeyV"@[3] != "KeyF"@[3]);
            assert("KeyV"@[3] != "KeyG"@[3]);
            assert("KeyV"@[3] != "KeyH"@[3]);
            assert("KeyV"@[3] != "KeyJ"@[3]);
            assert("KeyV"@[3] != "KeyK"@[3]);
            assert("KeyV"@[3] != "KeyL"@[3]);
            assert("KeyV"@[3] != "KeyZ"@[3]);
            assert("KeyV"@[3] != "KeyX"@[3]);
            assert("KeyV"@[3] != "KeyC"@[3]);
        }
        if k == "KeyB"@ {
            assert("KeyB"@[0] != "Home"@[0]);
            assert("KeyB"@[0] != "Num1"@[0]);
            assert("KeyB"@[0] != "Num2"@[0]);
            assert("KeyB"@[0] != "Num3"@[0]);
            assert("KeyB"@[0] != "Num4"@[0]);
            assert("KeyB"@[0] != "Num5"@[0]);
            assert("KeyB"@[0] != "Num6"@[0]);
            assert("KeyB"@[0] != "Num7"@[0]);
            assert("KeyB"@[0] != "Num8"@[0]);
            assert("KeyB"@[0] != "Num9"@[0]);
            assert("KeyB"@[0] != "Num0"@[0]);
            assert("KeyB"@[3] != "KeyQ"@[3]);
            assert("KeyB"@[3] != "KeyW"@[3]);
            assert("KeyB"@[3] != "KeyE"@[3]);
            assert("KeyB"@[3] != "KeyR"@[3]);
            assert("KeyB"@[3] != "KeyT"@[3]);
            assert("KeyB"@[3] != "KeyY"@[3]);
            assert("KeyB"@[3] != "KeyU"@[3]);
            assert("KeyB"@[3] != "KeyI"@[3]);
            assert("KeyB"@[3] != "KeyO"@[3]);
            assert("KeyB"@[3] != "KeyP"@[3]);
            assert("KeyB"@[3] != "KeyA"@[3]);
            assert("KeyB"@[3] != "KeyS"@[3]);
            assert("KeyB"@[3] != "KeyD"@[3]);
            assert("KeyB"@[3] != "KeyF"@[3]);
            assert("KeyB"@[3] != "KeyG"@[3]);
            assert("KeyB"@[3] != "KeyH"@[3]);
            assert("KeyB"@[3] != "KeyJ"@[3]);
            assert("KeyB"@[3] != "KeyK"@[3]);
            assert("KeyB"@[3] != "KeyL"@[3]);
            assert("KeyB"@[3] != "KeyZ"@[3]);
            assert("KeyB"@[3] != "KeyX"@[3]);
            assert("KeyB"@[3] != "KeyC"@[3]);
            assert("KeyB"@[3] != "KeyV"@[3]);
        }
        if k == "KeyN"@ {
            assert("KeyN"@[0] != "Home"@[0]);
            assert("KeyN"@[0] != "Num1"@[0]);
            assert("KeyN"@[0] != "Num2"@[0]);
            assert("KeyN"@[0] != "Num3"@[0]);
            assert("KeyN"@[0] != "Num4"@[0]);
            assert("KeyN"@[0] != "Num5"@[0]);
            assert("KeyN"@[0] != "Num6"@[0]);
            assert("KeyN"@[0] != "Num7"@[0]);
            assert("KeyN"@[0] != "Num8"@[0]);
            assert("KeyN"@[0] != "Num9"@[0]);
            assert("KeyN"@[0] != "Num0"@[0]);
            assert("KeyN"@[3] != "KeyQ"@[3]);
            assert("KeyN"@[3] != "KeyW"@[3]);
            assert("KeyN"@[3] != "KeyE"@[3]);
            assert("KeyN"@[3] != "KeyR"@[3]);
            assert("KeyN"@[3] != "KeyT"@[3]);
            assert("KeyN"@[3] != "KeyY"@[3]);
            assert("KeyN"@[3] != "KeyU"@[3]);
            assert("KeyN"@[3] != "KeyI"@[3]);
            assert("KeyN"@[3] != "KeyO"@[3]);
            assert("KeyN"@[3] != "KeyP"@[3]);
            assert("KeyN"@[3] != "KeyA"@[3]);
            assert("KeyN"@[3] != "KeyS"@[3]);
            assert("KeyN"@[3] != "KeyD"@[3]);
            assert("KeyN"@[3] != "KeyF"@[3]);
            assert("KeyN"@[3] != "KeyG"@[3]);
            assert("KeyN"@[3] != "KeyH"@[3]);
            assert("KeyN"@[3] != "KeyJ"@[3]);
            assert("KeyN"@[3] != "KeyK"@[3]);
            assert("KeyN"@[3] != "KeyL"@[3]);
            assert("KeyN"@[3] != "KeyZ"@[3]);
            assert("KeyN"@[3] != "KeyX"@[3]);
            assert("KeyN"@[3] != "KeyC"@[3]);
            assert("KeyN"@[3] != "KeyV"@[3]);
            assert("KeyN"@[3] != "KeyB"@[3]);
        }
        if k == "KeyM"@ {
            assert("KeyM"@[0] != "Home"@[0]);
            assert("KeyM"@[0] != "Num1"@[0]);
            assert("KeyM"@[0] != "Num2"@[0]);
            assert("KeyM"@[0] != "Num3"@[0]);
            assert("KeyM"@[0] != "Num4"@[0]);
            assert("KeyM"@[0] != "Num5"@[0]);
            assert("KeyM"@[0] != "Num6"@[0]);
            assert("KeyM"@[0] != "Num7"@[0]);
            assert("KeyM"@[0] != "Num8"@[0]);
            assert("KeyM"@[0] != "Num9"@[0]);
            assert("KeyM"@[0] != "Num0"@[0]);
            assert("KeyM"@[3] != "KeyQ"@[3]);
            assert("KeyM"@[3] != "KeyW"@[3]);
            assert("KeyM"@[3] != "KeyE"@[3]);
            assert("KeyM"@[3] != "KeyR"@[3]);
            assert("KeyM"@[3] != "KeyT"@[3]);
            assert("KeyM"@[3] != "KeyY"@[3]);
            assert("KeyM"@[3] != "KeyU"@[3]);
            assert("KeyM"@[3] != "KeyI"@[3]);
            assert("KeyM"@[3] != "KeyO"@[3]);
            assert("KeyM"@[3] != "KeyP"@[3]);
            assert("KeyM"@[3] != "KeyA"@[3]);
            assert("KeyM"@[3] != "KeyS"@[3]);
            assert("KeyM"@[3] != "KeyD"@[3]);
            assert("KeyM"@[3] != "KeyF"@[3]);
            assert("KeyM"@[3] != "KeyG"@[3]);
            assert("KeyM"@[3] != "KeyH"@[3]);
            assert("KeyM"@[3] != "KeyJ"@[3]);
            assert("KeyM"@[3] != "KeyK"@[3]);
            assert("KeyM"@[3] != "KeyL"@[3]);
            assert("KeyM"@[3] != "KeyZ"@[3]);
            assert("KeyM"@[3] != "KeyX"@[3]);
            assert("KeyM"@[3] != "KeyC"@[3]);
            assert("KeyM"@[3] != "KeyV"@[3]);
            assert("KeyM"@[3] != "KeyB"@[3]);
            assert("KeyM"@[3] != "KeyN"@[3]);
        }
        if k == "Comma"@ {
            assert("Comma"@[0] != "AltGr"@[0]);
            assert("Comma"@[0] != "Space"@[0]);
            assert("Comma"@[0] != "Pause"@[0]);
            assert("Comma"@[0] != "Minus"@[0]);
            assert("Comma"@[0] != "Equal"@[0]);
            assert("Comma"@[0] != "Quote"@[0]);
        }
        if k == "Period"@ {
            assert("Dot"@[0] != "Alt"@[0]);
            assert("Dot"@[0] != "End"@[0]);
            assert("Dot"@[0] != "F10"@[0]);
            assert("Dot"@[0] != "F11"@[0]);
            assert("Dot"@[0] != "F12"@[0]);
            assert("Dot"@[0] != "F13"@[0]);
            assert("Dot"@[0] != "F14"@[0]);
            assert("Dot"@[0] != "F15"@[0]);
            assert("Dot"@[0] != "F16"@[0]);
            assert("Dot"@[0] != "F17"@[0]);
            assert("Dot"@[0] != "F18"@[0]);
            assert("Dot"@[0] != "F19"@[0]);
            assert("Dot"@[0] != "F20"@[0]);
            assert("Dot"@[0] != "F21"@[0]);
            assert("Dot"@[0] != "F22"@[0]);
            assert("Dot"@[0] != "F23"@[0]);
            assert("Dot"@[0] != "F24"@[0]);
            assert("Dot"@[0] != "Tab"@[0]);
        }
        if k == "Slash"@ {
            assert("Slash"@[0] != "AltGr"@[0]);
            assert("Slash"@[1] != "Space"@[1]);
            assert("Slash"@[0] != "Pause"@[0]);
            assert("Slash"@[0] != "Minus"@[0]);
            assert("Slash"@[0] != "Equal"@[0]);
            assert("Slash"@[0] != "Quote"@[0]);
            assert("Slash"@[0] != "Comma"@[0]);
        }
        if k == "Insert"@ {
            assert("Insert"@[0] != "Delete"@[0]);
            assert("Insert"@[0] != "Escape"@[0]);
            assert("Insert"@[0] != "PageUp"@[0]);
            assert("Insert"@[0] != "Return"@[0]);
        }
        if k == "NumpadEnter"@ {
            assert("KpReturn"@[0] != "CapsLock"@[0]);
            assert("KpReturn"@[0] != "MetaLeft"@[0]);
            assert("KpReturn"@[0] != "PageDown"@[0]);
        }
        if k == "NumpadSubtract"@ {
            assert("KpMinus"@[0] != "UpArrow"@[0]);
            assert("KpMinus"@[0] != "NumLock"@[0]);
        }
        if k == "NumpadAdd"@ {
            assert("KpPlus"@[0] != "Delete"@[0]);
            assert("KpPlus"@[0] != "Escape"@[0]);
            assert("KpPlus"@[0] != "PageUp"@[0]);
            assert("KpPlus"@[0] != "Return"@[0]);
            assert("KpPlus"@[0] != "Insert"@[0]);
        }
        if k == "NumpadMultiply"@ {
            assert("KpMultiply"@[0] != "RightArrow"@[0]);
            assert("KpMultiply"@[0] != "ShiftRight"@[0]);
            assert("KpMultiply"@[0] != "ScrollLock"@[0]);
        }
        if k == "NumpadDivide"@ {
            assert("KpDivide"@[0] != "CapsLock"@[0]);
            assert("KpDivide"@[0] != "MetaLeft"@[0]);
            assert("KpDivide"@[0] != "PageDown"@[0]);
            assert("KpDivide"@[2] != "KpReturn"@[2]);
        }
        if k == "Numpad0"@ {
            assert("Kp0"@[0] != "Alt"@[0]);
            assert("Kp0"@[0] != "End"@[0]);
            assert("Kp0"@[0] != "F10"@[0]);
            assert("Kp0"@[0] != "F11"@[0]);
            assert("Kp0"@[0] != "F12"@[0]);
            assert("Kp0"@[0] != "F13"@[0]);
            assert("Kp0"@[0] != "F14"@[0]);
            assert("Kp0"@[0] != "F15"@[0]);
            assert("Kp0"@[0] != "F16"@[0]);
            assert("Kp0"@[0] != "F17"@[0]);
            assert("Kp0"@[0] != "F18"@[0]);
            assert("Kp0"@[0] != "F19"@[0]);
            assert("Kp0"@[0] != "F20"@[0]);
            assert("Kp0"@[0] != "F21"@[0]);
            assert("Kp0"@[0] != "F22"@[0]);
            assert("Kp0"@[0] != "F23"@[0]);
            assert("Kp0"@[0] != "F24"@[0]);
            assert("Kp0"@[0] != "Tab"@[0]);
            assert("Kp0"@[0] != "Dot"@[0]);
        }
        if k == "Numpad1"@ {
            assert("Kp1"@[0] != "Alt"@[0]);
            assert("Kp1"@[0] != "End"@[0]);
            assert("Kp1"@[0] != "F10"@[0]);
            assert("Kp1"@[0] != "F11"@[0]);
            assert("Kp1"@[0] != "F12"@[0]);
            assert("Kp1"@[0] != "F13"@[0]);
            assert("Kp1"@[0] != "F14"@[0]);
            assert("Kp1"@[0] != "F15"@[0]);
            assert("Kp1"@[0] != "F16"@[0]);
            assert("Kp1"@[0] != "F17"@[0]);
            assert("Kp1"@[0] != "F18"@[0]);
            assert("Kp1"@[0] != "F19"@[0]);
            assert("Kp1"@[0] != "F20"@[0]);
            assert("Kp1"@[0] != "F21"@[0]);
            assert("Kp1"@[0] != "F22"@[0]);
            assert("Kp1"@[0] != "F23"@[0]);
            assert("Kp1"@[0] != "F24"@[0]);
            assert("Kp1"@[0] != "Tab"@[0]);
            assert("Kp1"@[0] != "Dot"@[0]);
            assert("Kp1"@[2] != "Kp0"@[2]);
        }
        if k == "Numpad2"@ {
            assert("Kp2"@[0] != "Alt"@[0]);
            assert("Kp2"@[0] != "End"@[0]);
            assert("Kp2"@[0] != "F10"@[0]);
            assert("Kp2"@[0] != "F11"@[0]);
            assert("Kp2"@[0] != "F12"@[0]);
            assert("Kp2"@[0] != "F13"@[0]);
            assert("Kp2"@[0] != "F14"@[0]);
            assert("Kp2"@[0] != "F15"@[0]);
            assert("Kp2"@[0] != "F16"@[0]);
            assert("Kp2"@[0] != "F17"@[0]);
            assert("Kp2"@[0] != "F18"@[0]);
            assert("Kp2"@[0] != "F19"@[0]);
            assert("Kp2"@[0] != "F20"@[0]);
            assert("Kp2"@[0] != "F21"@[0]);
            assert("Kp2"@[0] != "F22"@[0]);
            assert("Kp2"@[0] != "F23"@[0]);
            assert("Kp2"@[0] != "F24"@[0]);
            assert("Kp2"@[0] != "Tab"@[0]);
            assert("Kp2"@[0] != "Dot"@[0]);
            assert("Kp2"@[2] != "Kp0"@[2]);
            assert("Kp2"@[2] != "Kp1"@[2]);
        }
        if k == "Numpad3"@ {
            assert("Kp3"@[0] != "Alt"@[0]);
            assert("Kp3"@[0] != "End"@[0]);
            assert("Kp3"@[0] != "F10"@[0]);
            assert("Kp3"@[0] != "F11"@[0]);
            assert("Kp3"@[0] != "F12"@[0]);
            assert("Kp3"@[0] != "F13"@[0]);
            assert("Kp3"@[0] != "F14"@[0]);
            assert("Kp3"@[0] != "F15"@[0]);
            assert("Kp3"@[0] != "F16"@[0]);
            assert("Kp3"@[0] != "F17"@[0]);
            assert("Kp3"@[0] != "F18"@[0]);
            assert("Kp3"@[0] != "F19"@[0]);
            assert("Kp3"@[0] != "F20"@[0]);
            assert("Kp3"@[0] != "F21"@[0]);
            assert("Kp3"@[0] != "F22"@[0]);
            assert("Kp3"@[0] != "F23"@[0]);
            assert("Kp3"@[0] != "F24"@[0]);
            assert("Kp3"@[0] != "Tab"@[0]);
            assert("Kp3"@[0] != "Dot"@[0]);
            assert("Kp3"@[2] != "Kp0"@[2]);
            assert("Kp3"@[2] != "Kp1"@[2]);
            assert("Kp3"@[2] != "Kp2"@[2]);
        }
        if k == "Numpad4"@ {
            assert("Kp4"@[0] != "Alt"@[0]);
            assert("Kp4"@[0] != "End"@[0]);
            assert("Kp4"@[0] != "F10"@[0]);
            assert("Kp4"@[0] != "F11"@[0]);
            assert("Kp4"@[0] != "F12"@[0]);
            assert("Kp4"@[0] != "F13"@[0]);
            assert("Kp4"@[0] != "F14"@[0]);
            assert("Kp4"@[0] != "F15"@[0]);
            assert("Kp4"@[0] != "F16"@[0]);
            assert("Kp4"@[0] != "F17"@[0]);
            assert("Kp4"@[0] != "F18"@[0]);
            assert("Kp4"@[0] != "F19"@[0]);
            assert("Kp4"@[0] != "F20"@[0]);
            assert("Kp4"@[0] != "F21"@[0]);
            assert("Kp4"@[0] != "F22"@[0]);
            assert("Kp4"@[0] != "F23"@[0]);
            assert("Kp4"@[0] != "F24"@[0]);
            assert("Kp4"@[0] != "Tab"@[0]);
            assert("Kp4"@[0] != "Dot"@[0]);
            assert("Kp4"@[2] != "Kp0"@[2]);
            assert("Kp4"@[2] != "Kp1"@[2]);
            assert("Kp4"@[2] != "Kp2"@[2]);
            assert("Kp4"@[2] != "Kp3"@[2]);
        }
        if k == "Numpad5"@ {
            assert("Kp5"@[0] != "Alt"@[0]);
            assert("Kp5"@[0] != "End"@[0]);
            assert("Kp5"@[0] != "F10"@[0]);
            assert("Kp5"@[0] != "F11"@[0]);
            assert("Kp5"@[0] != "F12"@[0]);
            assert("Kp5"@[0] != "F13"@[0]);
            assert("Kp5"@[0] != "F14"@[0]);
            assert("Kp5"@[0] != "F15"@[0]);
            assert("Kp5"@[0] != "F16"@[0]);
            assert("Kp5"@[0] != "F17"@[0]);
            assert("Kp5"@[0] != "F18"@[0]);
            assert("Kp5"@[0] != "F19"@[0]);
            assert("Kp5"@[0] != "F20"@[0]);
            assert("Kp5"@[0] != "F21"@[0]);
            assert("Kp5"@[0] != "F22"@[0]);
            assert("Kp5"@[0] != "F23"@[0]);
            assert("Kp5"@[0] != "F24"@[0]);
            assert("Kp5"@[0] != "Tab"@[0]);
            assert("Kp5"@[0] != "Dot"@[0]);
            assert("Kp5"@[2] != "Kp0"@[2]);
            assert("Kp5"@[2] != "Kp1"@[2]);
            assert("Kp5"@[2] != "Kp2"@[2]);
            assert("Kp5"@[2] != "Kp3"@[2]);
            assert("Kp5"@[2] != "Kp4"@[2]);
        }
        if k == "Numpad6"@ {
            assert("Kp6"@[0] != "Alt"@[0]);
            assert("Kp6"@[0] != "End"@[0]);
            assert("Kp6"@[0] != "F10"@[0]);
            assert("Kp6"@[0] != "F11"@[0]);
            assert("Kp6"@[0] != "F12"@[0]);
            assert("Kp6"@[0] != "F13"@[0]);
            assert("Kp6"@[0] != "F14"@[0]);
            assert("Kp6"@[0] != "F15"@[0]);
            assert("Kp6"@[0] != "F16"@[0]);
            assert("Kp6"@[0] != "F17"@[0]);
            assert("Kp6"@[0] != "F18"@[0]);
            assert("Kp6"@[0] != "F19"@[0]);
            assert("Kp6"@[0] != "F20"@[0]);
            assert("Kp6"@[0] != "F21"@[0]);
            assert("Kp6"@[0] != "F22"@[0]);
            assert("Kp6"@[0] != "F23"@[0]);
            assert("Kp6"@[0] != "F24"@[0]);
            assert("Kp6"@[0] != "Tab"@[0]);
            assert("Kp6"@[0] != "Dot"@[0]);
            assert("Kp6"@[2] != "Kp0"@[2]);
            assert("Kp6"@[2] != "Kp1"@[2]);
            assert("Kp6"@[2] != "Kp2"@[2]);
            assert("Kp6"@[2] != "Kp3"@[2]);
            assert("Kp6"@[2] != "Kp4"@[2]);
            assert("Kp6"@[2] != "Kp5"@[2]);
        }
        if k == "Numpad7"@ {
            assert("Kp7"@[0] != "Alt"@[0]);
            assert("Kp7"@[0] != "End"@[0]);
            assert("Kp7"@[0] != "F10"@[0]);
            assert("Kp7"@[0] != "F11"@[0]);
            assert("Kp7"@[0] != "F12"@[0]);
            assert("Kp7"@[0] != "F13"@[0]);
            assert("Kp7"@[0] != "F14"@[0]);
            assert("Kp7"@[0] != "F15"@[0]);
            assert("Kp7"@[0] != "F16"@[0]);
            assert("Kp7"@[0] != "F17"@[0]);
            assert("Kp7"@[0] != "F18"@[0]);
            assert("Kp7"@[0] != "F19"@[0]);
            assert("Kp7"@[0] != "F20"@[0]);
            assert("Kp7"@[0] != "F21"@[0]);
            assert("Kp7"@[0] != "F22"@[0]);
            assert("Kp7"@[0] != "F23"@[0]);
            assert("Kp7"@[0] != "F24"@[0]);
            assert("Kp7"@[0] != "Tab"@[0]);
            assert("Kp7"@[0] != "Dot"@[0]);
            assert("Kp7"@[2] != "Kp0"@[2]);
            assert("Kp7"@[2] != "Kp1"@[2]);
            assert("Kp7"@[2] != "Kp2"@[2]);
            assert("Kp7"@[2] != "Kp3"@[2]);
            assert("Kp7"@[2] != "Kp4"@[2]);
            assert("Kp7"@[2] != "Kp5"@[2]);
            assert("Kp7"@[2] != "Kp6"@[2]);
        }
        if k == "Numpad8"@ {
            assert("Kp8"@[0] != "Alt"@[0]);
            assert("Kp8"@[0] != "End"@[0]);
            assert("Kp8"@[0] != "F10"@[0]);
            assert("Kp8"@[0] != "F11"@[0]);
            assert("Kp8"@[0] != "F12"@[0]);
            assert("Kp8"@[0] != "F13"@[0]);
            assert("Kp8"@[0] != "F14"@[0]);
            assert("Kp8"@[0] != "F15"@[0]);
            assert("Kp8"@[0] != "F16"@[0]);
            assert("Kp8"@[0] != "F17"@[0]);
            assert("Kp8"@[0] != "F18"@[0]);
            assert("Kp8"@[0] != "F19"@[0]);
            assert("Kp8"@[0] != "F20"@[0]);
            assert("Kp8"@[0] != "F21"@[0]);
            assert("Kp8"@[0] != "F22"@[0]);
            assert("Kp8"@[0] != "F23"@[0]);
            assert("Kp8"@[0] != "F24"@[0]);
            assert("Kp8"@[0] != "Tab"@[0]);
            assert("Kp8"@[0] != "Dot"@[0]);
            assert("Kp8"@[2] != "Kp0"@[2]);
            assert("Kp8"@[2] != "Kp1"@[2]);
            assert("Kp8"@[2] != "Kp2"@[2]);
            assert("Kp8"@[2] != "Kp3"@[2]);
            assert("Kp8"@[2] != "Kp4"@[2]);
            assert("Kp8"@[2] != "Kp5"@[2]);
            assert("Kp8"@[2] != "Kp6"@[2]);
            assert("Kp8"@[2] != "Kp7"@[2]);
        }
        if k == "Numpad9"@ {
            assert("Kp9"@[0] != "Alt"@[0]);
            assert("Kp9"@[0] != "End"@[0]);
            assert("Kp9"@[0] != "F10"@[0]);
            assert("Kp9"@[0] != "F11"@[0]);
            assert("Kp9"@[0] != "F12"@[0]);
            assert("Kp9"@[0] != "F13"@[0]);
            assert("Kp9"@[0] != "F14"@[0]);
            assert("Kp9"@[0] != "F15"@[0]);
            assert("Kp9"@[0] != "F16"@[0]);
            assert("Kp9"@[0] != "F17"@[0]);
            assert("Kp9"@[0] != "F18"@[0]);
            assert("Kp9"@[0] != "F19"@[0]);
            assert("Kp9"@[0] != "F20"@[0]);
            assert("Kp9"@[0] != "F21"@[0]);
            assert("Kp9"@[0] != "F22"@[0]);
            assert("Kp9"@[0] != "F23"@[0]);
            assert("Kp9"@[0] != "F24"@[0]);
            assert("Kp9"@[0] != "Tab"@[0]);
            assert("Kp9"@[0] != "Dot"@[0]);
            assert("Kp9"@[2] != "Kp0"@[2]);
            assert("Kp9"@[2] != "Kp1"@[2]);
            assert("Kp9"@[2] != "Kp2"@[2]);
            assert("Kp9"@[2] != "Kp3"@[2]);
            assert("Kp9"@[2] != "Kp4"@[2]);
            assert("Kp9"@[2] != "Kp5"@[2]);
            assert("Kp9"@[2] != "Kp6"@[2]);
            assert("Kp9"@[2] != "Kp7"@[2]);
            assert("Kp9"@[2] != "Kp8"@[2]);
        }
        if k == "NumpadBackspace"@ {
            assert("KpDelete"@[0] != "CapsLock"@[0]);
            assert("KpDelete"@[0] != "MetaLeft"@[0]);
            assert("KpDelete"@[0] != "PageDown"@[0]);
            assert("KpDelete"@[2] != "KpReturn"@[2]);
            assert("KpDelete"@[3] != "KpDivide"@[3]);
        }
        if k == "Fn"@ {
            assert("Function"@[0] != "CapsLock"@[0]);
            assert("Function"@[0] != "MetaLeft"@[0]);
            assert("Function"@[0] != "PageDown"@[0]);
            assert("Function"@[0] != "KpReturn"@[0]);
            assert("Function"@[0] != "KpDivide"@[0]);
            assert("Function"@[0] != "KpDelete"@[0]);
        }
        if k == "AudioVolumeUp"@ {
            assert("VolumeUp"@[0] != "CapsLock"@[0]);
            assert("VolumeUp"@[0] != "MetaLeft"@[0]);
            assert("VolumeUp"@[0] != "PageDown"@[0]);
            assert("VolumeUp"@[0] != "KpReturn"@[0]);
            assert("VolumeUp"@[0] != "KpDivide"@[0]);
            assert("VolumeUp"@[0] != "KpDelete"@[0]);
            assert("VolumeUp"@[0] != "Function"@[0]);
        }
        if k == "AudioVolumeDown"@ {
            assert("VolumeDown"@[0] != "RightArrow"@[0]);
            assert("VolumeDown"@[0] != "ShiftRight"@[0]);
            assert("VolumeDown"@[0] != "ScrollLock"@[0]);
            assert("VolumeDown"@[0] != "KpMultiply"@[0]);
        }
        if k == "AudioVolumeMute"@ {
            assert("VolumeMute"@[0] != "RightArrow"@[0]);
            assert("VolumeMute"@[0] != "ShiftRight"@[0]);
            assert("VolumeMute"@[0] != "ScrollLock"@[0]);
            assert("VolumeMute"@[0] != "KpMultiply"@[0]);
            assert("VolumeMute"@[6] != "VolumeDown"@[6]);
        }
}

proof fn lemma_rdev_round_trip_4(k: Seq<char>)
    requires
        rdev_key_of_4(k) is Some,
        !rdev_unknown_code_key(k),
    ensures
        key_of_rdev(rdev_key_of_4(k).unwrap()) == Some(k),
{
    reveal_strlit("Alt");
    reveal_strlit("AltGr");
    reveal_strlit("BackQuote");
    reveal_strlit("BackSlash");
    reveal_strlit("Backspace");
    reveal_strlit("BrightnessDown");
    reveal_strlit("BrightnessUp");
    reveal_strlit("CapsLock");
    reveal_strlit("Comma");
    reveal_strlit("ControlLeft");
    reveal_strlit("ControlRight");
    reveal_strlit("Delete");
    reveal_strlit("Dot");
    reveal_strlit("DownArrow");
    reveal_strlit("End");
    reveal_strlit("Equal");
    reveal_strlit("Escape");
    reveal_strlit("F1");
    reveal_strlit("F10");
    reveal_strlit("F11");
    reveal_strlit("F12");
    reveal_strlit("F13");
    reveal_strlit("F14");
    reveal_strlit("F15");
    reveal_strlit("F16");
    reveal_strlit("F17");
    reveal_strlit("F18");
    reveal_strlit("F19");
    reveal_strlit("F2");
    reveal_strlit("F20");
    reveal_strlit("F21");
    reveal_strlit("F22");
    reveal_strlit("F23");
    reveal_strlit("F24");
    reveal_strlit("F3");
    reveal_strlit("F4");
    reveal_strlit("F5");
    reveal_strlit("F6");
    reveal_strlit("F7");
    reveal_strlit("F8");
    reveal_strlit("F9");
    reveal_strlit("Function");
    reveal_strlit("Home");
    reveal_strlit("Insert");
    reveal_strlit("IntlBackslash");
    reveal_strlit("KeyA");
    reveal_strlit("KeyB");
    reveal_strlit("KeyC");
    reveal_strlit("KeyD");
    reveal_strlit("KeyE");
    reveal_strlit("KeyF");
    reveal_strlit("KeyG");
    reveal_strlit("KeyH");
    reveal_strlit("KeyI");
    reveal_strlit("KeyJ");
    reveal_strlit("KeyK");
    reveal_strlit("KeyL");
    reveal_strlit("KeyM");
    reveal_strlit("KeyN");
    reveal_strlit("KeyO");
    reveal_strlit("KeyP");
    reveal_strlit("KeyQ");
    reveal_strlit("KeyR");
    reveal_strlit("KeyS");
    reveal_strlit("KeyT");
    reveal_strlit("KeyU");
    reveal_strlit("KeyV");
    reveal_strlit("KeyW");
    reveal_strlit("KeyX");
    reveal_strlit("KeyY");
    reveal_strlit("KeyZ");
    reveal_strlit("Kp0");
    reveal_strlit("Kp1");
    reveal_strlit("Kp2");
    reveal_strlit("Kp3");
    reveal_strlit("Kp4");
    reveal_strlit("Kp5");
    reveal_strlit("Kp6");
    reveal_strlit("Kp7");
    reveal_strlit("Kp8");
    reveal_strlit("Kp9");
    reveal_strlit("KpDelete");
    reveal_strlit("KpDivide");
    reveal_strlit("KpMinus");
    reveal_strlit("KpMultiply");
    reveal_strlit("KpPlus");
    reveal_strlit("KpReturn");
    reveal_strlit("LeftArrow");
    reveal_strlit("LeftBracket");
    reveal_strlit("MediaPlay");
    reveal_strlit("MediaPlayPause");
    reveal_strlit("MediaTrackNext");
    reveal_strlit("MediaTrackPrevious");
    reveal_strlit("MetaLeft");
    reveal_strlit("MetaRight");
    reveal_strlit("Minus");
    reveal_strlit("NextTrack");
    reveal_strlit("Num0");
    reveal_strlit("Num1");
    reveal_strlit("Num2");
    reveal_strlit("Num3");
    reveal_strlit("Num4");
    reveal_strlit("Num5");
    reveal_strlit("Num6");
    reveal_strlit("Num7");
    reveal_strlit("Num8");
    reveal_strlit("Num9");
    reveal_strlit("NumLock");
    reveal_strlit("PageDown");
    reveal_strlit("PageUp");
    reveal_strlit("Pause");
    reveal_strlit("PlayCd");
    reveal_strlit("PlayPause");
    reveal_strlit("PreviousTrack");
    reveal_strlit("PrintScreen");
    reveal_strlit("Quote");
    reveal_strlit("Return");
    reveal_strlit("RightArrow");
    reveal_strlit("RightBracket");
    reveal_strlit("ScrollLock");
    reveal_strlit("SemiColon");
    reveal_strlit("ShiftLeft");
    reveal_strlit("ShiftRight");
    reveal_strlit("Slash");
    reveal_strlit("Space");
    reveal_strlit("Tab");
    reveal_strlit("UpArrow");
    reveal_strlit("VolumeDown");
    reveal_strlit("VolumeMute");
    reveal_strlit("VolumeUp");
    assert("Alt"@.len() == 3);
    assert("AltGr"@.len() == 5);
    assert("BackQuote"@.len() == 9);
    assert("BackSlash"@.len() == 9);
    assert("Backspace"@.len() == 9);
    assert("BrightnessDown"@.len() == 14);
    assert("BrightnessUp"@.len() == 12);
    assert("CapsLock"@.len() == 8);
    assert("Comma"@.len() == 5);
    assert("ControlLeft"@.len() == 11);
    assert("ControlRight"@.len() == 12);
    assert("Delete"@.len() == 6);
    assert("Dot"@.len() == 3);
    assert("DownArrow"@.len() == 9);
    assert("End"@.len() == 3);
    assert("Equal"@.len() == 5);
    assert("Escape"@.len() == 6);
    assert("F1"@.len() == 2);
    assert("F10"@.len() == 3);
    assert("F11"@.len() == 3);
    assert("F12"@.len() == 3);
    assert("F13"@.len() == 3);
    assert("F14"@.len() == 3);
    assert("F15"@.len() == 3);
    assert("F16"@.len() == 3);
    assert("F17"@.len() == 3);
    assert("F18"@.len() == 3);
    assert("F19"@.len() == 3);
    assert("F2"@.len() == 2);
    assert("F20"@.len() == 3);
    assert("F21"@.len() == 3);
    assert("F22"@.len() == 3);
    assert("F23"@.len() == 3);
    assert("F24"@.len() == 3);
    assert("F3"@.len() == 2);
    assert("F4"@.len() == 2);
    assert("F5"@.len() == 2);
    assert("F6"@.len() == 2);
    assert("F7"@.len() == 2);
    assert("F8"@.len() == 2);
    assert("F9"@.len() == 2);
    assert("Function"@.len() == 8);
    assert("Home"@.len() == 4);
    assert("Insert"@.len() == 6);
    assert("IntlBackslash"@.len() == 13);
    assert("KeyA"@.len() == 4);
    assert("KeyB"@.len() == 4);
    assert("KeyC"@.len() == 4);
    assert("KeyD"@.len() == 4);
    assert("KeyE"@.len() == 4);
    assert("KeyF"@.len() == 4);
    assert("KeyG"@.len() == 4);
    assert("KeyH"@.len() == 4);
    assert("KeyI"@.len() == 4);
    assert("KeyJ"@.len() == 4);
    assert("KeyK"@.len() == 4);
    assert("KeyL"@.len() == 4);
    assert("KeyM"@.len() == 4);
    assert("KeyN"@.len() == 4);
    assert("KeyO"@.len() == 4);
    assert("KeyP"@.len() == 4);
    assert("KeyQ"@.len() == 4);
    assert("KeyR"@.len() == 4);
    assert("KeyS"@.len() == 4);
    assert("KeyT"@.len() == 4);
    assert("KeyU"@.len() == 4);
    assert("KeyV"@.len() == 4);
    assert("KeyW"@.len() == 4);
    assert("KeyX"@.len() == 4);
    assert("KeyY"@.len() == 4);
    assert("KeyZ"@.len() == 4);
    assert("Kp0"@.len() == 3);
    assert("Kp1"@.len() == 3);
    assert("Kp2"@.len() == 3);
    assert("Kp3"@.len() == 3);
    assert("Kp4"@.len() == 3);
    assert("Kp5"@.len() == 3);
    assert("Kp6"@.len() == 3);
    assert("Kp7"@.len() == 3);
    assert("Kp8"@.len() == 3);
    assert("Kp9"@.len() == 3);
    assert("KpDelete"@.len() == 8);
    assert("KpDivide"@.len() == 8);
    assert("KpMinus"@.len() == 7);
    assert("KpMultiply"@.len() == 10);
    assert("KpPlus"@.len() == 6);
    assert("KpReturn"@.len() == 8);
    assert("LeftArrow"@.len() == 9);
    assert("LeftBracket"@.len() == 11);
    assert("MediaPlay"@.len() == 9);
    assert("MediaPlayPause"@.len() == 14);
    assert("MediaTrackNext"@.len() == 14);
    assert("MediaTrackPrevious"@.len() == 18);
    assert("MetaLeft"@.len() == 8);
    assert("MetaRight"@.len() == 9);
    assert("Minus"@.len() == 5);
    assert("NextTrack"@.len() == 9);
    assert("Num0"@.len() == 4);
    assert("Num1"@.len() == 4);
    assert("Num2"@.len() == 4);
    assert("Num3"@.len() == 4);
    assert("Num4"@.len() == 4);
    assert("Num5"@.len() == 4);
    assert("Num6"@.len() == 4);
    assert("Num7"@.len() == 4);
    assert("Num8"@.len() == 4);
    assert("Num9"@.len() == 4);
    assert("NumLock"@.len() == 7);
    assert("PageDown"@.len() == 8);
    assert("PageUp"@.len() == 6);
    assert("Pause"@.len() == 5);
    assert("PlayCd"@.len() == 6);
    assert("PlayPause"@.len() == 9);
    assert("PreviousTrack"@.len() == 13);
    assert("PrintScreen"@.len() == 11);
    assert("Quote"@.len() == 5);
    assert("Return"@.len() == 6);
    assert("RightArrow"@.len() == 10);
    assert("RightBracket"@.len() == 12);
    assert("ScrollLock"@.len() == 10);
    assert("SemiColon"@.len() == 9);
    assert("ShiftLeft"@.len() == 9);
    assert("ShiftRight"@.len() == 10);
    assert("Slash"@.len() == 5);
    assert("Space"@.len() == 5);
    assert("Tab"@.len() == 3);
    assert("UpArrow"@.len() == 7);
    assert("VolumeDown"@.len() == 10);
    assert("VolumeMute"@.len() == 10);
    assert("VolumeUp"@.len() == 8);
        if k == "BrightnessUp"@ {
            assert("BrightnessUp"@[0] != "ControlRight"@[0]);
            assert("BrightnessUp"@[0] != "RightBracket"@[0]);
        }
        if k == "BrightnessDown"@ {
        }
        if k == "MediaTrackPrevious"@ {
            assert("PreviousTrack"@[0] != "IntlBackslash"@[0]);
        }
        if k == "MediaPlayPause"@ {
            assert("PlayPause"@[0] != "Backspace"@[0]);
            assert("PlayPause"@[0] != "DownArrow"@[0]);
            assert("PlayPause"@[0] != "LeftArrow"@[0]);
            assert("PlayPause"@[0] != "MetaRight"@[0]);
            assert("PlayPause"@[0] != "ShiftLeft"@[0]);
            assert("PlayPause"@[0] != "BackQuote"@[0]);
            assert("PlayPause"@[0] != "SemiColon"@[0]);
            assert("PlayPause"@[0] != "BackSlash"@[0]);
        }
        if k == "MediaPlay"@ {
            assert("PlayCd"@[0] != "Delete"@[0]);
            assert("PlayCd"@[0] != "Escape"@[0]);
            assert("PlayCd"@[1] != "PageUp"@[1]);
            assert("PlayCd"@[0] != "Return"@[0]);
            assert("PlayCd"@[0] != "Insert"@[0]);
            assert("PlayCd"@[0] != "KpPlus"@[0]);
        }
        if k == "MediaTrackNext"@ {
            assert("NextTrack"@[0] != "Backspace"@[0]);
            assert("NextTrack"@[0] != "DownArrow"@[0]);
            assert("NextTrack"@[0] != "LeftArrow"@[0]);
            assert("NextTrack"@[0] != "MetaRight"@[0]);
            assert("NextTrack"@[0] != "ShiftLeft"@[0]);
            assert("NextTrack"@[0] != "BackQuote"@[0]);
            assert("NextTrack"@[0] != "SemiColon"@[0]);
            assert("NextTrack"@[0] != "BackSlash"@[0]);
            assert("NextTrack"@[0] != "PlayPause"@[0]);
        }
}

/// Converting a key to the `rdev` key and back gives the key again, for
/// every key that `rdev` knows by name (all but F13 to F20, which it knows
/// only by an unknown key code).
pub proof fn lemma_rdev_round_trip(k: Seq<char>)
    requires
        rdev_key_of(k) is Some,
        !rdev_unknown_code_key(k),
    ensures
        key_of_rdev(rdev_key_of(k).unwrap()) == Some(k),
{
    if rdev_key_of_0(k) is Some {
        lemma_rdev_round_trip_0(k);
    }
    if rdev_key_of_1(k) is Some {
        lemma_rdev_round_trip_1(k);
    }
    if rdev_key_of_2(k) is Some {
        lemma_rdev_round_trip_2(k);
    }
    if rdev_key_of_3(k) is Some {
        lemma_rdev_round_trip_3(k);
    }
    if rdev_key_of_4(k) is Some {
        lemma_rdev_round_trip_4(k);
    }
}

} // verus!
