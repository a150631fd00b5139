//! Keys, named by their W3C `KeyboardEvent.code` name (e.g. `KeyA`, `ShiftLeft`),
//! and the tables that parse key names and map keys to the characters they type.
use crate::text::{ascii_upper, chars_of, copy_string, join, join_strings, owned, str_eq, string_from_chars, views};
use keycode::KeyMappingCode;
use std::str::FromStr;
use vstd::prelude::*;

verus! {

/// Whether `name` is the name of a key code that the `keycode` crate knows
/// (its `KeyMappingCode::from_str` accepts it).
pub uninterp spec fn is_key_code_name(name: Seq<char>) -> bool;

/// Trusted: `keycode`'s `FromStr for KeyMappingCode` succeeds exactly on the
/// W3C code names it knows; this reports whether it succeeded. Which names
/// those are is left to the name `is_key_code_name`. The parsed code's
/// `Display` prints the same name back (both are generated from one list),
/// which is why a key is kept here as that name.
#[verifier::external_body]
fn keycode_knows(name: &str) -> (res: bool)
    ensures
        res == is_key_code_name(name@),
{
    KeyMappingCode::from_str(name).is_ok()
}

/// A key, identified by its W3C code name (what `keycode` prints for it).
#[derive(Debug, Clone, PartialEq, Eq, Hash)]
pub struct Key(pub String);

impl View for Key {
    type V = Seq<char>;

    open spec fn view(&self) -> Seq<char> {
        self.0@
    }
}

/// The names of a sequence of keys.
pub open spec fn key_names(keys: Seq<Key>) -> Seq<Seq<char>> {
    keys.map_values(|k: Key| k@)
}

pub open spec fn str_opt_view(o: Option<&str>) -> Option<Seq<char>> {
    match o {
        Some(s) => Some(s@),
        None => None,
    }
}

/// Why a key name could not be parsed.
#[derive(Debug, Clone, PartialEq, Eq)]
pub enum KeyParseError {
    /// The name was empty.
    Empty,
    /// The name starts with an upper-case ASCII letter but is no key code name.
    UnknownCodeName(String),
    /// The name is no known abbreviation.
    UnknownKey(String),
}

/// Why a chord sequence could not be parsed.
#[derive(Debug, Clone, PartialEq, Eq)]
pub enum SequenceParseError {
    /// Some character of the sequence is no key; holds the whole sequence.
    InvalidSequence(String),
}

pub open spec fn is_ascii_upper(c: char) -> bool {
    'A' <= c && c <= 'Z'
}

/// The key code name that a key name denotes: upper-case names are code
/// names themselves, others are abbreviations.
pub open spec fn parse_key_name(v: Seq<char>) -> Option<Seq<char>> {
    if v.len() == 0 {
        None
    } else if is_ascii_upper(v[0]) {
        if is_key_code_name(v) {
            Some(v)
        } else {
            None
        }
    } else {
        abbreviation(v)
    }
}

/// The keys that count as modifiers.
pub open spec fn modifier_names() -> Seq<Seq<char>> {
    seq![
        "ShiftLeft"@,
        "ShiftRight"@,
        "ControlLeft"@,
        "ControlRight"@,
        "MetaLeft"@,
        "MetaRight"@,
        "AltLeft"@,
        "AltRight"@,
        "Fn"@,
    ]
}

/// The modifiers other than Shift.
pub open spec fn non_shift_modifier_names() -> Seq<Seq<char>> {
    seq!["ControlLeft"@, "ControlRight"@, "MetaLeft"@, "MetaRight"@, "AltLeft"@, "AltRight"@, "Fn"@]
}

pub open spec fn is_digit_name(n: Seq<char>) -> bool {
    ||| n == "Digit1"@
    ||| n == "Digit2"@
    ||| n == "Digit3"@
    ||| n == "Digit4"@
    ||| n == "Digit5"@
    ||| n == "Digit6"@
    ||| n == "Digit7"@
    ||| n == "Digit8"@
    ||| n == "Digit9"@
    ||| n == "Digit0"@
}

pub open spec fn is_letter_name(n: Seq<char>) -> bool {
    ||| n == "KeyA"@
    ||| n == "KeyB"@
    ||| n == "KeyC"@
    ||| n == "KeyD"@
    ||| n == "KeyE"@
    ||| n == "KeyF"@
    ||| n == "KeyG"@
    ||| n == "KeyH"@
    ||| n == "KeyI"@
    ||| n == "KeyJ"@
    ||| n == "KeyK"@
    ||| n == "KeyL"@
    ||| n == "KeyM"@
    ||| n == "KeyN"@
    ||| n == "KeyO"@
    ||| n == "KeyP"@
    ||| n == "KeyQ"@
    ||| n == "KeyR"@
    ||| n == "KeyS"@
    ||| n == "KeyT"@
    ||| n == "KeyU"@
    ||| n == "KeyV"@
    ||| n == "KeyW"@
    ||| n == "KeyX"@
    ||| n == "KeyY"@
    ||| n == "KeyZ"@
}

/// Abbreviated key names, part 1 of the table (see [`abbreviation`]).
pub open spec fn abbreviation_0(v: Seq<char>) -> Option<Seq<char>> {
    if v == "alt"@ || v == "opt"@ || v == "option"@ {
        Some("AltLeft"@)
    } else if v == "altgr"@ {
        Some("AltRight"@)
    } else if v == "backspace"@ {
        Some("Backspace"@)
    } else if v == "capslock"@ {
        Some("CapsLock"@)
    } else if v == "cmd"@ || v == "command"@ || v == "meta"@ || v == "super"@ {
        Some("MetaLeft"@)
    } else if v == "cmdorctrl"@ || v == "commandorcontrol"@ {
        Some("MetaLeft"@)
    } else if v == "control"@ || v == "ctrl"@ {
        Some("ControlLeft"@)
    } else if v == "delete"@ {
        Some("Delete"@)
    } else if v == "down"@ {
        Some("ArrowDown"@)
    } else if v == "end"@ {
        Some("End"@)
    } else if v == "enter"@ || v == "return"@ {
        Some("Enter"@)
    } else if v == "esc"@ || v == "escape"@ {
        Some("Escape"@)
    } else if v == "fn"@ || v == "function"@ {
        Some("Fn"@)
    } else if v == "f1"@ {
        Some("F1"@)
    } else if v == "f2"@ {
        Some("F2"@)
    } else if v == "f3"@ {
        Some("F3"@)
    } else if v == "f4"@ {
        Some("F4"@)
    } else if v == "f5"@ {
        Some("F5"@)
    } else if v == "f6"@ {
        Some("F6"@)
    } else if v == "f7"@ {
        Some("F7"@)
    } else if v == "f8"@ {
        Some("F8"@)
    } else if v == "f9"@ {
        Some("F9"@)
    } else if v == "f10"@ {
        Some("F10"@)
    } else if v == "f11"@ {
        Some("F11"@)
    } else if v == "f12"@ {
        Some("F12"@)
    } else if v == "f13"@ {
        Some("F13"@)
    } else if v == "f14"@ {
        Some("F14"@)
    } else if v == "f15"@ {
        Some("F15"@)
    } else if v == "f16"@ {
        Some("F16"@)
    } else if v == "f17"@ {
        Some("F17"@)
    } else {
        None
    }
}

fn abbreviation_exec_0(v: &str) -> (r: Option<&'static str>)
    ensures
        str_opt_view(r) == abbreviation_0(v@),
{
    if str_eq(v, "alt") || str_eq(v, "opt") || str_eq(v, "option") {
        Some("AltLeft")
    } else if str_eq(v, "altgr") {
        Some("AltRight")
    } else if str_eq(v, "backspace") {
        Some("Backspace")
    } else if str_eq(v, "capslock") {
        Some("CapsLock")
    } else if str_eq(v, "cmd") || str_eq(v, "command") || str_eq(v, "meta") || str_eq(v, "super") {
        Some("MetaLeft")
    } else if str_eq(v, "cmdorctrl") || str_eq(v, "commandorcontrol") {
        Some("MetaLeft")
    } else if str_eq(v, "control") || str_eq(v, "ctrl") {
        Some("ControlLeft")
    } else if str_eq(v, "delete") {
        Some("Delete")
    } else if str_eq(v, "down") {
        Some("ArrowDown")
    } else if str_eq(v, "end") {
        Some("End")
    } else if str_eq(v, "enter") || str_eq(v, "return") {
        Some("Enter")
    } else if str_eq(v, "esc") || str_eq(v, "escape") {
        Some("Escape")
    } else if str_eq(v, "fn") || str_eq(v, "function") {
        Some("Fn")
    } else if str_eq(v, "f1") {
        Some("F1")
    } else if str_eq(v, "f2") {
        Some("F2")
    } else if str_eq(v, "f3") {
        Some("F3")
    } else if str_eq(v, "f4") {
        Some("F4")
    } else if str_eq(v, "f5") {
        Some("F5")
    } else if str_eq(v, "f6") {
        Some("F6")
    } else if str_eq(v, "f7") {
        Some("F7")
    } else if str_eq(v, "f8") {
        Some("F8")
    } else if str_eq(v, "f9") {
        Some("F9")
    } else if str_eq(v, "f10") {
        Some("F10")
    } else if str_eq(v, "f11") {
        Some("F11")
    } else if str_eq(v, "f12") {
        Some("F12")
    } else if str_eq(v, "f13") {
        Some("F13")
    } else if str_eq(v, "f14") {
        Some("F14")
    } else if str_eq(v, "f15") {
        Some("F15")
    } else if str_eq(v, "f16") {
        Some("F16")
    } else if str_eq(v, "f17") {
        Some("F17")
    } else {
        None
    }
}

/// Abbreviated key names, part 2 of the table (see [`abbreviation`]).
pub open spec fn abbreviation_1(v: Seq<char>) -> Option<Seq<char>> {
    if v == "f18"@ {
        Some("F18"@)
    } else if v == "f19"@ {
        Some("F19"@)
    } else if v == "f20"@ {
        Some("F20"@)
    } else if v == "f21"@ {
        Some("F21"@)
    } else if v == "f22"@ {
        Some("F22"@)
    } else if v == "f23"@ {
        Some("F23"@)
    } else if v == "f24"@ {
        Some("F24"@)
    } else if v == "home"@ {
        Some("Home"@)
    } else if v == "insert"@ {
        Some("Insert"@)
    } else if v == "left"@ {
        Some("ArrowLeft"@)
    } else if v == "medianexttrack"@ {
        Some("MediaTrackNext"@)
    } else if v == "mediaplaypause"@ {
        Some("MediaPlayPause"@)
    } else if v == "mediaprevioustrack"@ {
        Some("MediaTrackPrevious"@)
    } else if v == "mediastop"@ {
        Some("MediaStop"@)
    } else if v == "num0"@ {
        Some("Numpad0"@)
    } else if v == "num1"@ {
        Some("Numpad1"@)
    } else if v == "num2"@ {
        Some("Numpad2"@)
    } else if v == "num3"@ {
        Some("Numpad3"@)
    } else if v == "num4"@ {
        Some("Numpad4"@)
    } else if v == "num5"@ {
        Some("Numpad5"@)
    } else if v == "num6"@ {
        Some("Numpad6"@)
    } else if v == "num7"@ {
        Some("Numpad7"@)
    } else if v == "num8"@ {
        Some("Numpad8"@)
    } else if v == "num9"@ {
        Some("Numpad9"@)
    } else if v == "numadd"@ {
        Some("NumpadAdd"@)
    } else if v == "numdec"@ {
        Some("NumpadDecimal"@)
    } else if v == "numdiv"@ {
        Some("NumpadDivide"@)
    } else if v == "numlock"@ {
        Some("NumLock"@)
    } else if v == "nummult"@ {
        Some("NumpadMultiply"@)
    } else if v == "numsub"@ {
        Some("NumpadSubtract"@)
    } else {
        None
    }
}

fn abbreviation_exec_1(v: &str) -> (r: Option<&'static str>)
    ensures
        str_opt_view(r) == abbreviation_1(v@),
{
    if str_eq(v, "f18") {
        Some("F18")
    } else if str_eq(v, "f19") {
        Some("F19")
    } else if str_eq(v, "f20") {
        Some("F20")
    } else if str_eq(v, "f21") {
        Some("F21")
    } else if str_eq(v, "f22") {
        Some("F22")
    } else if str_eq(v, "f23") {
        Some("F23")
    } else if str_eq(v, "f24") {
        Some("F24")
    } else if str_eq(v, "home") {
        Some("Home")
    } else if str_eq(v, "insert") {
        Some("Insert")
    } else if str_eq(v, "left") {
        Some("ArrowLeft")
    } else if str_eq(v, "medianexttrack") {
        Some("MediaTrackNext")
    } else if str_eq(v, "mediaplaypause") {
        Some("MediaPlayPause")
    } else if str_eq(v, "mediaprevioustrack") {
        Some("MediaTrackPrevious")
    } else if str_eq(v, "mediastop") {
        Some("MediaStop")
    } else if str_eq(v, "num0") {
        Some("Numpad0")
    } else if str_eq(v, "num1") {
        Some("Numpad1")
    } else if str_eq(v, "num2") {
        Some("Numpad2")
    } else if str_eq(v, "num3") {
        Some("Numpad3")
    } else if str_eq(v, "num4") {
        Some("Numpad4")
    } else if str_eq(v, "num5") {
        Some("Numpad5")
    } else if str_eq(v, "num6") {
        Some("Numpad6")
    } else if str_eq(v, "num7") {
        Some("Numpad7")
    } else if str_eq(v, "num8") {
        Some("Numpad8")
    } else if str_eq(v, "num9") {
        Some("Numpad9")
    } else if str_eq(v, "numadd") {
        Some("NumpadAdd")
    } else if str_eq(v, "numdec") {
        Some("NumpadDecimal")
    } else if str_eq(v, "numdiv") {
        Some("NumpadDivide")
    } else if str_eq(v, "numlock") {
        Some("NumLock")
    } else if str_eq(v, "nummult") {
        Some("NumpadMultiply")
    } else if str_eq(v, "numsub") {
        Some("NumpadSubtract")
    } else {
        None
    }
}

/// Abbreviated key names, part 3 of the table (see [`abbreviation`]).
pub open spec fn abbreviation_2(v: Seq<char>) -> Option<Seq<char>> {
    if v == "pagedown"@ || v == "pgdown"@ {
        Some("PageDown"@)
    } else if v == "pageup"@ || v == "pgup"@ {
        Some("PageUp"@)
    } else if v == "plus"@ {
        Some("Equal"@)
    } else if v == "printscreen"@ {
        Some("PrintScreen"@)
    } else if v == "right"@ {
        Some("ArrowRight"@)
    } else if v == "scrolllock"@ {
        Some("ScrollLock"@)
    } else if v == "shift"@ {
        Some("ShiftLeft"@)
    } else if v == "space"@ {
        Some("Space"@)
    } else if v == "tab"@ {
        Some("Tab"@)
    } else if v == "up"@ {
        Some("ArrowUp"@)
    } else if v == "volumedown"@ {
        Some("AudioVolumeDown"@)
    } else if v == "volumemute"@ {
        Some("AudioVolumeMute"@)
    } else if v == "volumeup"@ {
        Some("AudioVolumeUp"@)
    } else if v == "a"@ || v == "A"@ {
        Some("KeyA"@)
    } else if v == "b"@ || v == "B"@ {
        Some("KeyB"@)
    } else if v == "c"@ || v == "C"@ {
        Some("KeyC"@)
    } else if v == "d"@ || v == "D"@ {
        Some("KeyD"@)
    } else if v == "e"@ || v == "E"@ {
        Some("KeyE"@)
    } else if v == "f"@ || v == "F"@ {
        Some("KeyF"@)
    } else if v == "g"@ || v == "G"@ {
        Some("KeyG"@)
    } else if v == "h"@ || v == "H"@ {
        Some("KeyH"@)
    } else if v == "i"@ || v == "I"@ {
        Some("KeyI"@)
    } else if v == "j"@ || v == "J"@ {
        Some("KeyJ"@)
    } else if v == "k"@ || v == "K"@ {
        Some("KeyK"@)
    } else if v == "l"@ || v == "L"@ {
        Some("KeyL"@)
    } else if v == "m"@ || v == "M"@ {
        Some("KeyM"@)
    } else if v == "n"@ || v == "N"@ {
        Some("KeyN"@)
    } else if v == "o"@ || v == "O"@ {
        Some("KeyO"@)
    } else if v == "p"@ || v == "P"@ {
        Some("KeyP"@)
    } else if v == "q"@ || v == "Q"@ {
        Some("KeyQ"@)
    } else {
        None
    }
}

fn abbreviation_exec_2(v: &str) -> (r: Option<&'static str>)
    ensures
        str_opt_view(r) == abbreviation_2(v@),
{
    if str_eq(v, "pagedown") || str_eq(v, "pgdown") {
        Some("PageDown")
    } else if str_eq(v, "pageup") || str_eq(v, "pgup") {
        Some("PageUp")
    } else if str_eq(v, "plus") {
        Some("Equal")
    } else if str_eq(v, "printscreen") {
        Some("PrintScreen")
    } else if str_eq(v, "right") {
        Some("ArrowRight")
    } else if str_eq(v, "scrolllock") {
        Some("ScrollLock")
    } else if str_eq(v, "shift") {
        Some("ShiftLeft")
    } else if str_eq(v, "space") {
        Some("Space")
    } else if str_eq(v, "tab") {
        Some("Tab")
    } else if str_eq(v, "up") {
        Some("ArrowUp")
    } else if str_eq(v, "volumedown") {
        Some("AudioVolumeDown")
    } else if str_eq(v, "volumemute") {
        Some("AudioVolumeMute")
    } else if str_eq(v, "volumeup") {
        Some("AudioVolumeUp")
    } else if str_eq(v, "a") || str_eq(v, "A") {
        Some("KeyA")
    } else if str_eq(v, "b") || str_eq(v, "B") {
        Some("KeyB")
    } else if str_eq(v, "c") || str_eq(v, "C") {
        Some("KeyC")
    } else if str_eq(v, "d") || str_eq(v, "D") {
        Some("KeyD")
    } else if str_eq(v, "e") || str_eq(v, "E") {
        Some("KeyE")
    } else if str_eq(v, "f") || str_eq(v, "F") {
        Some("KeyF")
    } else if str_eq(v, "g") || str_eq(v, "G") {
        Some("KeyG")
    } else if str_eq(v, "h") || str_eq(v, "H") {
        Some("KeyH")
    } else if str_eq(v, "i") || str_eq(v, "I") {
        Some("KeyI")
    } else if str_eq(v, "j") || str_eq(v, "J") {
        Some("KeyJ")
    } else if str_eq(v, "k") || str_eq(v, "K") {
        Some("KeyK")
    } else if str_eq(v, "l") || str_eq(v, "L") {
        Some("KeyL")
    } else if str_eq(v, "m") || str_eq(v, "M") {
        Some("KeyM")
    } else if str_eq(v, "n") || str_eq(v, "N") {
        Some("KeyN")
    } else if str_eq(v, "o") || str_eq(v, "O") {
        Some("KeyO")
    } else if str_eq(v, "p") || str_eq(v, "P") {
        Some("KeyP")
    } else if str_eq(v, "q") || str_eq(v, "Q") {
        Some("KeyQ")
    } else {
        None
    }
}

/// Abbreviated key names, part 4 of the table (see [`abbreviation`]).
pub open spec fn abbreviation_3(v: Seq<char>) -> Option<Seq<char>> {
    if v == "r"@ || v == "R"@ {
        Some("KeyR"@)
    } else if v == "s"@ || v == "S"@ {
        Some("KeyS"@)
    } else if v == "t"@ || v == "T"@ {
        Some("KeyT"@)
    } else if v == "u"@ || v == "U"@ {
        Some("KeyU"@)
    } else if v == "v"@ || v == "V"@ {
        Some("KeyV"@)
    } else if v == "w"@ || v == "W"@ {
        Some("KeyW"@)
    } else if v == "x"@ || v == "X"@ {
        Some("KeyX"@)
    } else if v == "y"@ || v == "Y"@ {
        Some("KeyY"@)
    } else if v == "z"@ || v == "Z"@ {
        Some("KeyZ"@)
    } else if v == "1"@ {
        Some("Digit1"@)
    } else if v == "2"@ {
        Some("Digit2"@)
    } else if v == "3"@ {
        Some("Digit3"@)
    } else if v == "4"@ {
        Some("Digit4"@)
    } else if v == "5"@ {
        Some("Digit5"@)
    } else if v == "6"@ {
        Some("Digit6"@)
    } else if v == "7"@ {
        Some("Digit7"@)
    } else if v == "8"@ {
        Some("Digit8"@)
    } else if v == "9"@ {
        Some("Digit9"@)
    } else if v == "0"@ {
        Some("Digit0"@)
    } else if v == "-"@ || v == "minus"@ {
        Some("Minus"@)
    } else if v == "="@ || v == "equal"@ || v == "equals"@ {
        Some("Equal"@)
    } else if v == "["@ {
        Some("BracketLeft"@)
    } else if v == "]"@ {
        Some("BracketRight"@)
    } else if v == "\\"@ || v == "backslash"@ {
        Some("Backslash"@)
    } else if v == ";"@ || v == "semicolon"@ {
        Some("Semicolon"@)
    } else if v == "'"@ || v == "quote"@ {
        Some("Quote"@)
    } else if v == ","@ || v == "comma"@ {
        Some("Comma"@)
    } else if v == "."@ || v == "period"@ {
        Some("Period"@)
    } else if v == "/"@ || v == "slash"@ {
        Some("Slash"@)
    } else if v == "`"@ || v == "backtick"@ {
        Some("Backquote"@)
    } else {
        None
    }
}

fn abbreviation_exec_3(v: &str) -> (r: Option<&'static str>)
    ensures
        str_opt_view(r) == abbreviation_3(v@),
{
    if str_eq(v, "r") || str_eq(v, "R") {
        Some("KeyR")
    } else if str_eq(v, "s") || str_eq(v, "S") {
        Some("KeyS")
    } else if str_eq(v, "t") || str_eq(v, "T") {
        Some("KeyT")
    } else if str_eq(v, "u") || str_eq(v, "U") {
        Some("KeyU")
    } else if str_eq(v, "v") || str_eq(v, "V") {
        Some("KeyV")
    } else if str_eq(v, "w") || str_eq(v, "W") {
        Some("KeyW")
    } else if str_eq(v, "x") || str_eq(v, "X") {
        Some("KeyX")
    } else if str_eq(v, "y") || str_eq(v, "Y") {
        Some("KeyY")
    } else if str_eq(v, "z") || str_eq(v, "Z") {
        Some("KeyZ")
    } else if str_eq(v, "1") {
        Some("Digit1")
    } else if str_eq(v, "2") {
        Some("Digit2")
    } else if str_eq(v, "3") {
        Some("Digit3")
    } else if str_eq(v, "4") {
        Some("Digit4")
    } else if str_eq(v, "5") {
        Some("Digit5")
    } else if str_eq(v, "6") {
        Some("Digit6")
    } else if str_eq(v, "7") {
        Some("Digit7")
    } else if str_eq(v, "8") {
        Some("Digit8")
    } else if str_eq(v, "9") {
        Some("Digit9")
    } else if str_eq(v, "0") {
        Some("Digit0")
    } else if str_eq(v, "-") || str_eq(v, "minus") {
        Some("Minus")
    } else if str_eq(v, "=") || str_eq(v, "equal") || str_eq(v, "equals") {
        Some("Equal")
    } else if str_eq(v, "[") {
        Some("BracketLeft")
    } else if str_eq(v, "]") {
        Some("BracketRight")
    } else if str_eq(v, "\\") || str_eq(v, "backslash") {
        Some("Backslash")
    } else if str_eq(v, ";") || str_eq(v, "semicolon") {
        Some("Semicolon")
    } else if str_eq(v, "'") || str_eq(v, "quote") {
        Some("Quote")
    } else if str_eq(v, ",") || str_eq(v, "comma") {
        Some("Comma")
    } else if str_eq(v, ".") || str_eq(v, "period") {
        Some("Period")
    } else if str_eq(v, "/") || str_eq(v, "slash") {
        Some("Slash")
    } else if str_eq(v, "`") || str_eq(v, "backtick") {
        Some("Backquote")
    } else {
        None
    }
}

/// The key code name that an abbreviated (lowercase-first) key name stands for.
pub open spec fn abbreviation(v: Seq<char>) -> Option<Seq<char>> {
    match abbreviation_0(v) { Some(c) => Some(c), None => match abbreviation_1(v) { Some(c) => Some(c), None => match abbreviation_2(v) { Some(c) => Some(c), None => match abbreviation_3(v) { Some(c) => Some(c), None => None } } } }
}

/// Each arrow abbreviation (`left`, `right`, `up`, `down`) names the arrow
/// key of its own direction: `Arrow` followed by the word capitalized.
pub proof fn lemma_arrow_abbreviations(d: Seq<char>)
    requires
        d == "left"@ || d == "right"@ || d == "up"@ || d == "down"@,
    ensures
        parse_key_name(d) == Some("Arrow"@ + seq![ascii_upper(d[0])] + d.skip(1)),
{
    reveal_strlit("Arrow");
    reveal_strlit("ArrowDown");
    reveal_strlit("ArrowLeft");
    reveal_strlit("ArrowRight");
    reveal_strlit("ArrowUp");
    reveal_strlit("alt");
    reveal_strlit("altgr");
    reveal_strlit("backspace");
    reveal_strlit("capslock");
    reveal_strlit("cmd");
    reveal_strlit("cmdorctrl");
    reveal_strlit("command");
    reveal_strlit("commandorcontrol");
    reveal_strlit("control");
    reveal_strlit("ctrl");
    reveal_strlit("delete");
    reveal_strlit("down");
    reveal_strlit("end");
    reveal_strlit("enter");
    reveal_strlit("esc");
    reveal_strlit("escape");
    reveal_strlit("f1");
    reveal_strlit("f10");
    reveal_strlit("f11");
    reveal_strlit("f12");
    reveal_strlit("f13");
    reveal_strlit("f14");
    reveal_strlit("f15");
    reveal_strlit("f16");
    reveal_strlit("f17");
    reveal_strlit("f18");
    reveal_strlit("f19");
    reveal_strlit("f2");
    reveal_strlit("f20");
    reveal_strlit("f21");
    reveal_strlit("f22");
    reveal_strlit("f23");
    reveal_strlit("f24");
    reveal_strlit("f3");
    reveal_strlit("f4");
    reveal_strlit("f5");
    reveal_strlit("f6");
    reveal_strlit("f7");
    reveal_strlit("f8");
    reveal_strlit("f9");
    reveal_strlit("fn");
    reveal_strlit("function");
    reveal_strlit("home");
    reveal_strlit("insert");
    reveal_strlit("left");
    reveal_strlit("medianexttrack");
    reveal_strlit("mediaplaypause");
    reveal_strlit("mediaprevioustrack");
    reveal_strlit("mediastop");
    reveal_strlit("meta");
    reveal_strlit("num0");
    reveal_strlit("num1");
    reveal_strlit("num2");
    reveal_strlit("num3");
    reveal_strlit("num4");
    reveal_strlit("num5");
    reveal_strlit("num6");
    reveal_strlit("num7");
    reveal_strlit("num8");
    reveal_strlit("num9");
    reveal_strlit("numadd");
    reveal_strlit("numdec");
    reveal_strlit("numdiv");
    reveal_strlit("numlock");
    reveal_strlit("nummult");
    reveal_strlit("numsub");
    reveal_strlit("opt");
    reveal_strlit("option");
    reveal_strlit("pagedown");
    reveal_strlit("pageup");
    reveal_strlit("pgdown");
    reveal_strlit("pgup");
    reveal_strlit("plus");
    reveal_strlit("printscreen");
    reveal_strlit("return");
    reveal_strlit("right");
    reveal_strlit("scrolllock");
    reveal_strlit("shift");
    reveal_strlit("space");
    reveal_strlit("super");
    reveal_strlit("tab");
    reveal_strlit("up");
    assert("Arrow"@.len() == 5);
    assert("ArrowDown"@.len() == 9);
    assert("ArrowLeft"@.len() == 9);
    assert("ArrowRight"@.len() == 10);
    assert("ArrowUp"@.len() == 7);
    assert("alt"@.len() == 3);
    assert("altgr"@.len() == 5);
    assert("backspace"@.len() == 9);
    assert("capslock"@.len() == 8);
    assert("cmd"@.len() == 3);
    assert("cmdorctrl"@.len() == 9);
    assert("command"@.len() == 7);
    assert("commandorcontrol"@.len() == 16);
    assert("control"@.len() == 7);
    assert("ctrl"@.len() == 4);
    assert("delete"@.len() == 6);
    assert("down"@.len() == 4);
    assert("end"@.len() == 3);
    assert("enter"@.len() == 5);
    assert("esc"@.len() == 3);
    assert("escape"@.len() == 6);
    assert("f1"@.len() == 2);
    assert("f10"@.len() == 3);
    assert("f11"@.len() == 3);
    assert("f12"@.len() == 3);
    assert("f13"@.len() == 3);
    assert("f14"@.len() == 3);
    assert("f15"@.len() == 3);
    assert("f16"@.len() == 3);
    assert("f17"@.len() == 3);
    assert("f18"@.len() == 3);
    assert("f19"@.len() == 3);
    assert("f2"@.len() == 2);
    assert("f20"@.len() == 3);
    assert("f21"@.len() == 3);
    assert("f22"@.len() == 3);
    assert("f23"@.len() == 3);
    assert("f24"@.len() == 3);
    assert("f3"@.len() == 2);
    assert("f4"@.len() == 2);
    assert("f5"@.len() == 2);
    assert("f6"@.len() == 2);
    assert("f7"@.len() == 2);
    assert("f8"@.len() == 2);
    assert("f9"@.len() == 2);
    assert("fn"@.len() == 2);
    assert("function"@.len() == 8);
    assert("home"@.len() == 4);
    assert("insert"@.len() == 6);
    assert("left"@.len() == 4);
    assert("medianexttrack"@.len() == 14);
    assert("mediaplaypause"@.len() == 14);
    assert("mediaprevioustrack"@.len() == 18);
    assert("mediastop"@.len() == 9);
    assert("meta"@.len() == 4);
    assert("num0"@.len() == 4);
    assert("num1"@.len() == 4);
    assert("num2"@.len() == 4);
    assert("num3"@.len() == 4);
    assert("num4"@.len() == 4);
    assert("num5"@.len() == 4);
    assert("num6"@.len() == 4);
    assert("num7"@.len() == 4);
    assert("num8"@.len() == 4);
    assert("num9"@.len() == 4);
    assert("numadd"@.len() == 6);
    assert("numdec"@.len() == 6);
    assert("numdiv"@.len() == 6);
    assert("numlock"@.len() == 7);
    assert("nummult"@.len() == 7);
    assert("numsub"@.len() == 6);
    assert("opt"@.len() == 3);
    assert("option"@.len() == 6);
    assert("pagedown"@.len() == 8);
    assert("pageup"@.len() == 6);
    assert("pgdown"@.len() == 6);
    assert("pgup"@.len() == 4);
    assert("plus"@.len() == 4);
    assert("printscreen"@.len() == 11);
    assert("return"@.len() == 6);
    assert("right"@.len() == 5);
    assert("scrolllock"@.len() == 10);
    assert("shift"@.len() == 5);
    assert("space"@.len() == 5);
    assert("super"@.len() == 5);
    assert("tab"@.len() == 3);
    assert("up"@.len() == 2);
    if d == "left"@ {
        assert("left"@[0] != "meta"@[0]);
        assert("left"@[0] != "ctrl"@[0]);
        assert("left"@[0] != "down"@[0]);
        assert("left"@[0] != "home"@[0]);
        assert("Arrow"@ + seq![ascii_upper(d[0])] + d.skip(1) =~= "ArrowLeft"@);
    } else if d == "right"@ {
        assert("right"@[0] != "altgr"@[0]);
        assert("right"@[0] != "super"@[0]);
        assert("right"@[0] != "enter"@[0]);
        assert("Arrow"@ + seq![ascii_upper(d[0])] + d.skip(1) =~= "ArrowRight"@);
    } else if d == "up"@ {
        assert("up"@[0] != "fn"@[0]);
        assert("up"@[0] != "f1"@[0]);
        assert("up"@[0] != "f2"@[0]);
        assert("up"@[0] != "f3"@[0]);
        assert("up"@[0] != "f4"@[0]);
        assert("up"@[0] != "f5"@[0]);
        assert("up"@[0] != "f6"@[0]);
        assert("up"@[0] != "f7"@[0]);
        assert("up"@[0] != "f8"@[0]);
        assert("up"@[0] != "f9"@[0]);
        assert("Arrow"@ + seq![ascii_upper(d[0])] + d.skip(1) =~= "ArrowUp"@);
    } else if d == "down"@ {
        assert("down"@[0] != "meta"@[0]);
        assert("down"@[0] != "ctrl"@[0]);
        assert("Arrow"@ + seq![ascii_upper(d[0])] + d.skip(1) =~= "ArrowDown"@);
    }
}

fn abbreviation_exec(v: &str) -> (r: Option<&'static str>)
    ensures
        str_opt_view(r) == abbreviation(v@),
{
    let r0 = abbreviation_exec_0(v);
    if r0.is_some() {
        return r0;
    }
    let r1 = abbreviation_exec_1(v);
    if r1.is_some() {
        return r1;
    }
    let r2 = abbreviation_exec_2(v);
    if r2.is_some() {
        return r2;
    }
    let r3 = abbreviation_exec_3(v);
    if r3.is_some() {
        return r3;
    }
    None
}

/// Printed characters of keys, part 1 of the table (see [`spec_to_char`]).
pub open spec fn key_char_0(name: Seq<char>, shift: bool) -> Option<char> {
    if name == "KeyA"@ {
        Some(if shift { 'A' } else { 'a' })
    } else if name == "KeyB"@ {
        Some(if shift { 'B' } else { 'b' })
    } else if name == "KeyC"@ {
        Some(if shift { 'C' } else { 'c' })
    } else if name == "KeyD"@ {
        Some(if shift { 'D' } else { 'd' })
    } else if name == "KeyE"@ {
        Some(if shift { 'E' } else { 'e' })
    } else if name == "KeyF"@ {
        Some(if shift { 'F' } else { 'f' })
    } else if name == "KeyG"@ {
        Some(if shift { 'G' } else { 'g' })
    } else if name == "KeyH"@ {
        Some(if shift { 'H' } else { 'h' })
    } else if name == "KeyI"@ {
        Some(if shift { 'I' } else { 'i' })
    } else if name == "KeyJ"@ {
        Some(if shift { 'J' } else { 'j' })
    } else if name == "KeyK"@ {
        Some(if shift { 'K' } else { 'k' })
    } else if name == "KeyL"@ {
        Some(if shift { 'L' } else { 'l' })
    } else if name == "KeyM"@ {
        Some(if shift { 'M' } else { 'm' })
    } else if name == "KeyN"@ {
        Some(if shift { 'N' } else { 'n' })
    } else if name == "KeyO"@ {
        Some(if shift { 'O' } else { 'o' })
    } else if name == "KeyP"@ {
        Some(if shift { 'P' } else { 'p' })
    } else if name == "KeyQ"@ {
        Some(if shift { 'Q' } else { 'q' })
    } else if name == "KeyR"@ {
        Some(if shift { 'R' } else { 'r' })
    } else if name == "KeyS"@ {
        Some(if shift { 'S' } else { 's' })
    } else if name == "KeyT"@ {
        Some(if shift { 'T' } else { 't' })
    } else if name == "KeyU"@ {
        Some(if shift { 'U' } else { 'u' })
    } else if name == "KeyV"@ {
        Some(if shift { 'V' } else { 'v' })
    } else if name == "KeyW"@ {
        Some(if shift { 'W' } else { 'w' })
    } else if name == "KeyX"@ {
        Some(if shift { 'X' } else { 'x' })
    } else {
        None
    }
}

fn key_char_exec_0(name: &str, shift: bool) -> (r: Option<char>)
    ensures
        r == key_char_0(name@, shift),
{
    if str_eq(name, "KeyA") {
        Some(if shift { 'A' } else { 'a' })
    } else if str_eq(name, "KeyB") {
        Some(if shift { 'B' } else { 'b' })
    } else if str_eq(name, "KeyC") {
        Some(if shift { 'C' } else { 'c' })
    } else if str_eq(name, "KeyD") {
        Some(if shift { 'D' } else { 'd' })
    } else if str_eq(name, "KeyE") {
        Some(if shift { 'E' } else { 'e' })
    } else if str_eq(name, "KeyF") {
        Some(if shift { 'F' } else { 'f' })
    } else if str_eq(name, "KeyG") {
        Some(if shift { 'G' } else { 'g' })
    } else if str_eq(name, "KeyH") {
        Some(if shift { 'H' } else { 'h' })
    } else if str_eq(name, "KeyI") {
        Some(if shift { 'I' } else { 'i' })
    } else if str_eq(name, "KeyJ") {
        Some(if shift { 'J' } else { 'j' })
    } else if str_eq(name, "KeyK") {
        Some(if shift { 'K' } else { 'k' })
    } else if str_eq(name, "KeyL") {
        Some(if shift { 'L' } else { 'l' })
    } else if str_eq(name, "KeyM") {
        Some(if shift { 'M' } else { 'm' })
    } else if str_eq(name, "KeyN") {
        Some(if shift { 'N' } else { 'n' })
    } else if str_eq(name, "KeyO") {
        Some(if shift { 'O' } else { 'o' })
    } else if str_eq(name, "KeyP") {
        Some(if shift { 'P' } else { 'p' })
    } else if str_eq(name, "KeyQ") {
        Some(if shift { 'Q' } else { 'q' })
    } else if str_eq(name, "KeyR") {
        Some(if shift { 'R' } else { 'r' })
    } else if str_eq(name, "KeyS") {
        Some(if shift { 'S' } else { 's' })
    } else if str_eq(name, "KeyT") {
        Some(if shift { 'T' } else { 't' })
    } else if str_eq(name, "KeyU") {
        Some(if shift { 'U' } else { 'u' })
    } else if str_eq(name, "KeyV") {
        Some(if shift { 'V' } else { 'v' })
    } else if str_eq(name, "KeyW") {
        Some(if shift { 'W' } else { 'w' })
    } else if str_eq(name, "KeyX") {
        Some(if shift { 'X' } else { 'x' })
    } else {
        None
    }
}

/// Printed characters of keys, part 2 of the table (see [`spec_to_char`]).
pub open spec fn key_char_1(name: Seq<char>, shift: bool) -> Option<char> {
    if name == "KeyY"@ {
        Some(if shift { 'Y' } else { 'y' })
    } else if name == "KeyZ"@ {
        Some(if shift { 'Z' } else { 'z' })
    } else if name == "Backquote"@ {
        Some(if shift { '~' } else { '`' })
    } else if name == "Digit1"@ {
        Some(if shift { '!' } else { '1' })
    } else if name == "Digit2"@ {
        Some(if shift { '@' } else { '2' })
    } else if name == "Digit3"@ {
        Some(if shift { '#' } else { '3' })
    } else if name == "Digit4"@ {
        Some(if shift { '$' } else { '4' })
    } else if name == "Digit5"@ {
        Some(if shift { '%' } else { '5' })
    } else if name == "Digit6"@ {
        Some(if shift { '^' } else { '6' })
    } else if name == "Digit7"@ {
        Some(if shift { '&' } else { '7' })
    } else if name == "Digit8"@ {
        Some(if shift { '*' } else { '8' })
    } else if name == "Digit9"@ {
        Some(if shift { '(' } else { '9' })
    } else if name == "Digit0"@ {
        Some(if shift { ')' } else { '0' })
    } else if name == "Minus"@ {
        Some(if shift { '-' } else { '_' })
    } else if name == "Equal"@ {
        Some(if shift { '+' } else { '=' })
    } else if name == "BracketLeft"@ {
        Some(if shift { '{' } else { '[' })
    } else if name == "BracketRight"@ {
        Some(if shift { '}' } else { ']' })
    } else if name == "Backslash"@ {
        Some(if shift { '|' } else { '\\' })
    } else if name == "Semicolon"@ {
        Some(if shift { ':' } else { ';' })
    } else if name == "Quote"@ {
        Some(if shift { '"' } else { '\'' })
    } else if name == "Comma"@ {
        Some(if shift { '<' } else { ',' })
    } else if name == "Period"@ {
        Some(if shift { '>' } else { '.' })
    } else if name == "Slash"@ {
        Some(if shift { '?' } else { '/' })
    } else {
        None
    }
}

fn key_char_exec_1(name: &str, shift: bool) -> (r: Option<char>)
    ensures
        r == key_char_1(name@, shift),
{
    if str_eq(name, "KeyY") {
        Some(if shift { 'Y' } else { 'y' })
    } else if str_eq(name, "KeyZ") {
        Some(if shift { 'Z' } else { 'z' })
    } else if str_eq(name, "Backquote") {
        Some(if shift { '~' } else { '`' })
    } else if str_eq(name, "Digit1") {
        Some(if shift { '!' } else { '1' })
    } else if str_eq(name, "Digit2") {
        Some(if shift { '@' } else { '2' })
    } else if str_eq(name, "Digit3") {
        Some(if shift { '#' } else { '3' })
    } else if str_eq(name, "Digit4") {
        Some(if shift { '$' } else { '4' })
    } else if str_eq(name, "Digit5") {
        Some(if shift { '%' } else { '5' })
    } else if str_eq(name, "Digit6") {
        Some(if shift { '^' } else { '6' })
    } else if str_eq(name, "Digit7") {
        Some(if shift { '&' } else { '7' })
    } else if str_eq(name, "Digit8") {
        Some(if shift { '*' } else { '8' })
    } else if str_eq(name, "Digit9") {
        Some(if shift { '(' } else { '9' })
    } else if str_eq(name, "Digit0") {
        Some(if shift { ')' } else { '0' })
    } else if str_eq(name, "Minus") {
        Some(if shift { '-' } else { '_' })
    } else if str_eq(name, "Equal") {
        Some(if shift { '+' } else { '=' })
    } else if str_eq(name, "BracketLeft") {
        Some(if shift { '{' } else { '[' })
    } else if str_eq(name, "BracketRight") {
        Some(if shift { '}' } else { ']' })
    } else if str_eq(name, "Backslash") {
        Some(if shift { '|' } else { '\\' })
    } else if str_eq(name, "Semicolon") {
        Some(if shift { ':' } else { ';' })
    } else if str_eq(name, "Quote") {
        Some(if shift { '"' } else { '\'' })
    } else if str_eq(name, "Comma") {
        Some(if shift { '<' } else { ',' })
    } else if str_eq(name, "Period") {
        Some(if shift { '>' } else { '.' })
    } else if str_eq(name, "Slash") {
        Some(if shift { '?' } else { '/' })
    } else {
        None
    }
}

/// The character a key types, with or without Shift held (US layout).
pub open spec fn spec_to_char(name: Seq<char>, shift: bool) -> Option<char> {
    match key_char_0(name, shift) { Some(c) => Some(c), None => match key_char_1(name, shift) { Some(c) => Some(c), None => None } }
}

fn key_of(name: &str) -> (k: Key)
    ensures
        k@ == name@,
{
    Key(owned(name))
}

impl Key {
    /// A key with the given code name.
    pub fn named(name: &str) -> (k: Key)
        ensures
            k@ == name@,
    {
        key_of(name)
    }

    /// The key's code name.
    pub fn name(&self) -> (r: &str)
        ensures
            r@ == self@,
    {
        self.0.as_str()
    }

    /// A copy of the key.
    pub fn copy(&self) -> (r: Key)
        ensures
            r == *self,
    {
        Key(self.0.clone())
    }

    /// Whether two keys are the same key.
    pub fn same(&self, other: &Key) -> (r: bool)
        ensures
            r == (self@ == other@),
    {
        self.0 == other.0
    }

    /// Whether this is the key with the given code name.
    pub fn is(&self, name: &str) -> (r: bool)
        ensures
            r == (self@ == name@),
    {
        str_eq(self.0.as_str(), name)
    }

    /// All modifier keys (Shift, Control, Meta, Alt, each side, and Fn).
    pub fn modifiers() -> (r: Vec<Key>)
        ensures
            key_names(r@) == modifier_names(),
    {
        let mut v: Vec<Key> = Vec::new();
        v.push(key_of("ShiftLeft"));
        v.push(key_of("ShiftRight"));
        v.push(key_of("ControlLeft"));
        v.push(key_of("ControlRight"));
        v.push(key_of("MetaLeft"));
        v.push(key_of("MetaRight"));
        v.push(key_of("AltLeft"));
        v.push(key_of("AltRight"));
        v.push(key_of("Fn"));
        assert(key_names(v@) =~= modifier_names());
        v
    }

    /// The modifier keys other than Shift.
    pub fn non_shift_modifiers() -> (r: Vec<Key>)
        ensures
            key_names(r@) == non_shift_modifier_names(),
    {
        let mut v: Vec<Key> = Vec::new();
        v.push(key_of("ControlLeft"));
        v.push(key_of("ControlRight"));
        v.push(key_of("MetaLeft"));
        v.push(key_of("MetaRight"));
        v.push(key_of("AltLeft"));
        v.push(key_of("AltRight"));
        v.push(key_of("Fn"));
        assert(key_names(v@) =~= non_shift_modifier_names());
        v
    }

    /// Whether this is one of the digit keys of the main block.
    pub fn is_digit(&self) -> (r: bool)
        ensures
            r == is_digit_name(self@),
    {
        let n = self.0.as_str();
        str_eq(n, "Digit1") || str_eq(n, "Digit2") || str_eq(n, "Digit3") || str_eq(n, "Digit4")
            || str_eq(n, "Digit5") || str_eq(n, "Digit6") || str_eq(n, "Digit7") || str_eq(
            n,
            "Digit8",
        ) || str_eq(n, "Digit9") || str_eq(n, "Digit0")
    }

    /// Whether this is one of the letter keys.
    pub fn is_letter(&self) -> (r: bool)
        ensures
            r == is_letter_name(self@),
    {
        let n = self.0.as_str();
        str_eq(n, "KeyA") || str_eq(n, "KeyB") || str_eq(n, "KeyC") || str_eq(n, "KeyD")
            || str_eq(n, "KeyE") || str_eq(n, "KeyF") || str_eq(n, "KeyG") || str_eq(n, "KeyH")
            || str_eq(n, "KeyI") || str_eq(n, "KeyJ") || str_eq(n, "KeyK") || str_eq(n, "KeyL")
            || str_eq(n, "KeyM") || str_eq(n, "KeyN") || str_eq(n, "KeyO") || str_eq(n, "KeyP")
            || str_eq(n, "KeyQ") || str_eq(n, "KeyR") || str_eq(n, "KeyS") || str_eq(n, "KeyT")
            || str_eq(n, "KeyU") || str_eq(n, "KeyV") || str_eq(n, "KeyW") || str_eq(n, "KeyX")
            || str_eq(n, "KeyY") || str_eq(n, "KeyZ")
    }

    /// The character the key types on a US layout, with or without Shift;
    /// `None` for keys that type no character.
    pub fn to_char(&self, shift: bool) -> (r: Option<char>)
        ensures
            r == spec_to_char(self@, shift),
    {
        let n = self.0.as_str();
        let c0 = key_char_exec_0(n, shift);
        if c0.is_some() {
            return c0;
        }
        key_char_exec_1(n, shift)
    }

    /// Parses a key name: a name starting with an upper-case ASCII letter must
    /// be a key code name (`KeyA`, `F12`, ...); any other name is looked up
    /// among the abbreviations (`cmd`, `shift`, `a`, `1`, `/`, ...).
    pub fn parse(value: &str) -> (r: Result<Key, KeyParseError>)
        ensures
            r matches Ok(k) ==> parse_key_name(value@) == Some(k@),
            r is Ok <==> parse_key_name(value@) is Some,
            r == Err::<Key, KeyParseError>(KeyParseError::Empty) <==> value@.len() == 0,
            r matches Err(KeyParseError::UnknownCodeName(s)) ==> s@ == value@ && value@.len() > 0
                && is_ascii_upper(value@[0]),
            r matches Err(KeyParseError::UnknownKey(s)) ==> s@ == value@ && value@.len() > 0
                && !is_ascii_upper(value@[0]),
    {
        let cs = chars_of(value);
        if cs.len() == 0 {
            return Err(KeyParseError::Empty);
        }
        let first = cs[0];
        if 'A' <= first && first <= 'Z' {
            if keycode_knows(value) {
                Ok(key_of(value))
            } else {
                Err(KeyParseError::UnknownCodeName(owned(value)))
            }
        } else {
            match abbreviation_exec(value) {
                Some(code) => Ok(key_of(code)),
                None => Err(KeyParseError::UnknownKey(owned(value))),
            }
        }
    }

    /// Parses a chord sequence: every character is a key name of its own.
    pub fn parse_sequence(sequence: &str) -> (r: Result<Vec<Key>, SequenceParseError>)
        ensures
            r is Ok <==> parses_as_sequence(sequence@),
            r matches Ok(keys) ==> key_names(keys@) == sequence_key_names(sequence@),
            r matches Err(SequenceParseError::InvalidSequence(s)) ==> s@ == sequence@,
    {
        let cs = chars_of(sequence);
        let n = cs.len();
        let mut keys: Vec<Key> = Vec::new();
        let mut i: usize = 0;
        while i < n
            invariant
                n == cs@.len(),
                cs@ == sequence@,
                i <= n,
                parses_as_sequence(sequence@.subrange(0, i as int)),
                key_names(keys@) == sequence_key_names(sequence@.subrange(0, i as int)),
            decreases n - i,
        {
            let mut one: Vec<char> = Vec::new();
            one.push(cs[i]);
            let s = string_from_chars(&one);
            let ghost pre = sequence@.subrange(0, i as int);
            let ghost post = sequence@.subrange(0, i as int + 1);
            assert(post.drop_last() =~= pre);
            assert(post.last() == sequence@[i as int]);
            assert(s@ =~= seq![sequence@[i as int]]);
            match Key::parse(s.as_str()) {
                Ok(k) => {
                    keys.push(k);
                    assert(key_names(keys@) =~= sequence_key_names(post));
                },
                Err(_) => {
                    proof {
                        lemma_sequence_prefix_fails(sequence@, i as int + 1);
                    }
                    return Err(SequenceParseError::InvalidSequence(owned(sequence)));
                },
            }
            i = i + 1;
        }
        assert(sequence@.subrange(0, n as int) =~= sequence@);
        Ok(keys)
    }
}

/// Whether every character of a sequence is a key name of its own.
pub open spec fn parses_as_sequence(s: Seq<char>) -> bool
    decreases s.len(),
{
    if s.len() == 0 {
        true
    } else {
        parses_as_sequence(s.drop_last()) && parse_key_name(seq![s.last()]) is Some
    }
}

/// The key names of the characters of a sequence (meaningful when it parses).
pub open spec fn sequence_key_names(s: Seq<char>) -> Seq<Seq<char>>
    decreases s.len(),
{
    if s.len() == 0 {
        Seq::empty()
    } else {
        sequence_key_names(s.drop_last()).push(parse_key_name(seq![s.last()]).unwrap())
    }
}

proof fn lemma_sequence_prefix_fails(s: Seq<char>, i: int)
    requires
        0 < i <= s.len(),
        !parses_as_sequence(s.subrange(0, i)),
    ensures
        !parses_as_sequence(s),
    decreases s.len() - i,
{
    if i < s.len() {
        let t = s.subrange(0, i + 1);
        assert(t.drop_last() =~= s.subrange(0, i));
        lemma_sequence_prefix_fails(s, i + 1);
    } else {
        assert(s.subrange(0, i) =~= s);
    }
}

/// Whether `names` contains the name of `k`.
pub fn contains_key(keys: &Vec<Key>, k: &Key) -> (r: bool)
    ensures
        r == key_names(keys@).contains(k@),
{
    let n = keys.len();
    let mut i: usize = 0;
    while i < n
        invariant
            n == keys@.len(),
            i <= n,
            forall|j: int| 0 <= j < i ==> keys@[j]@ != k@,
        decreases n - i,
    {
        if keys[i].same(k) {
            assert(key_names(keys@)[i as int] == k@);
            return true;
        }
        i = i + 1;
    }
    assert forall|j: int| 0 <= j < key_names(keys@).len() implies key_names(keys@)[j] != k@ by {
        assert(key_names(keys@)[j] == keys@[j]@);
    }
    false
}

/// Copies a sequence of keys.
pub fn copy_keys(keys: &Vec<Key>) -> (r: Vec<Key>)
    ensures
        r@ == keys@,
{
    let n = keys.len();
    let mut out: Vec<Key> = Vec::new();
    let mut i: usize = 0;
    while i < n
        invariant
            n == keys@.len(),
            i <= n,
            out@ == keys@.subrange(0, i as int),
        decreases n - i,
    {
        out.push(keys[i].copy());
        i = i + 1;
        assert(out@ =~= keys@.subrange(0, i as int));
    }
    assert(out@ =~= keys@);
    out
}

/// Whether two key sequences name the same keys in the same order.
pub fn same_keys(a: &Vec<Key>, b: &Vec<Key>) -> (r: bool)
    ensures
        r == (key_names(a@) == key_names(b@)),
{
    if a.len() != b.len() {
        assert(key_names(a@).len() != key_names(b@).len());
        return false;
    }
    let n = a.len();
    let mut i: usize = 0;
    while i < n
        invariant
            n == a@.len(),
            n == b@.len(),
            i <= n,
            forall|j: int| 0 <= j < i ==> a@[j]@ == b@[j]@,
        decreases n - i,
    {
        if !a[i].same(&b[i]) {
            assert(key_names(a@)[i as int] != key_names(b@)[i as int]);
            return false;
        }
        i = i + 1;
    }
    assert(key_names(a@) =~= key_names(b@));
    true
}

/// Modifier flags of a key combination.
#[derive(Debug, Clone, PartialEq, Eq, Hash)]
pub struct KeyCombinationModifiers {
    pub alt: bool,
    pub ctrl: bool,
    pub meta: bool,
    pub shift: bool,
}

/// A key pressed together with modifiers.
#[derive(Debug, Clone, PartialEq, Eq, Hash)]
pub struct KeyCombination {
    pub key: Key,
    pub modifiers: KeyCombinationModifiers,
}

/// The names that make up a serialized key combination: the held modifiers,
/// sorted alphabetically, then the key.
pub open spec fn combination_parts(c: KeyCombination) -> Seq<Seq<char>> {
    let a: Seq<Seq<char>> = if c.modifiers.alt { seq!["AltLeft"@] } else { Seq::empty() };
    let b: Seq<Seq<char>> = if c.modifiers.ctrl { seq!["ControlLeft"@] } else { Seq::empty() };
    let m: Seq<Seq<char>> = if c.modifiers.meta { seq!["MetaLeft"@] } else { Seq::empty() };
    let s: Seq<Seq<char>> = if c.modifiers.shift { seq!["ShiftLeft"@] } else { Seq::empty() };
    a + b + m + s + seq![c.key@]
}

/// The stored form of a key combination: its parts joined by `+`.
pub open spec fn serialized_combination(c: KeyCombination) -> Seq<char> {
    join(combination_parts(c), "+"@)
}

impl KeyCombination {
    /// Serializes the combination as `AltLeft+ControlLeft+MetaLeft+ShiftLeft+<key>`,
    /// listing only the modifiers that are held (alphabetical order keeps the stored
    /// form stable).
    pub fn serialize(&self) -> (r: String)
        ensures
            r@ == serialized_combination(*self),
    {
        let mut parts: Vec<String> = Vec::new();
        if self.modifiers.alt {
            parts.push(owned("AltLeft"));
        }
        if self.modifiers.ctrl {
            parts.push(owned("ControlLeft"));
        }
        if self.modifiers.meta {
            parts.push(owned("MetaLeft"));
        }
        if self.modifiers.shift {
            parts.push(owned("ShiftLeft"));
        }
        parts.push(copy_string(&self.key.0));
        assert(views(parts@) =~= combination_parts(*self));
        join_strings(&parts, "+")
    }

    /// Builds a combination from one entry of the global hotkey pool: a key name and
    /// the four modifier flags as they are written there (`"1"` means held).
    pub fn from_pool_entry(key: &str, meta: &str, ctrl: &str, alt: &str, shift: &str) -> (r:
        Result<KeyCombination, KeyParseError>)
        ensures
            r is Ok <==> parse_key_name(key@) is Some,
            r matches Ok(c) ==> {
                &&& Some(c.key@) == parse_key_name(key@)
                &&& c.modifiers.meta == (meta@ == "1"@)
                &&& c.modifiers.ctrl == (ctrl@ == "1"@)
                &&& c.modifiers.alt == (alt@ == "1"@)
                &&& c.modifiers.shift == (shift@ == "1"@)
            },
    {
        let modifiers = KeyCombinationModifiers {
            meta: str_eq(meta, "1"),
            ctrl: str_eq(ctrl, "1"),
            alt: str_eq(alt, "1"),
            shift: str_eq(shift, "1"),
        };
        match Key::parse(key) {
            Ok(k) => Ok(KeyCombination { key: k, modifiers }),
            Err(e) => Err(e),
        }
    }
}

} // verus!
