//! The chords the app has loaded, as the settings window lists them: each
//! with its scope, its key sequence and its action in readable form.
use crate::chords::chord::{Chord, ChordView};
use crate::chords::loaded::LoadedAppChords;
use crate::chords::runtime::ChordRuntime;
use crate::chords::shortcut::{shortcut_names, Shortcut};
use crate::input::key::{key_names, modifier_names, parse_key_name, spec_to_char, Key};
use crate::order::{fields_lt, pair_keys, sort_by_keys};
use crate::text::{
    ascii_upper, copy_string, debug_str, debug_string, join, join_strings, owned, string_from_chars,
    to_ascii_uppercase, views,
};
use vstd::prelude::*;

verus! {

/// A loaded chord as listed: the runtime it belongs to, the kind of that
/// scope, its sequence, its name and its action.
#[derive(Debug, Clone)]
pub struct ActiveChordInfo {
    pub scope: String,
    pub scope_kind: String,
    pub sequence: String,
    pub name: String,
    pub action: String,
}

/// The contents of an [`ActiveChordInfo`].
pub struct InfoView {
    pub scope: Seq<char>,
    pub scope_kind: Seq<char>,
    pub sequence: Seq<char>,
    pub name: Seq<char>,
    pub action: Seq<char>,
}

impl View for ActiveChordInfo {
    type V = InfoView;

    open spec fn view(&self) -> InfoView {
        InfoView {
            scope: self.scope@,
            scope_kind: self.scope_kind@,
            sequence: self.sequence@,
            name: self.name@,
            action: self.action@,
        }
    }
}

/// How a key without a printed character is shown.
pub open spec fn key_name_label(name: Seq<char>) -> Seq<char> {
    if name == "ShiftLeft"@ || name == "ShiftRight"@ {
        "Shift"@
    } else if name == "ControlLeft"@ || name == "ControlRight"@ {
        "Ctrl"@
    } else if name == "MetaLeft"@ || name == "MetaRight"@ {
        "Cmd"@
    } else if name == "AltLeft"@ || name == "AltRight"@ {
        "Alt"@
    } else if name == "CapsLock"@ {
        "Caps Lock"@
    } else if name == "Space"@ {
        "Space"@
    } else if name == "Enter"@ {
        "Enter"@
    } else if name == "Tab"@ {
        "Tab"@
    } else if name == "Escape"@ {
        "Esc"@
    } else if name == "ArrowUp"@ {
        "Up"@
    } else if name == "ArrowDown"@ {
        "Down"@
    } else if name == "ArrowLeft"@ {
        "Left"@
    } else if name == "ArrowRight"@ {
        "Right"@
    } else if name == "Backspace"@ {
        "Backspace"@
    } else if name == "Delete"@ {
        "Delete"@
    } else if name == "Home"@ {
        "Home"@
    } else if name == "End"@ {
        "End"@
    } else if name == "PageUp"@ {
        "Page Up"@
    } else if name == "PageDown"@ {
        "Page Down"@
    } else if name == "Fn"@ {
        "Fn"@
    } else {
        name
    }
}

/// How a key is shown: its printed character in upper case, or its label.
pub open spec fn key_label(name: Seq<char>) -> Seq<char> {
    match spec_to_char(name, false) {
        Some(c) => seq![ascii_upper(c)],
        None => key_name_label(name),
    }
}

/// The family of a modifier key: its name without the side (`Left` or `Right`).
pub open spec fn modifier_family(name: Seq<char>) -> Seq<char> {
    if name.len() >= 4 && name.skip(name.len() - 4) == "Left"@ {
        name.take(name.len() - 4)
    } else if name.len() >= 5 && name.skip(name.len() - 5) == "Right"@ {
        name.take(name.len() - 5)
    } else {
        name
    }
}

/// A text with its ASCII upper-case letters made lower-case.
pub open spec fn ascii_lowercase(s: Seq<char>) -> Seq<char> {
    s.map_values(|c: char| if 'A' <= c && c <= 'Z' { ((c as u32) + 32) as char } else { c })
}

proof fn lemma_modifier_facts(k: Seq<char>)
    requires
        modifier_names().contains(k),
    ensures
        k == "ShiftLeft"@ ==> key_label(k) == "Shift"@ && modifier_family(k) == "Shift"@,
        k == "ShiftRight"@ ==> key_label(k) == "Shift"@ && modifier_family(k) == "Shift"@,
        k == "ControlLeft"@ ==> key_label(k) == "Ctrl"@ && modifier_family(k) == "Control"@,
        k == "ControlRight"@ ==> key_label(k) == "Ctrl"@ && modifier_family(k) == "Control"@,
        k == "MetaLeft"@ ==> key_label(k) == "Cmd"@ && modifier_family(k) == "Meta"@,
        k == "MetaRight"@ ==> key_label(k) == "Cmd"@ && modifier_family(k) == "Meta"@,
        k == "AltLeft"@ ==> key_label(k) == "Alt"@ && modifier_family(k) == "Alt"@,
        k == "AltRight"@ ==> key_label(k) == "Alt"@ && modifier_family(k) == "Alt"@,
        k == "Fn"@ ==> key_label(k) == "Fn"@ && modifier_family(k) == "Fn"@,
        k == "ShiftLeft"@ || k == "ShiftRight"@ || k == "ControlLeft"@ || k == "ControlRight"@ || k == "MetaLeft"@
            || k == "MetaRight"@ || k == "AltLeft"@ || k == "AltRight"@ || k == "Fn"@,
{
    reveal_strlit("Alt");
    reveal_strlit("AltLeft");
    reveal_strlit("AltRight");
    reveal_strlit("ArrowDown");
    reveal_strlit("ArrowLeft");
    reveal_strlit("ArrowRight");
    reveal_strlit("ArrowUp");
    reveal_strlit("Backquote");
    reveal_strlit("Backslash");
    reveal_strlit("Backspace");
    reveal_strlit("BracketLeft");
    reveal_strlit("BracketRight");
    reveal_strlit("CapsLock");
    reveal_strlit("Cmd");
    reveal_strlit("Comma");
    reveal_strlit("Control");
    reveal_strlit("ControlLeft");
    reveal_strlit("ControlRight");
    reveal_strlit("Ctrl");
    reveal_strlit("Delete");
    reveal_strlit("Digit0");
    reveal_strlit("Digit1");
    reveal_strlit("Digit2");
    reveal_strlit("Digit3");
    reveal_strlit("Digit4");
    reveal_strlit("Digit5");
    reveal_strlit("Digit6");
    reveal_strlit("Digit7");
    reveal_strlit("Digit8");
    reveal_strlit("Digit9");
    reveal_strlit("End");
    reveal_strlit("Enter");
    reveal_strlit("Equal");
    reveal_strlit("Escape");
    reveal_strlit("Fn");
    reveal_strlit("Home");
    reveal_strlit("KeyA");
    reveal_strlit("KeyB");
    reveal_strlit("KeyC");
    reveal_strlit("KeyD");
    reveal_strlit("KeyE");
    reveal_strlit("KeyF");
    reveal_strlit("KeyG");
    reveal_strlit("KeyH");
    reveal_strlit("KeyI");
    reveal_strlit("KeyJ");
    reveal_strlit("KeyK");
    reveal_strlit("KeyL");
    reveal_strlit("KeyM");
    reveal_strlit("KeyN");
    reveal_strlit("KeyO");
    reveal_strlit("KeyP");
    reveal_strlit("KeyQ");
    reveal_strlit("KeyR");
    reveal_strlit("KeyS");
    reveal_strlit("KeyT");
    reveal_strlit("KeyU");
    reveal_strlit("KeyV");
    reveal_strlit("KeyW");
    reveal_strlit("KeyX");
    reveal_strlit("KeyY");
    reveal_strlit("KeyZ");
    reveal_strlit("Left");
    reveal_strlit("Meta");
    reveal_strlit("MetaLeft");
    reveal_strlit("MetaRight");
    reveal_strlit("Minus");
    reveal_strlit("PageDown");
    reveal_strlit("PageUp");
    reveal_strlit("Period");
    reveal_strlit("Quote");
    reveal_strlit("Right");
    reveal_strlit("Semicolon");
    reveal_strlit("Shift");
    reveal_strlit("ShiftLeft");
    reveal_strlit("ShiftRight");
    reveal_strlit("Slash");
    reveal_strlit("Space");
    reveal_strlit("Tab");
    reveal_strlit("alt");
    reveal_strlit("altgr");
    reveal_strlit("backspace");
    reveal_strlit("capslock");
    reveal_strlit("cmd");
    reveal_strlit("cmdorctrl");
    reveal_strlit("command");
    reveal_strlit("commandorcontrol");
    reveal_strlit("control");
    reveal_strlit("ctrl");
    reveal_strlit("delete");
    reveal_strlit("down");
    reveal_strlit("end");
    reveal_strlit("enter");
    reveal_strlit("esc");
    reveal_strlit("escape");
    reveal_strlit("f1");
    reveal_strlit("f10");
    reveal_strlit("f11");
    reveal_strlit("f12");
    reveal_strlit("f13");
    reveal_strlit("f14");
    reveal_strlit("f15");
    reveal_strlit("f16");
    reveal_strlit("f17");
    reveal_strlit("f18");
    reveal_strlit("f19");
    reveal_strlit("f2");
    reveal_strlit("f20");
    reveal_strlit("f21");
    reveal_strlit("f22");
    reveal_strlit("f23");
    reveal_strlit("f24");
    reveal_strlit("f3");
    reveal_strlit("f4");
    reveal_strlit("f5");
    reveal_strlit("f6");
    reveal_strlit("f7");
    reveal_strlit("f8");
    reveal_strlit("f9");
    reveal_strlit("fn");
    reveal_strlit("function");
    reveal_strlit("home");
    reveal_strlit("insert");
    reveal_strlit("left");
    reveal_strlit("medianexttrack");
    reveal_strlit("mediaplaypause");
    reveal_strlit("mediaprevioustrack");
    reveal_strlit("mediastop");
    reveal_strlit("meta");
    reveal_strlit("num0");
    reveal_strlit("num1");
    reveal_strlit("num2");
    reveal_strlit("num3");
    reveal_strlit("num4");
    reveal_strlit("num5");
    reveal_strlit("num6");
    reveal_strlit("num7");
    reveal_strlit("num8");
    reveal_strlit("num9");
    reveal_strlit("numadd");
    reveal_strlit("numdec");
    reveal_strlit("numdiv");
    reveal_strlit("numlock");
    reveal_strlit("nummult");
    reveal_strlit("numsub");
    reveal_strlit("opt");
    reveal_strlit("option");
    reveal_strlit("pagedown");
    reveal_strlit("pageup");
    reveal_strlit("pgdown");
    reveal_strlit("pgup");
    reveal_strlit("plus");
    reveal_strlit("printscreen");
    reveal_strlit("return");
    reveal_strlit("right");
    reveal_strlit("scrolllock");
    reveal_strlit("shift");
    reveal_strlit("super");
    assert("Alt"@.len() == 3);
    assert("AltLeft"@.len() == 7);
    assert("AltRight"@.len() == 8);
    assert("ArrowDown"@.len() == 9);
    assert("ArrowLeft"@.len() == 9);
    assert("ArrowRight"@.len() == 10);
    assert("ArrowUp"@.len() == 7);
    assert("Backquote"@.len() == 9);
    assert("Backslash"@.len() == 9);
    assert("Backspace"@.len() == 9);
    assert("BracketLeft"@.len() == 11);
    assert("BracketRight"@.len() == 12);
    assert("CapsLock"@.len() == 8);
    assert("Cmd"@.len() == 3);
    assert("Comma"@.len() == 5);
    assert("Control"@.len() == 7);
    assert("ControlLeft"@.len() == 11);
    assert("ControlRight"@.len() == 12);
    assert("Ctrl"@.len() == 4);
    assert("Delete"@.len() == 6);
    assert("Digit0"@.len() == 6);
    assert("Digit1"@.len() == 6);
    assert("Digit2"@.len() == 6);
    assert("Digit3"@.len() == 6);
    assert("Digit4"@.len() == 6);
    assert("Digit5"@.len() == 6);
    assert("Digit6"@.len() == 6);
    assert("Digit7"@.len() == 6);
    assert("Digit8"@.len() == 6);
    assert("Digit9"@.len() == 6);
    assert("End"@.len() == 3);
    assert("Enter"@.len() == 5);
    assert("Equal"@.len() == 5);
    assert("Escape"@.len() == 6);
    assert("Fn"@.len() == 2);
    assert("Home"@.len() == 4);
    assert("KeyA"@.len() == 4);
    assert("KeyB"@.len() == 4);
    assert("KeyC"@.len() == 4);
    assert("KeyD"@.len() == 4);
    assert("KeyE"@.len() == 4);
    assert("KeyF"@.len() == 4);
    assert("KeyG"@.len() == 4);
    assert("KeyH"@.len() == 4);
    assert("KeyI"@.len() == 4);
    assert("KeyJ"@.len() == 4);
    assert("KeyK"@.len() == 4);
    assert("KeyL"@.len() == 4);
    assert("KeyM"@.len() == 4);
    assert("KeyN"@.len() == 4);
    assert("KeyO"@.len() == 4);
    assert("KeyP"@.len() == 4);
    assert("KeyQ"@.len() == 4);
    assert("KeyR"@.len() == 4);
    assert("KeyS"@.len() == 4);
    assert("KeyT"@.len() == 4);
    assert("KeyU"@.len() == 4);
    assert("KeyV"@.len() == 4);
    assert("KeyW"@.len() == 4);
    assert("KeyX"@.len() == 4);
    assert("KeyY"@.len() == 4);
    assert("KeyZ"@.len() == 4);
    assert("Left"@.len() == 4);
    assert("Meta"@.len() == 4);
    assert("MetaLeft"@.len() == 8);
    assert("MetaRight"@.len() == 9);
    assert("Minus"@.len() == 5);
    assert("PageDown"@.len() == 8);
    assert("PageUp"@.len() == 6);
    assert("Period"@.len() == 6);
    assert("Quote"@.len() == 5);
    assert("Right"@.len() == 5);
    assert("Semicolon"@.len() == 9);
    assert("Shift"@.len() == 5);
    assert("ShiftLeft"@.len() == 9);
    assert("ShiftRight"@.len() == 10);
    assert("Slash"@.len() == 5);
    assert("Space"@.len() == 5);
    assert("Tab"@.len() == 3);
    assert("alt"@.len() == 3);
    assert("altgr"@.len() == 5);
    assert("backspace"@.len() == 9);
    assert("capslock"@.len() == 8);
    assert("cmd"@.len() == 3);
    assert("cmdorctrl"@.len() == 9);
    assert("command"@.len() == 7);
    assert("commandorcontrol"@.len() == 16);
    assert("control"@.len() == 7);
    assert("ctrl"@.len() == 4);
    assert("delete"@.len() == 6);
    assert("down"@.len() == 4);
    assert("end"@.len() == 3);
    assert("enter"@.len() == 5);
    assert("esc"@.len() == 3);
    assert("escape"@.len() == 6);
    assert("f1"@.len() == 2);
    assert("f10"@.len() == 3);
    assert("f11"@.len() == 3);
    assert("f12"@.len() == 3);
    assert("f13"@.len() == 3);
    assert("f14"@.len() == 3);
    assert("f15"@.len() == 3);
    assert("f16"@.len() == 3);
    assert("f17"@.len() == 3);
    assert("f18"@.len() == 3);
    assert("f19"@.len() == 3);
    assert("f2"@.len() == 2);
    assert("f20"@.len() == 3);
    assert("f21"@.len() == 3);
    assert("f22"@.len() == 3);
    assert("f23"@.len() == 3);
    assert("f24"@.len() == 3);
    assert("f3"@.len() == 2);
    assert("f4"@.len() == 2);
    assert("f5"@.len() == 2);
    assert("f6"@.len() == 2);
    assert("f7"@.len() == 2);
    assert("f8"@.len() == 2);
    assert("f9"@.len() == 2);
    assert("fn"@.len() == 2);
    assert("function"@.len() == 8);
    assert("home"@.len() == 4);
    assert("insert"@.len() == 6);
    assert("left"@.len() == 4);
    assert("medianexttrack"@.len() == 14);
    assert("mediaplaypause"@.len() == 14);
    assert("mediaprevioustrack"@.len() == 18);
    assert("mediastop"@.len() == 9);
    assert("meta"@.len() == 4);
    assert("num0"@.len() == 4);
    assert("num1"@.len() == 4);
    assert("num2"@.len() == 4);
    assert("num3"@.len() == 4);
    assert("num4"@.len() == 4);
    assert("num5"@.len() == 4);
    assert("num6"@.len() == 4);
    assert("num7"@.len() == 4);
    assert("num8"@.len() == 4);
    assert("num9"@.len() == 4);
    assert("numadd"@.len() == 6);
    assert("numdec"@.len() == 6);
    assert("numdiv"@.len() == 6);
    assert("numlock"@.len() == 7);
    assert("nummult"@.len() == 7);
    assert("numsub"@.len() == 6);
    assert("opt"@.len() == 3);
    assert("option"@.len() == 6);
    assert("pagedown"@.len() == 8);
    assert("pageup"@.len() == 6);
    assert("pgdown"@.len() == 6);
    assert("pgup"@.len() == 4);
    assert("plus"@.len() == 4);
    assert("printscreen"@.len() == 11);
    assert("return"@.len() == 6);
    assert("right"@.len() == 5);
    assert("scrolllock"@.len() == 10);
    assert("shift"@.len() == 5);
    assert("super"@.len() == 5);
    let i = choose|i: int| 0 <= i < modifier_names().len() && modifier_names()[i] == k;
    assert(0 <= i < 9);
    if k == "ShiftLeft"@ {
        assert("ShiftLeft"@[0] != "Backquote"@[0]);
        assert("ShiftLeft"@[0] != "Backslash"@[0]);
        assert("ShiftLeft"@[1] != "Semicolon"@[1]);
        assert("ShiftLeft"@.skip(5) =~= "Left"@);
        assert("ShiftLeft"@.take(5) =~= "Shift"@);
    } else if k == "ShiftRight"@ {
        assert("ShiftRight"@.skip(6)[0] != "Left"@[0]);
        assert("ShiftRight"@.skip(5) =~= "Right"@);
        assert("ShiftRight"@.take(5) =~= "Shift"@);
    } else if k == "ControlLeft"@ {
        assert("ControlLeft"@[0] != "BracketLeft"@[0]);
        assert("ControlLeft"@.skip(7) =~= "Left"@);
        assert("ControlLeft"@.take(7) =~= "Control"@);
    } else if k == "ControlRight"@ {
        assert("ControlRight"@[0] != "BracketRight"@[0]);
        assert("ControlRight"@.skip(8)[0] != "Left"@[0]);
        assert("ControlRight"@.skip(7) =~= "Right"@);
        assert("ControlRight"@.take(7) =~= "Control"@);
    } else if k == "MetaLeft"@ {
        assert("MetaLeft"@.skip(4) =~= "Left"@);
        assert("MetaLeft"@.take(4) =~= "Meta"@);
    } else if k == "MetaRight"@ {
        assert("MetaRight"@[0] != "Backquote"@[0]);
        assert("MetaRight"@[0] != "Backslash"@[0]);
        assert("MetaRight"@[0] != "Semicolon"@[0]);
        assert("MetaRight"@[0] != "ShiftLeft"@[0]);
        assert("MetaRight"@.skip(5)[0] != "Left"@[0]);
        assert("MetaRight"@.skip(4) =~= "Right"@);
        assert("MetaRight"@.take(4) =~= "Meta"@);
    } else if k == "AltLeft"@ {
        assert("AltLeft"@.skip(3) =~= "Left"@);
        assert("AltLeft"@.take(3) =~= "Alt"@);
    } else if k == "AltRight"@ {
        assert("AltRight"@[0] != "MetaLeft"@[0]);
        assert("AltRight"@.skip(4)[0] != "Left"@[0]);
        assert("AltRight"@.skip(3) =~= "Right"@);
        assert("AltRight"@.take(3) =~= "Alt"@);
    } else if k == "Fn"@ {
    }
}

/// Two modifier keys are shown with the same label exactly when they are the
/// two sides of one modifier (Shift, Control, Meta, Alt, Fn): each modifier
/// family has a label of its own.
pub proof fn lemma_modifier_labels(a: Seq<char>, b: Seq<char>)
    requires
        modifier_names().contains(a),
        modifier_names().contains(b),
    ensures
        (key_label(a) == key_label(b)) <==> (modifier_family(a) == modifier_family(b)),
{
    lemma_modifier_facts(a);
    lemma_modifier_facts(b);
    reveal_strlit("Shift");
    assert("Shift"@.len() == 5);
    reveal_strlit("Ctrl");
    assert("Ctrl"@.len() == 4);
    reveal_strlit("Cmd");
    assert("Cmd"@.len() == 3);
    reveal_strlit("Alt");
    assert("Alt"@.len() == 3);
    reveal_strlit("Fn");
    assert("Fn"@.len() == 2);
    assert("Alt"@[0] != "Cmd"@[0]);
    reveal_strlit("Shift");
    assert("Shift"@.len() == 5);
    reveal_strlit("Control");
    assert("Control"@.len() == 7);
    reveal_strlit("Meta");
    assert("Meta"@.len() == 4);
    reveal_strlit("Alt");
    assert("Alt"@.len() == 3);
    reveal_strlit("Fn");
    assert("Fn"@.len() == 2);
}

/// A modifier key's label, typed in lower case in a shortcut, names a key of
/// the same modifier family (`Ctrl` types `ctrl`, which is Control).
pub proof fn lemma_modifier_label_parses(k: Seq<char>)
    requires
        modifier_names().contains(k),
    ensures
        parse_key_name(ascii_lowercase(key_label(k))) matches Some(p) && modifier_family(p) == modifier_family(
            k,
        ),
{
    lemma_modifier_facts(k);
    lemma_modifier_facts("AltLeft"@);
    lemma_modifier_facts("ControlLeft"@);
    lemma_modifier_facts("Fn"@);
    lemma_modifier_facts("MetaLeft"@);
    lemma_modifier_facts("ShiftLeft"@);
    reveal_strlit("Alt");
    reveal_strlit("AltLeft");
    reveal_strlit("AltRight");
    reveal_strlit("ArrowDown");
    reveal_strlit("ArrowLeft");
    reveal_strlit("ArrowRight");
    reveal_strlit("ArrowUp");
    reveal_strlit("Backquote");
    reveal_strlit("Backslash");
    reveal_strlit("Backspace");
    reveal_strlit("BracketLeft");
    reveal_strlit("BracketRight");
    reveal_strlit("CapsLock");
    reveal_strlit("Cmd");
    reveal_strlit("Comma");
    reveal_strlit("Control");
    reveal_strlit("ControlLeft");
    reveal_strlit("ControlRight");
    reveal_strlit("Ctrl");
    reveal_strlit("Delete");
    reveal_strlit("Digit0");
    reveal_strlit("Digit1");
    reveal_strlit("Digit2");
    reveal_strlit("Digit3");
    reveal_strlit("Digit4");
    reveal_strlit("Digit5");
    reveal_strlit("Digit6");
    reveal_strlit("Digit7");
    reveal_strlit("Digit8");
    reveal_strlit("Digit9");
    reveal_strlit("End");
    reveal_strlit("Enter");
    reveal_strlit("Equal");
    reveal_strlit("Escape");
    reveal_strlit("Fn");
    reveal_strlit("Home");
    reveal_strlit("KeyA");
    reveal_strlit("KeyB");
    reveal_strlit("KeyC");
    reveal_strlit("KeyD");
    reveal_strlit("KeyE");
    reveal_strlit("KeyF");
    reveal_strlit("KeyG");
    reveal_strlit("KeyH");
    reveal_strlit("KeyI");
    reveal_strlit("KeyJ");
    reveal_strlit("KeyK");
    reveal_strlit("KeyL");
    reveal_strlit("KeyM");
    reveal_strlit("KeyN");
    reveal_strlit("KeyO");
    reveal_strlit("KeyP");
    reveal_strlit("KeyQ");
    reveal_strlit("KeyR");
    reveal_strlit("KeyS");
    reveal_strlit("KeyT");
    reveal_strlit("KeyU");
    reveal_strlit("KeyV");
    reveal_strlit("KeyW");
    reveal_strlit("KeyX");
    reveal_strlit("KeyY");
    reveal_strlit("KeyZ");
    reveal_strlit("Left");
    reveal_strlit("Meta");
    reveal_strlit("MetaLeft");
    reveal_strlit("MetaRight");
    reveal_strlit("Minus");
    reveal_strlit("PageDown");
    reveal_strlit("PageUp");
    reveal_strlit("Period");
    reveal_strlit("Quote");
    reveal_strlit("Right");
    reveal_strlit("Semicolon");
    reveal_strlit("Shift");
    reveal_strlit("ShiftLeft");
    reveal_strlit("ShiftRight");
    reveal_strlit("Slash");
    reveal_strlit("Space");
    reveal_strlit("Tab");
    reveal_strlit("alt");
    reveal_strlit("altgr");
    reveal_strlit("backspace");
    reveal_strlit("capslock");
    reveal_strlit("cmd");
    reveal_strlit("cmdorctrl");
    reveal_strlit("command");
    reveal_strlit("commandorcontrol");
    reveal_strlit("control");
    reveal_strlit("ctrl");
    reveal_strlit("delete");
    reveal_strlit("down");
    reveal_strlit("end");
    reveal_strlit("enter");
    reveal_strlit("esc");
    reveal_strlit("escape");
    reveal_strlit("f1");
    reveal_strlit("f10");
    reveal_strlit("f11");
    reveal_strlit("f12");
    reveal_strlit("f13");
    reveal_strlit("f14");
    reveal_strlit("f15");
    reveal_strlit("f16");
    reveal_strlit("f17");
    reveal_strlit("f18");
    reveal_strlit("f19");
    reveal_strlit("f2");
    reveal_strlit("f20");
    reveal_strlit("f21");
    reveal_strlit("f22");
    reveal_strlit("f23");
    reveal_strlit("f24");
    reveal_strlit("f3");
    reveal_strlit("f4");
    reveal_strlit("f5");
    reveal_strlit("f6");
    reveal_strlit("f7");
    reveal_strlit("f8");
    reveal_strlit("f9");
    reveal_strlit("fn");
    reveal_strlit("function");
    reveal_strlit("home");
    reveal_strlit("insert");
    reveal_strlit("left");
    reveal_strlit("medianexttrack");
    reveal_strlit("mediaplaypause");
    reveal_strlit("mediaprevioustrack");
    reveal_strlit("mediastop");
    reveal_strlit("meta");
    reveal_strlit("num0");
    reveal_strlit("num1");
    reveal_strlit("num2");
    reveal_strlit("num3");
    reveal_strlit("num4");
    reveal_strlit("num5");
    reveal_strlit("num6");
    reveal_strlit("num7");
    reveal_strlit("num8");
    reveal_strlit("num9");
    reveal_strlit("numadd");
    reveal_strlit("numdec");
    reveal_strlit("numdiv");
    reveal_strlit("numlock");
    reveal_strlit("nummult");
    reveal_strlit("numsub");
    reveal_strlit("opt");
    reveal_strlit("option");
    reveal_strlit("pagedown");
    reveal_strlit("pageup");
    reveal_strlit("pgdown");
    reveal_strlit("pgup");
    reveal_strlit("plus");
    reveal_strlit("printscreen");
    reveal_strlit("return");
    reveal_strlit("right");
    reveal_strlit("scrolllock");
    reveal_strlit("shift");
    reveal_strlit("super");
    assert("Alt"@.len() == 3);
    assert("AltLeft"@.len() == 7);
    assert("AltRight"@.len() == 8);
    assert("ArrowDown"@.len() == 9);
    assert("ArrowLeft"@.len() == 9);
    assert("ArrowRight"@.len() == 10);
    assert("ArrowUp"@.len() == 7);
    assert("Backquote"@.len() == 9);
    assert("Backslash"@.len() == 9);
    assert("Backspace"@.len() == 9);
    assert("BracketLeft"@.len() == 11);
    assert("BracketRight"@.len() == 12);
    assert("CapsLock"@.len() == 8);
    assert("Cmd"@.len() == 3);
    assert("Comma"@.len() == 5);
    assert("Control"@.len() == 7);
    assert("ControlLeft"@.len() == 11);
    assert("ControlRight"@.len() == 12);
    assert("Ctrl"@.len() == 4);
    assert("Delete"@.len() == 6);
    assert("Digit0"@.len() == 6);
    assert("Digit1"@.len() == 6);
    assert("Digit2"@.len() == 6);
    assert("Digit3"@.len() == 6);
    assert("Digit4"@.len() == 6);
    assert("Digit5"@.len() == 6);
    assert("Digit6"@.len() == 6);
    assert("Digit7"@.len() == 6);
    assert("Digit8"@.len() == 6);
    assert("Digit9"@.len() == 6);
    assert("End"@.len() == 3);
    assert("Enter"@.len() == 5);
    assert("Equal"@.len() == 5);
    assert("Escape"@.len() == 6);
    assert("Fn"@.len() == 2);
    assert("Home"@.len() == 4);
    assert("KeyA"@.len() == 4);
    assert("KeyB"@.len() == 4);
    assert("KeyC"@.len() == 4);
    assert("KeyD"@.len() == 4);
    assert("KeyE"@.len() == 4);
    assert("KeyF"@.len() == 4);
    assert("KeyG"@.len() == 4);
    assert("KeyH"@.len() == 4);
    assert("KeyI"@.len() == 4);
    assert("KeyJ"@.len() == 4);
    assert("KeyK"@.len() == 4);
    assert("KeyL"@.len() == 4);
    assert("KeyM"@.len() == 4);
    assert("KeyN"@.len() == 4);
    assert("KeyO"@.len() == 4);
    assert("KeyP"@.len() == 4);
    assert("KeyQ"@.len() == 4);
    assert("KeyR"@.len() == 4);
    assert("KeyS"@.len() == 4);
    assert("KeyT"@.len() == 4);
    assert("KeyU"@.len() == 4);
    assert("KeyV"@.len() == 4);
    assert("KeyW"@.len() == 4);
    assert("KeyX"@.len() == 4);
    assert("KeyY"@.len() == 4);
    assert("KeyZ"@.len() == 4);
    assert("Left"@.len() == 4);
    assert("Meta"@.len() == 4);
    assert("MetaLeft"@.len() == 8);
    assert("MetaRight"@.len() == 9);
    assert("Minus"@.len() == 5);
    assert("PageDown"@.len() == 8);
    assert("PageUp"@.len() == 6);
    assert("Period"@.len() == 6);
    assert("Quote"@.len() == 5);
    assert("Right"@.len() == 5);
    assert("Semicolon"@.len() == 9);
    assert("Shift"@.len() == 5);
    assert("ShiftLeft"@.len() == 9);
    assert("ShiftRight"@.len() == 10);
    assert("Slash"@.len() == 5);
    assert("Space"@.len() == 5);
    assert("Tab"@.len() == 3);
    assert("alt"@.len() == 3);
    assert("altgr"@.len() == 5);
    assert("backspace"@.len() == 9);
    assert("capslock"@.len() == 8);
    assert("cmd"@.len() == 3);
    assert("cmdorctrl"@.len() == 9);
    assert("command"@.len() == 7);
    assert("commandorcontrol"@.len() == 16);
    assert("control"@.len() == 7);
    assert("ctrl"@.len() == 4);
    assert("delete"@.len() == 6);
    assert("down"@.len() == 4);
    assert("end"@.len() == 3);
    assert("enter"@.len() == 5);
    assert("esc"@.len() == 3);
    assert("escape"@.len() == 6);
    assert("f1"@.len() == 2);
    assert("f10"@.len() == 3);
    assert("f11"@.len() == 3);
    assert("f12"@.len() == 3);
    assert("f13"@.len() == 3);
    assert("f14"@.len() == 3);
    assert("f15"@.len() == 3);
    assert("f16"@.len() == 3);
    assert("f17"@.len() == 3);
    assert("f18"@.len() == 3);
    assert("f19"@.len() == 3);
    assert("f2"@.len() == 2);
    assert("f20"@.len() == 3);
    assert("f21"@.len() == 3);
    assert("f22"@.len() == 3);
    assert("f23"@.len() == 3);
    assert("f24"@.len() == 3);
    assert("f3"@.len() == 2);
    assert("f4"@.len() == 2);
    assert("f5"@.len() == 2);
    assert("f6"@.len() == 2);
    assert("f7"@.len() == 2);
    assert("f8"@.len() == 2);
    assert("f9"@.len() == 2);
    assert("fn"@.len() == 2);
    assert("function"@.len() == 8);
    assert("home"@.len() == 4);
    assert("insert"@.len() == 6);
    assert("left"@.len() == 4);
    assert("medianexttrack"@.len() == 14);
    assert("mediaplaypause"@.len() == 14);
    assert("mediaprevioustrack"@.len() == 18);
    assert("mediastop"@.len() == 9);
    assert("meta"@.len() == 4);
    assert("num0"@.len() == 4);
    assert("num1"@.len() == 4);
    assert("num2"@.len() == 4);
    assert("num3"@.len() == 4);
    assert("num4"@.len() == 4);
    assert("num5"@.len() == 4);
    assert("num6"@.len() == 4);
    assert("num7"@.len() == 4);
    assert("num8"@.len() == 4);
    assert("num9"@.len() == 4);
    assert("numadd"@.len() == 6);
    assert("numdec"@.len() == 6);
    assert("numdiv"@.len() == 6);
    assert("numlock"@.len() == 7);
    assert("nummult"@.len() == 7);
    assert("numsub"@.len() == 6);
    assert("opt"@.len() == 3);
    assert("option"@.len() == 6);
    assert("pagedown"@.len() == 8);
    assert("pageup"@.len() == 6);
    assert("pgdown"@.len() == 6);
    assert("pgup"@.len() == 4);
    assert("plus"@.len() == 4);
    assert("printscreen"@.len() == 11);
    assert("return"@.len() == 6);
    assert("right"@.len() == 5);
    assert("scrolllock"@.len() == 10);
    assert("shift"@.len() == 5);
    assert("super"@.len() == 5);
    if key_label(k) == "Shift"@ {
        assert("shift"@[0] != "altgr"@[0]);
        assert("shift"@[1] != "super"@[1]);
        assert("shift"@[0] != "enter"@[0]);
        assert("shift"@[0] != "right"@[0]);
        assert(ascii_lowercase("Shift"@) =~= "shift"@);
    } else if key_label(k) == "Ctrl"@ {
        assert("ctrl"@[0] != "meta"@[0]);
        assert(ascii_lowercase("Ctrl"@) =~= "ctrl"@);
    } else if key_label(k) == "Cmd"@ {
        assert("cmd"@[0] != "alt"@[0]);
        assert("cmd"@[0] != "opt"@[0]);
        assert(ascii_lowercase("Cmd"@) =~= "cmd"@);
    } else if key_label(k) == "Alt"@ {
        assert(ascii_lowercase("Alt"@) =~= "alt"@);
    } else if key_label(k) == "Fn"@ {
        assert(ascii_lowercase("Fn"@) =~= "fn"@);
    }
}

pub open spec fn labels(keys: Seq<Seq<char>>) -> Seq<Seq<char>> {
    keys.map_values(|k: Seq<char>| key_label(k))
}

/// A key sequence as shown: its keys' labels separated by spaces.
pub open spec fn sequence_text(keys: Seq<Seq<char>>) -> Seq<char> {
    join(labels(keys), " "@)
}

/// A shortcut as shown: each chord's key labels joined by ` + `, the chords
/// separated by `, `.
pub open spec fn shortcut_text(s: Seq<Seq<Seq<char>>>) -> Seq<char> {
    join(s.map_values(|c: Seq<Seq<char>>| join(labels(c), " + "@)), ", "@)
}

/// A list of strings as `{:?}` prints it.
pub open spec fn debug_list(items: Seq<Seq<char>>) -> Seq<char> {
    "["@ + join(items.map_values(|a: Seq<char>| debug_str(a)), ", "@) + "]"@
}

/// What a chord does, as shown.
pub open spec fn action_text(c: ChordView) -> Seq<char> {
    match c.shortcut {
        Some(s) => "Shortcut: "@ + shortcut_text(s),
        None => match c.shell {
            Some(sh) => "Shell: "@ + sh,
            None => match c.js {
                Some(j) => "Args: "@ + debug_list(j.args),
                None => "No action"@,
            },
        },
    }
}

/// The listing of a chord of the runtime `scope`.
pub open spec fn info_of(scope: Seq<char>, c: ChordView) -> InfoView {
    InfoView {
        scope,
        scope_kind: "app"@,
        sequence: sequence_text(c.keys),
        name: c.name,
        action: action_text(c),
    }
}

/// The text by which listings are told apart: all fields, separated by `\u{1f}`.
pub open spec fn fingerprint(i: InfoView) -> Seq<char> {
    join(seq![i.scope_kind, i.scope, i.sequence, i.name, i.action], "\u{1f}"@)
}

/// The fields listings are ordered by: scope kind, scope, sequence, name.
pub open spec fn info_key(i: InfoView) -> Seq<Seq<char>> {
    seq![i.scope_kind, i.scope, i.sequence, i.name]
}

pub open spec fn entries_items(scope: Seq<char>, es: Seq<(Vec<Key>, Chord)>) -> Seq<InfoView> {
    es.map_values(|e: (Vec<Key>, Chord)| info_of(scope, e.1@))
}

/// The listings of all chords of all runtimes, in order.
pub open spec fn all_items(rts: Seq<(String, ChordRuntime)>) -> Seq<InfoView>
    decreases rts.len(),
{
    if rts.len() == 0 {
        Seq::empty()
    } else {
        all_items(rts.drop_last()) + entries_items(rts.last().0@, rts.last().1.chords.entries@)
    }
}

pub open spec fn fingerprints(s: Seq<InfoView>) -> Seq<Seq<char>> {
    s.map_values(|i: InfoView| fingerprint(i))
}

/// The listings without those whose fingerprint occurred before.
pub open spec fn dedup_items(s: Seq<InfoView>) -> Seq<InfoView>
    decreases s.len(),
{
    if s.len() == 0 {
        Seq::empty()
    } else {
        let d = dedup_items(s.drop_last());
        if fingerprints(d).contains(fingerprint(s.last())) {
            d
        } else {
            d.push(s.last())
        }
    }
}

/// How a key is shown (see [`key_label`]).
pub fn format_key(key: &Key) -> (r: String)
    ensures
        r@ == key_label(key@),
{
    if let Some(ch) = key.to_char(false) {
        let mut v: Vec<char> = Vec::new();
        v.push(to_ascii_uppercase(ch));
        assert(v@ =~= seq![ascii_upper(ch)]);
        return string_from_chars(&v);
    }
    if key.is("ShiftLeft") || key.is("ShiftRight") {
        owned("Shift")
    } else if key.is("ControlLeft") || key.is("ControlRight") {
        owned("Ctrl")
    } else if key.is("MetaLeft") || key.is("MetaRight") {
        owned("Cmd")
    } else if key.is("AltLeft") || key.is("AltRight") {
        owned("Alt")
    } else if key.is("CapsLock") {
        owned("Caps Lock")
    } else if key.is("Space") {
        owned("Space")
    } else if key.is("Enter") {
        owned("Enter")
    } else if key.is("Tab") {
        owned("Tab")
    } else if key.is("Escape") {
        owned("Esc")
    } else if key.is("ArrowUp") {
        owned("Up")
    } else if key.is("ArrowDown") {
        owned("Down")
    } else if key.is("ArrowLeft") {
        owned("Left")
    } else if key.is("ArrowRight") {
        owned("Right")
    } else if key.is("Backspace") {
        owned("Backspace")
    } else if key.is("Delete") {
        owned("Delete")
    } else if key.is("Home") {
        owned("Home")
    } else if key.is("End") {
        owned("End")
    } else if key.is("PageUp") {
        owned("Page Up")
    } else if key.is("PageDown") {
        owned("Page Down")
    } else if key.is("Fn") {
        owned("Fn")
    } else {
        owned(key.name())
    }
}

fn key_labels(keys: &Vec<Key>) -> (r: Vec<String>)
    ensures
        views(r@) == labels(key_names(keys@)),
{
    let n = keys.len();
    let mut out: Vec<String> = Vec::new();
    let mut i: usize = 0;
    while i < n
        invariant
            n == keys@.len(),
            i <= n,
            views(out@) == labels(key_names(keys@)).take(i as int),
        decreases n - i,
    {
        let ghost before = out@;
        let l = format_key(&keys[i]);
        out.push(l);
        assert(views(out@) =~= views(before).push(l@));
        assert(labels(key_names(keys@)).take(i as int + 1) =~= labels(key_names(keys@)).take(i as int).push(
            key_label(keys@[i as int]@),
        ));
        i = i + 1;
    }
    assert(labels(key_names(keys@)).take(n as int) =~= labels(key_names(keys@)));
    out
}

/// A key sequence as shown (see [`sequence_text`]).
pub fn format_sequence(keys: &Vec<Key>) -> (r: String)
    ensures
        r@ == sequence_text(key_names(keys@)),
{
    join_strings(&key_labels(keys), " ")
}

/// A shortcut as shown (see [`shortcut_text`]).
pub fn format_shortcut(shortcut: &Shortcut) -> (r: String)
    ensures
        r@ == shortcut_text(shortcut_names(*shortcut)),
{
    let ghost sn = shortcut_names(*shortcut);
    let ghost parts = sn.map_values(|c: Seq<Seq<char>>| join(labels(c), " + "@));
    let n = shortcut.chords.len();
    let mut out: Vec<String> = Vec::new();
    let mut i: usize = 0;
    while i < n
        invariant
            n == shortcut.chords@.len(),
            sn == shortcut_names(*shortcut),
            parts == sn.map_values(|c: Seq<Seq<char>>| join(labels(c), " + "@)),
            i <= n,
            views(out@) == parts.take(i as int),
        decreases n - i,
    {
        let ghost before = out@;
        let part = join_strings(&key_labels(&shortcut.chords[i].keys), " + ");
        assert(sn[i as int] == key_names(shortcut.chords@[i as int].keys@));
        out.push(part);
        assert(views(out@) =~= views(before).push(part@));
        assert(parts.take(i as int + 1) =~= parts.take(i as int).push(parts[i as int]));
        i = i + 1;
    }
    assert(parts.take(n as int) =~= parts);
    join_strings(&out, ", ")
}

/// What a chord does, as shown (see [`action_text`]).
pub fn format_action(chord: &Chord) -> (r: String)
    ensures
        r@ == action_text(chord@),
{
    if let Some(shortcut) = &chord.shortcut {
        let mut out: Vec<String> = Vec::new();
        out.push(owned("Shortcut: "));
        out.push(format_shortcut(shortcut));
        return concat_two(&out);
    }
    if let Some(shell) = &chord.shell {
        let mut out: Vec<String> = Vec::new();
        out.push(owned("Shell: "));
        out.push(copy_string(shell));
        return concat_two(&out);
    }
    if let Some(js) = &chord.js {
        let n = js.args.len();
        let mut debugs: Vec<String> = Vec::new();
        let ghost items = views(js.args@).map_values(|a: Seq<char>| debug_str(a));
        let mut i: usize = 0;
        while i < n
            invariant
                n == js.args@.len(),
                items == views(js.args@).map_values(|a: Seq<char>| debug_str(a)),
                i <= n,
                views(debugs@) == items.take(i as int),
            decreases n - i,
        {
            let ghost before = debugs@;
            let d = debug_string(js.args[i].as_str());
            debugs.push(d);
            assert(views(debugs@) =~= views(before).push(d@));
            assert(items.take(i as int + 1) =~= items.take(i as int).push(items[i as int]));
            i = i + 1;
        }
        assert(items.take(n as int) =~= items);
        let inner = join_strings(&debugs, ", ");
        let mut out: Vec<String> = Vec::new();
        out.push(owned("Args: ["));
        out.push(inner);
        let mid = concat_two(&out);
        let mut out2: Vec<String> = Vec::new();
        out2.push(mid);
        out2.push(owned("]"));
        let r = concat_two(&out2);
        proof {
            reveal_strlit("Args: [");
            reveal_strlit("Args: ");
            reveal_strlit("[");
            assert("Args: ["@ =~= "Args: "@ + "["@);
        }
        return r;
    }
    owned("No action")
}

/// The two strings one after the other.
fn concat_two(parts: &Vec<String>) -> (r: String)
    requires
        parts@.len() == 2,
    ensures
        r@ == parts@[0]@ + parts@[1]@,
{
    let mut cs: Vec<char> = Vec::new();
    crate::text::push_str_chars(&mut cs, parts[0].as_str());
    crate::text::push_str_chars(&mut cs, parts[1].as_str());
    string_from_chars(&cs)
}


fn contains_string(v: &Vec<String>, s: &String) -> (r: bool)
    ensures
        r == views(v@).contains(s@),
{
    let n = v.len();
    let mut i: usize = 0;
    while i < n
        invariant
            n == v@.len(),
            i <= n,
            forall|j: int| 0 <= j < i ==> v@[j]@ != s@,
        decreases n - i,
    {
        if v[i] == *s {
            assert(views(v@)[i as int] == s@);
            return true;
        }
        i = i + 1;
    }
    assert forall|j: int| 0 <= j < views(v@).len() implies views(v@)[j] != s@ by {
        assert(views(v@)[j] == v@[j]@);
    }
    false
}

/// The listing of a chord, with its fingerprint and its ordering fields.
fn chord_info(scope: &String, chord: &Chord) -> (r: (ActiveChordInfo, String, Vec<String>))
    ensures
        r.0@ == info_of(scope@, chord@),
        r.1@ == fingerprint(r.0@),
        views(r.2@) == info_key(r.0@),
{
    let info = ActiveChordInfo {
        scope: copy_string(scope),
        scope_kind: owned("app"),
        sequence: format_sequence(&chord.keys),
        name: copy_string(&chord.name),
        action: format_action(chord),
    };
    let mut fields: Vec<String> = Vec::new();
    fields.push(copy_string(&info.scope_kind));
    fields.push(copy_string(&info.scope));
    fields.push(copy_string(&info.sequence));
    fields.push(copy_string(&info.name));
    fields.push(copy_string(&info.action));
    assert(views(fields@) =~= seq![info@.scope_kind, info@.scope, info@.sequence, info@.name, info@.action]);
    let fp = join_strings(&fields, "\u{1f}");
    let mut key: Vec<String> = Vec::new();
    key.push(copy_string(&info.scope_kind));
    key.push(copy_string(&info.scope));
    key.push(copy_string(&info.sequence));
    key.push(copy_string(&info.name));
    assert(views(key@) =~= info_key(info@));
    (info, fp, key)
}

pub open spec fn pair_infos(s: Seq<(Vec<String>, ActiveChordInfo)>) -> Seq<InfoView> {
    s.map_values(|p: (Vec<String>, ActiveChordInfo)| p.1@)
}

proof fn lemma_all_items_step(rts: Seq<(String, ChordRuntime)>, i: int)
    requires
        0 <= i < rts.len(),
    ensures
        all_items(rts.take(i + 1)) == all_items(rts.take(i)) + entries_items(
            rts[i].0@,
            rts[i].1.chords.entries@,
        ),
{
    let t = rts.take(i + 1);
    assert(t.drop_last() =~= rts.take(i));
    assert(t.last() == rts[i]);
}

/// Lists the loaded chords: one listing per chord of every runtime, without
/// repeats (listings with the same fingerprint), ordered by scope kind, scope,
/// sequence and name.
pub fn list_loaded_chords(loaded_app_chords: &LoadedAppChords) -> (r: Vec<ActiveChordInfo>)
    ensures
        r@.len() == dedup_items(all_items(loaded_app_chords.runtimes@)).len(),
        forall|i: int|
            0 <= i < r@.len() ==> dedup_items(all_items(loaded_app_chords.runtimes@)).contains(
                (#[trigger] r@[i])@,
            ),
        forall|x: InfoView|
            #[trigger] dedup_items(all_items(loaded_app_chords.runtimes@)).contains(x) ==> exists|i: int|
                0 <= i < r@.len() && r@[i]@ == x,
        forall|i: int, j: int|
            0 <= i < j < r@.len() ==> !fields_lt(info_key((#[trigger] r@[j])@), info_key((#[trigger] r@[i])@)),
{
    let rts = &loaded_app_chords.runtimes;
    let ghost rs = rts@;
    let mut items: Vec<(Vec<String>, ActiveChordInfo)> = Vec::new();
    let mut seen: Vec<String> = Vec::new();
    let n = rts.len();
    let mut i: usize = 0;
    assert(rs.take(0) =~= Seq::<(String, ChordRuntime)>::empty());
    while i < n
        invariant
            n == rs.len(),
            rs == rts@,
            i <= n,
            pair_infos(items@) == dedup_items(all_items(rs.take(i as int))),
            views(seen@) == fingerprints(pair_infos(items@)),
            forall|k: int| 0 <= k < items@.len() ==> views((#[trigger] items@[k]).0@) == info_key(items@[k].1@),
        decreases n - i,
    {
        let scope = &rts[i].0;
        let entries = &rts[i].1.chords.entries;
        let m = entries.len();
        let ghost base = all_items(rs.take(i as int));
        let ghost es = entries@;
        let mut j: usize = 0;
        assert(base + entries_items(scope@, es.take(0)) =~= base);
        while j < m
            invariant
                m == es.len(),
                es == entries@,
                j <= m,
                pair_infos(items@) == dedup_items(base + entries_items(scope@, es.take(j as int))),
                views(seen@) == fingerprints(pair_infos(items@)),
                forall|k: int| 0 <= k < items@.len() ==> views((#[trigger] items@[k]).0@) == info_key(items@[k].1@),
            decreases m - j,
        {
            let (info, fp, key) = chord_info(scope, &entries[j].1);
            let ghost prev = base + entries_items(scope@, es.take(j as int));
            let ghost next = base + entries_items(scope@, es.take(j as int + 1));
            assert(next =~= prev.push(info@));
            assert(next.drop_last() =~= prev);
            let ghost d = dedup_items(prev);
            if !contains_string(&seen, &fp) {
                let ghost before = items@;
                let ghost sbefore = seen@;
                items.push((key, info));
                seen.push(fp);
                assert(pair_infos(items@) =~= pair_infos(before).push(items@.last().1@));
                assert(views(seen@) =~= views(sbefore).push(fp@));
                assert(fingerprints(pair_infos(items@)) =~= fingerprints(pair_infos(before)).push(fingerprint(info@)));
            }
            j = j + 1;
        }
        assert(es.take(m as int) =~= es);
        proof {
            lemma_all_items_step(rs, i as int);
        }
        i = i + 1;
    }
    assert(rs.take(n as int) =~= rs);
    let ghost dd = dedup_items(all_items(rs));
    let ghost items0 = items@;
    let sorted = sort_by_keys(items, Ghost(4nat));
    let ghost sv = sorted@;
    let mut out: Vec<ActiveChordInfo> = Vec::new();
    let mut rest = sorted;
    let ghost mut k: int = 0;
    assert(rest@ =~= sv.skip(0));
    while rest.len() > 0
        invariant
            0 <= k <= sv.len(),
            rest@ == sv.skip(k),
            out@.len() == k,
            forall|j: int| 0 <= j < k ==> out@[j] == (#[trigger] sv[j]).1,
        decreases rest@.len(),
    {
        let (_, info) = rest.remove(0);
        out.push(info);
        proof {
            k = k + 1;
        }
        assert(rest@ =~= sv.skip(k));
    }
    proof {
        sv.to_multiset_ensures();
        items0.to_multiset_ensures();
        assert(pair_infos(items0) == dd);
        assert forall|i: int| 0 <= i < out@.len() implies dd.contains((#[trigger] out@[i])@) by {
            assert(sv.contains(sv[i]));
            assert(sv.to_multiset().count(sv[i]) > 0);
            assert(items0.to_multiset().count(sv[i]) > 0);
            let k2 = choose|k2: int| 0 <= k2 < items0.len() && items0[k2] == sv[i];
            assert(pair_infos(items0)[k2] == out@[i]@);
        }
        assert forall|x: InfoView| #[trigger] dd.contains(x) implies exists|i: int|
            0 <= i < out@.len() && out@[i]@ == x by {
            let k3 = choose|k3: int| 0 <= k3 < dd.len() && dd[k3] == x;
            assert(pair_infos(items0)[k3] == items0[k3].1@);
            assert(items0.contains(items0[k3]));
            assert(items0.to_multiset().count(items0[k3]) > 0);
            assert(sv.to_multiset().count(items0[k3]) > 0);
            let i = choose|i: int| 0 <= i < sv.len() && sv[i] == items0[k3];
            assert(out@[i]@ == x);
        }
        assert forall|i: int, j: int| 0 <= i < j < out@.len() implies !fields_lt(
            info_key((#[trigger] out@[j])@),
            info_key((#[trigger] out@[i])@),
        ) by {
            assert(pair_keys(sv)[i] == views(sv[i].0@));
            assert(pair_keys(sv)[j] == views(sv[j].0@));
            assert(sv.contains(sv[i]));
            assert(sv.to_multiset().count(sv[i]) > 0);
            assert(items0.to_multiset().count(sv[i]) > 0);
            assert(sv.contains(sv[j]));
            assert(sv.to_multiset().count(sv[j]) > 0);
            assert(items0.to_multiset().count(sv[j]) > 0);
        }
    }
    out
}

} // verus!
