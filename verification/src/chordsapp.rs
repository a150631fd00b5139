//! The `chordsapp` module that scripts import: pressing, releasing and tapping
//! shortcuts, and the global hotkeys of applications.
use crate::chords::shortcut::{
    press_actions, release_actions, shortcut_names, shortcut_text_names, shortcut_text_parses,
    spec_press_actions, spec_release_actions, Shortcut, ShortcutAction,
};
use crate::text::{debug_str, debug_string, push_str_chars, string_from_chars};
use vstd::prelude::*;

verus! {

/// The `chordsapp` module.
pub struct ChordsappModule;

/// The message a script gets for a shortcut that does not parse.
pub open spec fn invalid_shortcut_message(key: Seq<char>) -> Seq<char> {
    "Invalid shortcut "@ + debug_str(key) + ": Failed to parse shortcut: "@ + key
}

fn invalid_shortcut(key: &str) -> (r: String)
    ensures
        r@ == invalid_shortcut_message(key@),
{
    let mut out: Vec<char> = Vec::new();
    push_str_chars(&mut out, "Invalid shortcut ");
    let d = debug_string(key);
    push_str_chars(&mut out, d.as_str());
    push_str_chars(&mut out, ": Failed to parse shortcut: ");
    push_str_chars(&mut out, key);
    string_from_chars(&out)
}

impl ChordsappModule {
    /// The names the module exports.
    pub fn declared_exports() -> (r: Vec<&'static str>)
        ensures
            r@.map_values(|s: &str| s@) == seq![
                "press"@,
                "release"@,
                "tap"@,
                "getGlobalHotkey"@,
                "registerGlobalHotkey"@,
                "onAppLaunch"@,
                "onAppTerminate"@,
            ],
    {
        let mut v: Vec<&'static str> = Vec::new();
        v.push("press");
        v.push("release");
        v.push("tap");
        v.push("getGlobalHotkey");
        v.push("registerGlobalHotkey");
        v.push("onAppLaunch");
        v.push("onAppTerminate");
        assert(v@.map_values(|s: &str| s@) =~= seq![
            "press"@,
            "release"@,
            "tap"@,
            "getGlobalHotkey"@,
            "registerGlobalHotkey"@,
            "onAppLaunch"@,
            "onAppTerminate"@,
        ]);
        v
    }

    /// `press(key)`: the key events that press the shortcut `key`.
    pub fn press(key: &str) -> (r: Result<Vec<ShortcutAction>, String>)
        ensures
            r is Ok <==> shortcut_text_parses(key@),
            r matches Ok(v) ==> exists|s: Shortcut|
                shortcut_names(s) == shortcut_text_names(key@) && v@ == spec_press_actions(s),
            r matches Err(m) ==> m@ == invalid_shortcut_message(key@),
    {
        match Shortcut::parse(key) {
            Ok(shortcut) => Ok(press_actions(&shortcut)),
            Err(_) => Err(invalid_shortcut(key)),
        }
    }

    /// `release(key)`: the key events that release the shortcut `key`.
    pub fn release(key: &str) -> (r: Result<Vec<ShortcutAction>, String>)
        ensures
            r is Ok <==> shortcut_text_parses(key@),
            r matches Ok(v) ==> exists|s: Shortcut|
                shortcut_names(s) == shortcut_text_names(key@) && v@ == spec_release_actions(s),
            r matches Err(m) ==> m@ == invalid_shortcut_message(key@),
    {
        match Shortcut::parse(key) {
            Ok(shortcut) => Ok(release_actions(&shortcut)),
            Err(_) => Err(invalid_shortcut(key)),
        }
    }

    /// `tap(key)`: the key events that press, then release, the shortcut `key`.
    pub fn tap(key: &str) -> (r: Result<Vec<ShortcutAction>, String>)
        ensures
            r is Ok <==> shortcut_text_parses(key@),
            r matches Ok(v) ==> exists|s: Shortcut|
                shortcut_names(s) == shortcut_text_names(key@) && v@ == spec_press_actions(s)
                    + spec_release_actions(s),
            r matches Err(m) ==> m@ == invalid_shortcut_message(key@),
    {
        match Shortcut::parse(key) {
            Ok(shortcut) => {
                let mut actions = press_actions(&shortcut);
                let mut rest = release_actions(&shortcut);
                actions.append(&mut rest);
                Ok(actions)
            },
            Err(_) => Err(invalid_shortcut(key)),
        }
    }
}

} // verus!
