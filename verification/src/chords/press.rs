//! What running a chord does: press its shortcut, run its shell command, or
//! call its JavaScript export; and what releasing it does.
use crate::chords::chord::{copy_js, opt_string_view, Chord, ChordJsInvocation, ChordView, JsInvocationView};
use crate::chords::runtime::ChordPayload;
use crate::chords::shortcut::{copy_shortcut, shortcut_names, Shortcut};
use crate::text::copy_string;
use vstd::prelude::*;

verus! {

/// What the app does to run or release a chord.
#[derive(Debug, Clone)]
pub enum ChordEffect {
    /// Press the shortcut, as many times as given.
    PressShortcut(Shortcut, usize),
    /// Release the shortcut.
    ReleaseShortcut(Shortcut),
    /// Run the shell command in the background.
    RunShell(String),
    /// Call the JavaScript export of the runtime's module (by its path), as
    /// many times as given.
    InvokeJs(String, ChordJsInvocation, usize),
    /// Nothing to do.
    Nothing,
}

/// The contents of a [`ChordEffect`].
pub enum EffectView {
    PressShortcut(Seq<Seq<Seq<char>>>, nat),
    ReleaseShortcut(Seq<Seq<Seq<char>>>),
    RunShell(Seq<char>),
    InvokeJs(Seq<char>, JsInvocationView, nat),
    Nothing,
}

impl View for ChordEffect {
    type V = EffectView;

    open spec fn view(&self) -> EffectView {
        match self {
            ChordEffect::PressShortcut(s, n) => EffectView::PressShortcut(shortcut_names(*s), *n as nat),
            ChordEffect::ReleaseShortcut(s) => EffectView::ReleaseShortcut(shortcut_names(*s)),
            ChordEffect::RunShell(c) => EffectView::RunShell(c@),
            ChordEffect::InvokeJs(p, j, n) => EffectView::InvokeJs(p@, j@, *n as nat),
            ChordEffect::Nothing => EffectView::Nothing,
        }
    }
}

/// Running a chord: its shortcut if it has one, else its shell command, else
/// its JavaScript call (which needs the runtime's module path).
pub open spec fn press_effect(runtime_path: Option<Seq<char>>, c: ChordView, num_times: nat) -> EffectView {
    match c.shortcut {
        Some(s) => EffectView::PressShortcut(s, num_times),
        None => match c.shell {
            Some(cmd) => EffectView::RunShell(cmd),
            None => match (c.js, runtime_path) {
                (Some(j), Some(p)) => EffectView::InvokeJs(p, j, num_times),
                _ => EffectView::Nothing,
            },
        },
    }
}

/// Running a chord repeats its action as many times as the count says,
/// whether it presses a shortcut or calls a JavaScript export; a shell
/// command runs once.
pub proof fn lemma_press_count(runtime_path: Option<Seq<char>>, c: ChordView, num_times: nat)
    ensures
        match press_effect(runtime_path, c, num_times) {
            EffectView::PressShortcut(_, n) => n == num_times,
            EffectView::InvokeJs(_, _, n) => n == num_times,
            _ => true,
        },
        c.shortcut is None && c.shell is None && c.js is Some && runtime_path is Some ==> press_effect(
            runtime_path,
            c,
            num_times,
        ) is InvokeJs,
{
}

/// What running a chord does (see [`press_effect`]); `runtime_path` is the
/// path of the runtime the chord came from.
pub fn press_chord(runtime_path: Option<String>, chord_payload: &ChordPayload) -> (r: ChordEffect)
    ensures
        r@ == press_effect(
            opt_string_view(runtime_path),
            chord_payload.chord@,
            chord_payload.num_times as nat,
        ),
{
    let chord = &chord_payload.chord;
    if let Some(shortcut) = &chord.shortcut {
        return ChordEffect::PressShortcut(copy_shortcut(shortcut), chord_payload.num_times);
    }
    if let Some(shell) = &chord.shell {
        return ChordEffect::RunShell(copy_string(shell));
    }
    match (&chord.js, runtime_path) {
        (Some(js), Some(path)) => ChordEffect::InvokeJs(path, copy_js(js), chord_payload.num_times),
        _ => ChordEffect::Nothing,
    }
}

/// What releasing a chord does: release its shortcut, if it has one.
pub fn release_chord(chord: &Chord) -> (r: ChordEffect)
    ensures
        r@ == match chord@.shortcut {
            Some(s) => EffectView::ReleaseShortcut(s),
            None => EffectView::Nothing,
        },
{
    match &chord.shortcut {
        Some(shortcut) => ChordEffect::ReleaseShortcut(copy_shortcut(shortcut)),
        None => ChordEffect::Nothing,
    }
}

} // verus!
