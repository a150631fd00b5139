//! The chorder: in chord mode, collects typed keys into a buffer and decides
//! which chord to run, and when to release it.
use crate::chords::chord::{copy_chord, opt_string_view, Chord, ChordView};
use crate::chords::loaded::{sequence_chord, sequence_runtime_id, LoadedAppChords};
use crate::chords::runtime::{ChordPayload, RuntimeView};
use crate::input::key::{contains_key, copy_keys, key_names, modifier_names, Key};
use crate::input::key_event::{event_key, KeyEvent, KeyEventView};
use crate::mode::holds_non_shift_modifier;
use crate::text::copy_string;
use vstd::prelude::*;

verus! {

/// What the chorder holds between key events.
#[derive(Debug, Clone)]
pub struct ChorderState {
    /// The keys typed for a chord not yet run; cleared whenever a chord runs.
    pub key_buffer: Vec<Key>,
    /// The chord whose keys are held down.
    pub pressed_chord: Option<Chord>,
    /// The chord last run, which Caps Lock runs again.
    pub active_chord: Option<Chord>,
}

pub open spec fn opt_chord_view(o: Option<Chord>) -> Option<ChordView> {
    match o {
        Some(c) => Some(c@),
        None => None,
    }
}

/// The contents of a [`ChorderState`].
pub struct ChorderView {
    pub buffer: Seq<Seq<char>>,
    pub pressed: Option<ChordView>,
    pub active: Option<ChordView>,
}

impl View for ChorderState {
    type V = ChorderView;

    open spec fn view(&self) -> ChorderView {
        ChorderView {
            buffer: key_names(self.key_buffer@),
            pressed: opt_chord_view(self.pressed_chord),
            active: opt_chord_view(self.active_chord),
        }
    }
}

pub open spec fn empty_chorder() -> ChorderView {
    ChorderView { buffer: Seq::empty(), pressed: None, active: None }
}

impl ChorderState {
    pub fn new() -> (r: ChorderState)
        ensures
            r@ == empty_chorder(),
    {
        let r = ChorderState { key_buffer: Vec::new(), pressed_chord: None, active_chord: None };
        assert(key_names(r.key_buffer@) =~= Seq::empty());
        r
    }
}

/// What the chorder asks of the app.
#[derive(Debug, Clone)]
pub enum ChorderAction {
    /// Show the chord mode indicator.
    ShowIndicator,
    /// Hide the chord mode indicator.
    HideIndicator,
    /// Run a chord (as many times as the payload says), from the runtime with
    /// the given path, if known.
    PressChord(ChordPayload, Option<String>),
    /// Release a chord whose keys come up.
    ReleaseChord(Chord),
}

/// The contents of a [`ChorderAction`].
pub enum ActionView {
    ShowIndicator,
    HideIndicator,
    PressChord(ChordView, nat, Option<Seq<char>>),
    ReleaseChord(ChordView),
}

impl View for ChorderAction {
    type V = ActionView;

    open spec fn view(&self) -> ActionView {
        match self {
            ChorderAction::ShowIndicator => ActionView::ShowIndicator,
            ChorderAction::HideIndicator => ActionView::HideIndicator,
            ChorderAction::PressChord(p, path) => ActionView::PressChord(
                p.chord@,
                p.num_times as nat,
                opt_string_view(*path),
            ),
            ChorderAction::ReleaseChord(c) => ActionView::ReleaseChord(c@),
        }
    }
}

pub open spec fn action_views(s: Seq<ChorderAction>) -> Seq<ActionView> {
    s.map_values(|a: ChorderAction| a@)
}

/// The path of the runtime a key sequence belongs to, if it is loaded.
pub open spec fn runtime_path(
    global: Map<Seq<Seq<char>>, Seq<char>>,
    runtimes: Map<Seq<char>, RuntimeView>,
    names: Seq<Seq<char>>,
    application_id: Option<Seq<char>>,
) -> Option<Seq<char>> {
    match sequence_runtime_id(global, names, application_id) {
        Some(id) => if runtimes.dom().contains(id) {
            Some(runtimes[id].path)
        } else {
            None
        },
        None => None,
    }
}

/// The sequence a key typed with Shift completes: the buffer and the key, or,
/// with an empty buffer, the active chord with its last key replaced by it.
pub open spec fn shifted_sequence(s: ChorderView, k: Seq<char>) -> Option<Seq<Seq<char>>> {
    if s.buffer.len() == 0 {
        match s.active {
            Some(c) => Some(
                if c.keys.len() > 0 {
                    c.keys.drop_last()
                } else {
                    c.keys
                }.push(k),
            ),
            None => None,
        }
    } else {
        Some(s.buffer.push(k))
    }
}

/// The state after running a chord: it is the one pressed and the active one,
/// and the buffer is empty.
pub open spec fn ran(c: ChordView) -> ChorderView {
    ChorderView { buffer: Seq::empty(), pressed: Some(c), active: Some(c) }
}

/// Whether any of the keys held down is a Shift key.
pub open spec fn holds_shift(held: Seq<Seq<char>>) -> bool {
    held.contains("ShiftLeft"@) || held.contains("ShiftRight"@)
}

/// What the chorder does with a key event in chord mode: the next state and
/// the actions, given the keys held down (`None` where they cannot be read),
/// the loaded chords and the frontmost application.
pub open spec fn chorder_step(
    s: ChorderView,
    e: KeyEventView,
    device: Option<Seq<Seq<char>>>,
    global: Map<Seq<Seq<char>>, Seq<char>>,
    runtimes: Map<Seq<char>, RuntimeView>,
    application_id: Option<Seq<char>>,
) -> (ChorderView, Seq<ActionView>) {
    if modifier_names().contains(event_key(e)) {
        (s, Seq::empty())
    } else {
        match device {
            None => (s, Seq::empty()),
            Some(held) => if holds_non_shift_modifier(held) {
                (s, Seq::empty())
            } else {
                match e {
                    KeyEventView::Release(k) => {
                        let released = match s.pressed {
                            Some(c) => if k == "CapsLock"@ || (c.keys.len() > 0 && c.keys.last() == k) {
                                seq![ActionView::ReleaseChord(c)]
                            } else {
                                Seq::empty()
                            },
                            None => Seq::empty(),
                        };
                        (if k == "Space"@ { empty_chorder() } else { s }, released)
                    },
                    KeyEventView::Press(k) => if k == "CapsLock"@ {
                        if s.buffer.len() == 0 {
                            match s.active {
                                None => (s, seq![ActionView::ShowIndicator]),
                                Some(c) => (
                                    ran(c),
                                    seq![
                                        ActionView::ShowIndicator,
                                        ActionView::PressChord(
                                            c,
                                            1,
                                            runtime_path(global, runtimes, c.keys, application_id),
                                        ),
                                    ],
                                ),
                            }
                        } else {
                            match sequence_chord(global, runtimes, s.buffer, application_id) {
                                None => (empty_chorder(), seq![ActionView::ShowIndicator]),
                                Some((path, c, n)) => (
                                    ran(c),
                                    seq![ActionView::ShowIndicator, ActionView::PressChord(c, n, Some(path))],
                                ),
                            }
                        }
                    } else if k == "Space"@ {
                        (s, Seq::empty())
                    } else if !holds_shift(held) {
                        (
                            ChorderView { buffer: s.buffer.push(k), pressed: None, active: None },
                            seq![ActionView::ShowIndicator],
                        )
                    } else {
                        match shifted_sequence(s, k) {
                            None => (s, seq![ActionView::ShowIndicator]),
                            Some(sq) => match sequence_chord(global, runtimes, sq, application_id) {
                                None => (s, seq![ActionView::ShowIndicator]),
                                Some((path, c, n)) => (
                                    ran(c),
                                    seq![ActionView::ShowIndicator, ActionView::PressChord(c, n, Some(path))],
                                ),
                            },
                        }
                    },
                }
            },
        }
    }
}

/// The chorder of chord mode (the indicator it shows is the app's).
pub struct Chorder {
    pub state: ChorderState,
}

impl Chorder {
    pub fn new() -> (r: Chorder)
        ensures
            r.state@ == empty_chorder(),
    {
        Chorder { state: ChorderState::new() }
    }

    /// Chord mode starts: the indicator is to be shown.
    pub fn ensure_active(&self) -> (r: ChorderAction)
        ensures
            r@ == ActionView::ShowIndicator,
    {
        ChorderAction::ShowIndicator
    }

    /// Chord mode ends: the state is cleared and the indicator is to be hidden.
    pub fn ensure_inactive(&mut self) -> (r: ChorderAction)
        ensures
            final(self).state@ == empty_chorder(),
            r@ == ActionView::HideIndicator,
    {
        self.state = ChorderState::new();
        ChorderAction::HideIndicator
    }

    /// Handles a key event of chord mode (see [`chorder_step`]). `device_keys`
    /// are the keys held down, `None` where they cannot be read.
    pub fn handle_key_event(
        &mut self,
        key_event: &KeyEvent,
        device_keys: Option<&Vec<Key>>,
        loaded_app_chords: &LoadedAppChords,
        frontmost_application_id: Option<String>,
    ) -> (r: Vec<ChorderAction>)
        requires
            loaded_app_chords.wf(),
        ensures
            (final(self).state@, action_views(r@)) == chorder_step(
                old(self).state@,
                key_event@,
                match device_keys {
                    Some(d) => Some(key_names(d@)),
                    None => None,
                },
                loaded_app_chords.global(),
                loaded_app_chords.runtime_views(),
                opt_string_view(frontmost_application_id),
            ),
    {
        let mut actions: Vec<ChorderAction> = Vec::new();
        let modifiers = Key::modifiers();
        let key = key_event.key();
        if contains_key(&modifiers, key) {
            assert(action_views(actions@) =~= Seq::empty());
            return actions;
        }
        let device_keys = match device_keys {
            Some(d) => d,
            None => {
                assert(action_views(actions@) =~= Seq::empty());
                return actions;
            },
        };
        if crate::mode::holds_any_non_shift_modifier(device_keys) {
            assert(action_views(actions@) =~= Seq::empty());
            return actions;
        }
        match key_event {
            KeyEvent::Release(code) => {
                match &self.state.pressed_chord {
                    Some(pressed_chord) => {
                        let n = pressed_chord.keys.len();
                        if code.is("CapsLock") || (n > 0 && pressed_chord.keys[n - 1].same(code)) {
                            proof {
                                if n > 0 {
                                    assert(key_names(pressed_chord.keys@).last()
                                        == pressed_chord.keys@[n - 1]@);
                                }
                            }
                            actions.push(ChorderAction::ReleaseChord(copy_chord(pressed_chord)));
                        } else {
                            proof {
                                if n > 0 {
                                    assert(key_names(pressed_chord.keys@).last()
                                        == pressed_chord.keys@[n - 1]@);
                                }
                            }
                        }
                    },
                    None => {},
                }
                if code.is("Space") {
                    self.state = ChorderState::new();
                }
                assert(action_views(actions@) =~= match old(self).state@.pressed {
                    Some(c) => if code@ == "CapsLock"@ || (c.keys.len() > 0 && c.keys.last() == code@) {
                        seq![ActionView::ReleaseChord(c)]
                    } else {
                        Seq::empty()
                    },
                    None => Seq::empty(),
                });
                actions
            },
            KeyEvent::Press(code) => {
                if code.is("CapsLock") {
                    actions.push(self.ensure_active());
                    if self.state.key_buffer.len() == 0 {
                        match &self.state.active_chord {
                            None => {},
                            Some(last_chord) => {
                                let chord = copy_chord(last_chord);
                                let path = match loaded_app_chords.get_chord_runtime(
                                    &chord.keys,
                                    frontmost_application_id,
                                ) {
                                    Some(rt) => Some(copy_string(&rt.path)),
                                    None => None,
                                };
                                actions.push(
                                    ChorderAction::PressChord(
                                        ChordPayload { chord: copy_chord(last_chord), num_times: 1 },
                                        path,
                                    ),
                                );
                                self.state = ChorderState {
                                    pressed_chord: Some(copy_chord(last_chord)),
                                    key_buffer: Vec::new(),
                                    active_chord: Some(chord),
                                };
                            },
                        }
                    } else {
                        match loaded_app_chords.get_chord(
                            &self.state.key_buffer,
                            frontmost_application_id,
                        ) {
                            None => {
                                self.state = ChorderState::new();
                            },
                            Some((payload, path)) => {
                                let chord = copy_chord(&payload.chord);
                                let pressed = copy_chord(&payload.chord);
                                actions.push(ChorderAction::PressChord(payload, Some(path)));
                                self.state = ChorderState {
                                    pressed_chord: Some(pressed),
                                    key_buffer: Vec::new(),
                                    active_chord: Some(chord),
                                };
                            },
                        }
                    }
                    assert(key_names(Seq::<Key>::empty()) =~= Seq::empty());
                    assert(action_views(actions@) =~= chorder_step(
                        old(self).state@,
                        key_event@,
                        Some(key_names(device_keys@)),
                        loaded_app_chords.global(),
                        loaded_app_chords.runtime_views(),
                        opt_string_view(frontmost_application_id),
                    ).1);
                    return actions;
                }
                if code.is("Space") {
                    assert(action_views(actions@) =~= Seq::empty());
                    return actions;
                }
                actions.push(self.ensure_active());
                let is_shift_pressed = held_shift(device_keys);
                if is_shift_pressed {
                    self.handle_shifted_key_press(code, loaded_app_chords, frontmost_application_id, &mut actions);
                } else {
                    self.handle_unshifted_key_press(code);
                }
                actions
            },
        }
    }

    /// An unshifted key goes to the buffer, which clears the active chord.
    fn handle_unshifted_key_press(&mut self, key: &Key)
        ensures
            final(self).state@ == (ChorderView {
                buffer: old(self).state@.buffer.push(key@),
                pressed: None,
                active: None,
            }),
    {
        let mut next_key_buffer = copy_keys(&self.state.key_buffer);
        next_key_buffer.push(key.copy());
        assert(key_names(next_key_buffer@) =~= key_names(self.state.key_buffer@).push(key@));
        self.state = ChorderState { key_buffer: next_key_buffer, pressed_chord: None, active_chord: None };
    }

    /// A key typed with Shift completes a sequence (see [`shifted_sequence`]);
    /// if that runs a chord, the buffer is cleared.
    fn handle_shifted_key_press(
        &mut self,
        key: &Key,
        loaded_app_chords: &LoadedAppChords,
        frontmost_application_id: Option<String>,
        actions: &mut Vec<ChorderAction>,
    )
        requires
            loaded_app_chords.wf(),
        ensures
            ({
                let found = match shifted_sequence(old(self).state@, key@) {
                    Some(sq) => sequence_chord(
                        loaded_app_chords.global(),
                        loaded_app_chords.runtime_views(),
                        sq,
                        opt_string_view(frontmost_application_id),
                    ),
                    None => None,
                };
                match found {
                    None => final(self).state@ == old(self).state@ && action_views(final(actions)@)
                        == action_views(old(actions)@),
                    Some((path, c, n)) => final(self).state@ == ran(c) && action_views(final(actions)@)
                        == action_views(old(actions)@).push(ActionView::PressChord(c, n, Some(path))),
                }
            }),
    {
        let sequence = if self.state.key_buffer.len() == 0 {
            match &self.state.active_chord {
                None => {
                    return;
                },
                Some(active_chord) => {
                    let mut new_chord = copy_keys(&active_chord.keys);
                    let ghost ks = key_names(new_chord@);
                    if new_chord.len() > 0 {
                        new_chord.pop();
                        assert(key_names(new_chord@) =~= ks.drop_last());
                    }
                    let ghost before = new_chord@;
                    new_chord.push(key.copy());
                    assert(key_names(new_chord@) =~= key_names(before).push(key@));
                    new_chord
                },
            }
        } else {
            let mut sequence = copy_keys(&self.state.key_buffer);
            sequence.push(key.copy());
            assert(key_names(sequence@) =~= key_names(self.state.key_buffer@).push(key@));
            sequence
        };
        match loaded_app_chords.get_chord(&sequence, frontmost_application_id) {
            None => {},
            Some((payload, path)) => {
                let chord = copy_chord(&payload.chord);
                let pressed = copy_chord(&payload.chord);
                let ghost before = actions@;
                actions.push(ChorderAction::PressChord(payload, Some(path)));
                assert(action_views(actions@) =~= action_views(before).push(actions@.last()@));
                self.state = ChorderState {
                    key_buffer: Vec::new(),
                    pressed_chord: Some(pressed),
                    active_chord: Some(chord),
                };
                assert(key_names(self.state.key_buffer@) =~= Seq::empty());
            },
        }
    }
}

/// Whether a Shift key is among the keys held down.
fn held_shift(held: &Vec<Key>) -> (r: bool)
    ensures
        r == holds_shift(key_names(held@)),
{
    let left = Key::named("ShiftLeft");
    let right = Key::named("ShiftRight");
    contains_key(held, &left) || contains_key(held, &right)
}


/// Events of modifier keys change nothing and ask for nothing.
pub proof fn lemma_modifier_events_ignored(
    s: ChorderView,
    e: KeyEventView,
    device: Option<Seq<Seq<char>>>,
    global: Map<Seq<Seq<char>>, Seq<char>>,
    runtimes: Map<Seq<char>, RuntimeView>,
    application_id: Option<Seq<char>>,
)
    requires
        modifier_names().contains(event_key(e)),
    ensures
        chorder_step(s, e, device, global, runtimes, application_id) == (s, Seq::<ActionView>::empty()),
{
}

/// While a modifier other than Shift is held down, every key event is ignored.
pub proof fn lemma_held_modifier_ignored(
    s: ChorderView,
    e: KeyEventView,
    held: Seq<Seq<char>>,
    global: Map<Seq<Seq<char>>, Seq<char>>,
    runtimes: Map<Seq<char>, RuntimeView>,
    application_id: Option<Seq<char>>,
)
    requires
        holds_non_shift_modifier(held),
    ensures
        chorder_step(s, e, Some(held), global, runtimes, application_id) == (
            s,
            Seq::<ActionView>::empty(),
        ),
{
}

/// Whenever a chord runs, the buffer is cleared and the chord becomes both
/// the pressed and the active chord.
pub proof fn lemma_run_clears_buffer(
    s: ChorderView,
    e: KeyEventView,
    device: Option<Seq<Seq<char>>>,
    global: Map<Seq<Seq<char>>, Seq<char>>,
    runtimes: Map<Seq<char>, RuntimeView>,
    application_id: Option<Seq<char>>,
    i: int,
)
    requires
        0 <= i < chorder_step(s, e, device, global, runtimes, application_id).1.len(),
        chorder_step(s, e, device, global, runtimes, application_id).1[i] is PressChord,
    ensures
        ({
            let (next, actions) = chorder_step(s, e, device, global, runtimes, application_id);
            match actions[i] {
                ActionView::PressChord(c, _, _) => next == ran(c),
                _ => false,
            }
        }),
{
}

/// Releasing Space (which ends chord mode) clears the chorder.
pub proof fn lemma_space_release_resets(
    s: ChorderView,
    held: Seq<Seq<char>>,
    global: Map<Seq<Seq<char>>, Seq<char>>,
    runtimes: Map<Seq<char>, RuntimeView>,
    application_id: Option<Seq<char>>,
)
    requires
        !holds_non_shift_modifier(held),
    ensures
        chorder_step(s, KeyEventView::Release("Space"@), Some(held), global, runtimes, application_id).0
            == empty_chorder(),
{
    reveal_strlit("Space");
    reveal_strlit("ShiftLeft");
    reveal_strlit("ShiftRight");
    reveal_strlit("ControlLeft");
    reveal_strlit("ControlRight");
    reveal_strlit("MetaLeft");
    reveal_strlit("MetaRight");
    reveal_strlit("AltLeft");
    reveal_strlit("AltRight");
    reveal_strlit("Fn");
    assert(!modifier_names().contains("Space"@)) by {
        assert forall|i: int| 0 <= i < modifier_names().len() implies modifier_names()[i] != "Space"@ by {
            assert(modifier_names()[i].len() != 5 || modifier_names()[i][0] != 'S' || modifier_names()[i][1] != 'p');
        }
    }
}

/// A key typed without Shift (other than Caps Lock and Space) is added to the
/// buffer, and no chord stays active or pressed.
pub proof fn lemma_unshifted_key_buffered(
    s: ChorderView,
    k: Seq<char>,
    held: Seq<Seq<char>>,
    global: Map<Seq<Seq<char>>, Seq<char>>,
    runtimes: Map<Seq<char>, RuntimeView>,
    application_id: Option<Seq<char>>,
)
    requires
        !modifier_names().contains(k),
        k != "CapsLock"@,
        k != "Space"@,
        !holds_non_shift_modifier(held),
        !holds_shift(held),
    ensures
        chorder_step(s, KeyEventView::Press(k), Some(held), global, runtimes, application_id)
            == (ChorderView { buffer: s.buffer.push(k), pressed: None, active: None }, seq![
            ActionView::ShowIndicator,
        ]),
{
}

/// A key typed with Shift (other than Caps Lock and Space) runs the chord of
/// the sequence it completes (see [`shifted_sequence`]); when that sequence
/// has no chord, nothing changes. After such a run the buffer is empty, so
/// the next key `k2` typed with Shift completes the chord's keys with their
/// last key replaced by `k2`.
pub proof fn lemma_shifted_key_runs_chord(
    s: ChorderView,
    k: Seq<char>,
    k2: Seq<char>,
    held: Seq<Seq<char>>,
    global: Map<Seq<Seq<char>>, Seq<char>>,
    runtimes: Map<Seq<char>, RuntimeView>,
    application_id: Option<Seq<char>>,
)
    requires
        !modifier_names().contains(k),
        k != "CapsLock"@,
        k != "Space"@,
        !holds_non_shift_modifier(held),
        holds_shift(held),
    ensures
        ({
            let (next, actions) = chorder_step(s, KeyEventView::Press(k), Some(held), global, runtimes, application_id);
            match shifted_sequence(s, k) {
                Some(sq) => match sequence_chord(global, runtimes, sq, application_id) {
                    Some((path, c, n)) => {
                        &&& next == ran(c)
                        &&& actions == seq![ActionView::ShowIndicator, ActionView::PressChord(c, n, Some(path))]
                        &&& c.keys.len() > 0 ==> shifted_sequence(next, k2) == Some(c.keys.drop_last().push(k2))
                    },
                    None => next == s && actions == seq![ActionView::ShowIndicator],
                },
                None => next == s && actions == seq![ActionView::ShowIndicator],
            }
        }),
{
}

/// Releasing Caps Lock while a chord is pressed releases that chord, and
/// does nothing else.
pub proof fn lemma_caps_lock_release_releases(
    s: ChorderView,
    held: Seq<Seq<char>>,
    global: Map<Seq<Seq<char>>, Seq<char>>,
    runtimes: Map<Seq<char>, RuntimeView>,
    application_id: Option<Seq<char>>,
)
    requires
        s.pressed is Some,
        !holds_non_shift_modifier(held),
    ensures
        chorder_step(s, KeyEventView::Release("CapsLock"@), Some(held), global, runtimes, application_id)
            == (s, seq![ActionView::ReleaseChord(s.pressed.unwrap())]),
{
    reveal_strlit("CapsLock");
    reveal_strlit("Space");
    reveal_strlit("ShiftLeft");
    reveal_strlit("ShiftRight");
    reveal_strlit("ControlLeft");
    reveal_strlit("ControlRight");
    reveal_strlit("MetaLeft");
    reveal_strlit("MetaRight");
    reveal_strlit("AltLeft");
    reveal_strlit("AltRight");
    reveal_strlit("Fn");
    assert("CapsLock"@.len() == 8 && "Space"@.len() == 5);
    assert(!modifier_names().contains("CapsLock"@)) by {
        assert forall|i: int| 0 <= i < modifier_names().len() implies modifier_names()[i] != "CapsLock"@ by {
            assert(modifier_names()[i].len() != 8 || modifier_names()[i][0] != 'C' || modifier_names()[i][1] != 'a');
        }
    }
}

/// Caps Lock with an empty buffer runs the active chord again, once.
pub proof fn lemma_caps_lock_repeats_active(
    s: ChorderView,
    held: Seq<Seq<char>>,
    global: Map<Seq<Seq<char>>, Seq<char>>,
    runtimes: Map<Seq<char>, RuntimeView>,
    application_id: Option<Seq<char>>,
)
    requires
        s.buffer.len() == 0,
        s.active is Some,
        !holds_non_shift_modifier(held),
    ensures
        ({
            let c = s.active.unwrap();
            chorder_step(s, KeyEventView::Press("CapsLock"@), Some(held), global, runtimes, application_id)
                == (ran(c), seq![
                ActionView::ShowIndicator,
                ActionView::PressChord(c, 1, runtime_path(global, runtimes, c.keys, application_id)),
            ])
        }),
{
    reveal_strlit("CapsLock");
    reveal_strlit("ShiftLeft");
    reveal_strlit("ShiftRight");
    reveal_strlit("ControlLeft");
    reveal_strlit("ControlRight");
    reveal_strlit("MetaLeft");
    reveal_strlit("MetaRight");
    reveal_strlit("AltLeft");
    reveal_strlit("AltRight");
    reveal_strlit("Fn");
    assert(!modifier_names().contains("CapsLock"@)) by {
        assert forall|i: int| 0 <= i < modifier_names().len() implies modifier_names()[i] != "CapsLock"@ by {
            assert(modifier_names()[i].len() != 8 || modifier_names()[i][0] != 'C' || modifier_names()[i][1] != 'a');
        }
    }
}

} // verus!
