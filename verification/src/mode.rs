//! The app's modes and the state machine that switches between them on key
//! events, deciding which events are consumed.
use crate::input::key::{contains_key, key_names, non_shift_modifier_names, Key};
use crate::input::key_event::{KeyEvent, KeyEventView};
use vstd::prelude::*;

verus! {

/// The mode the app is in: idle (no mode), or chord mode (entered with Caps Lock, then Space).
#[derive(Debug, Clone, Copy, PartialEq, Eq, Structural)]
pub enum AppMode {
    Idle,
    Chord,
}

/// The number a mode is stored as.
pub open spec fn mode_number(mode: AppMode) -> u8 {
    match mode {
        AppMode::Idle => 0,
        AppMode::Chord => 1,
    }
}

/// The mode a stored number stands for (an unknown number is no mode).
pub open spec fn mode_of_number(value: u8) -> AppMode {
    if value == 1 {
        AppMode::Chord
    } else {
        AppMode::Idle
    }
}

impl From<AppMode> for u8 {
    fn from(mode: AppMode) -> (r: u8) {
        match mode {
            AppMode::Idle => 0,
            AppMode::Chord => 1,
        }
    }
}

impl vstd::std_specs::convert::FromSpecImpl<AppMode> for u8 {
    open spec fn obeys_from_spec() -> bool {
        true
    }

    open spec fn from_spec(v: AppMode) -> u8 {
        mode_number(v)
    }
}

impl AppMode {
    /// The mode a stored number stands for; an unknown number is no mode.
    pub fn from_u8(value: u8) -> (r: AppMode)
        ensures
            r == mode_of_number(value),
    {
        match value {
            0 => AppMode::Idle,
            1 => AppMode::Chord,
            _ => AppMode::Idle,
        }
    }
}

/// Storing a mode as a number and reading it back gives the mode.
pub proof fn lemma_mode_number_round_trip(mode: AppMode)
    ensures
        mode_of_number(mode_number(mode)) == mode,
{
}

/// The state of the mode machine.
pub struct ModeView {
    pub mode: AppMode,
    pub is_shift_pressed: bool,
    pub caps_lock_just_pressed: bool,
    pub has_device_state: bool,
}

/// Decides, per key event, the app's mode and whether the event is consumed
/// (kept from the frontmost application).
#[derive(Debug)]
pub struct AppModeStateMachine {
    /// Whether the keys held down can be read (accessibility permission).
    has_device_state: bool,
    mode: AppMode,
    /// Shift events are all consumed in chord mode; this tracks Shift there.
    pub is_shift_pressed: bool,
    caps_lock_just_pressed: bool,
}

impl View for AppModeStateMachine {
    type V = ModeView;

    closed spec fn view(&self) -> ModeView {
        ModeView {
            mode: self.mode,
            is_shift_pressed: self.is_shift_pressed,
            caps_lock_just_pressed: self.caps_lock_just_pressed,
            has_device_state: self.has_device_state,
        }
    }
}

pub open spec fn is_shift_name(k: Seq<char>) -> bool {
    k == "ShiftLeft"@ || k == "ShiftRight"@
}

/// Whether any of the keys held down is a modifier other than Shift.
pub open spec fn holds_non_shift_modifier(held: Seq<Seq<char>>) -> bool {
    exists|i: int| 0 <= i < held.len() && non_shift_modifier_names().contains(#[trigger] held[i])
}

/// In no mode, only Caps Lock, and Space right after it (which enters chord
/// mode), are consumed. Any other key press forgets a Caps Lock press.
pub open spec fn none_mode_step(s: ModeView, e: KeyEventView) -> (ModeView, bool) {
    match e {
        KeyEventView::Press(k) => if k == "CapsLock"@ {
            (ModeView { caps_lock_just_pressed: true, ..s }, true)
        } else if k == "Space"@ && s.caps_lock_just_pressed {
            (ModeView { caps_lock_just_pressed: false, mode: AppMode::Chord, ..s }, true)
        } else {
            (ModeView { caps_lock_just_pressed: false, ..s }, false)
        },
        KeyEventView::Release(_) => (s, false),
    }
}

/// In chord mode every event is consumed, except the press of a modifier other
/// than Shift, and a press while such a modifier is held (or while the keys
/// held cannot be read). Shift is tracked; releasing Space leaves chord mode.
pub open spec fn chord_mode_step(s: ModeView, e: KeyEventView, held: Seq<Seq<char>>) -> (ModeView, bool) {
    match e {
        KeyEventView::Release(k) => if is_shift_name(k) {
            (ModeView { is_shift_pressed: false, ..s }, true)
        } else if k == "Space"@ {
            (ModeView { is_shift_pressed: false, mode: AppMode::Idle, ..s }, true)
        } else {
            (s, true)
        },
        KeyEventView::Press(k) => if is_shift_name(k) {
            (ModeView { is_shift_pressed: true, ..s }, true)
        } else if non_shift_modifier_names().contains(k) {
            (s, false)
        } else if !s.has_device_state {
            (s, false)
        } else if holds_non_shift_modifier(held) {
            (s, false)
        } else {
            (s, true)
        },
    }
}

/// The next state and whether the event is consumed, given the keys held down.
pub open spec fn mode_step(s: ModeView, e: KeyEventView, held: Seq<Seq<char>>) -> (ModeView, bool) {
    match s.mode {
        AppMode::Idle => none_mode_step(s, e),
        AppMode::Chord => chord_mode_step(s, e, held),
    }
}

pub fn holds_any_non_shift_modifier(held: &Vec<Key>) -> (r: bool)
    ensures
        r == holds_non_shift_modifier(key_names(held@)),
{
    let modifiers = Key::non_shift_modifiers();
    let n = held.len();
    let mut i: usize = 0;
    while i < n
        invariant
            n == held@.len(),
            key_names(modifiers@) == non_shift_modifier_names(),
            i <= n,
            forall|j: int| 0 <= j < i ==> !non_shift_modifier_names().contains(#[trigger] key_names(held@)[j]),
        decreases n - i,
    {
        assert(key_names(held@)[i as int] == held@[i as int]@);
        if contains_key(&modifiers, &held[i]) {
            return true;
        }
        i = i + 1;
    }
    false
}

impl AppModeStateMachine {
    /// A machine in no mode; `has_device_state` says whether the keys held
    /// down can be read.
    pub fn new(has_device_state: bool) -> (r: AppModeStateMachine)
        ensures
            r@ == (ModeView {
                mode: AppMode::Idle,
                is_shift_pressed: false,
                caps_lock_just_pressed: false,
                has_device_state,
            }),
    {
        AppModeStateMachine {
            has_device_state,
            mode: AppMode::Idle,
            is_shift_pressed: false,
            caps_lock_just_pressed: false,
        }
    }

    pub fn get_app_mode(&self) -> (r: AppMode)
        ensures
            r == self@.mode,
    {
        self.mode
    }

    /// Whether Shift is down, as tracked in chord mode.
    pub fn shift_pressed(&self) -> (r: bool)
        ensures
            r == self@.is_shift_pressed,
    {
        self.is_shift_pressed
    }

    /// Handles a key event; returns whether it is consumed. `held` are the keys
    /// held down (read only where the machine has device state).
    pub fn handle_event(&mut self, event: &KeyEvent, held: &Vec<Key>) -> (consumed: bool)
        ensures
            (final(self)@, consumed) == mode_step(old(self)@, event@, key_names(held@)),
    {
        match self.mode {
            AppMode::Idle => self.handle_none_mode_event(event),
            AppMode::Chord => self.handle_chord_mode_event(event, held),
        }
    }

    fn handle_none_mode_event(&mut self, event: &KeyEvent) -> (consumed: bool)
        ensures
            (final(self)@, consumed) == none_mode_step(old(self)@, event@),
    {
        match event {
            KeyEvent::Press(k) => {
                if k.is("CapsLock") {
                    self.caps_lock_just_pressed = true;
                    true
                } else if k.is("Space") {
                    let was = self.caps_lock_just_pressed;
                    self.caps_lock_just_pressed = false;
                    if was {
                        self.mode = AppMode::Chord;
                        return true;
                    }
                    false
                } else {
                    self.caps_lock_just_pressed = false;
                    false
                }
            },
            KeyEvent::Release(_) => false,
        }
    }

    fn handle_chord_mode_event(&mut self, event: &KeyEvent, held: &Vec<Key>) -> (consumed: bool)
        ensures
            (final(self)@, consumed) == chord_mode_step(old(self)@, event@, key_names(held@)),
    {
        match event {
            KeyEvent::Release(k) => {
                if k.is("ShiftLeft") || k.is("ShiftRight") {
                    self.is_shift_pressed = false;
                    return true;
                }
                if k.is("Space") {
                    self.is_shift_pressed = false;
                    self.mode = AppMode::Idle;
                }
            },
            KeyEvent::Press(k) => {
                if k.is("ShiftLeft") || k.is("ShiftRight") {
                    self.is_shift_pressed = true;
                    return true;
                }
                let modifiers = Key::non_shift_modifiers();
                if contains_key(&modifiers, k) {
                    return false;
                }
                if !self.has_device_state {
                    return false;
                }
                if holds_any_non_shift_modifier(held) {
                    return false;
                }
            },
        }
        true
    }
}

/// Chord mode is entered only by a press of Space right after a press of Caps
/// Lock (no other key pressed in between).
pub proof fn lemma_enter_chord_mode(s: ModeView, e: KeyEventView, held: Seq<Seq<char>>)
    requires
        s.mode == AppMode::Idle,
        mode_step(s, e, held).0.mode == AppMode::Chord,
    ensures
        e == KeyEventView::Press("Space"@),
        s.caps_lock_just_pressed,
{
}

/// In no mode, the Caps Lock flag is set by a Caps Lock press, kept by a
/// release, and cleared by any other press.
pub proof fn lemma_caps_lock_flag(s: ModeView, e: KeyEventView, held: Seq<Seq<char>>)
    requires
        s.mode == AppMode::Idle,
    ensures
        mode_step(s, e, held).0.caps_lock_just_pressed == match e {
            KeyEventView::Press(k) => k == "CapsLock"@,
            KeyEventView::Release(_) => s.caps_lock_just_pressed,
        },
{
}

/// In no mode, an event is consumed only if it is a press of Caps Lock, or the
/// press of Space that enters chord mode.
pub proof fn lemma_none_mode_consumes(s: ModeView, e: KeyEventView, held: Seq<Seq<char>>)
    requires
        s.mode == AppMode::Idle,
    ensures
        mode_step(s, e, held).1 <==> (e == KeyEventView::Press("CapsLock"@) || (e
            == KeyEventView::Press("Space"@) && s.caps_lock_just_pressed)),
{
}

/// Chord mode is left only by releasing Space, and releasing Space always
/// leaves it.
pub proof fn lemma_leave_chord_mode(s: ModeView, e: KeyEventView, held: Seq<Seq<char>>)
    requires
        s.mode == AppMode::Chord,
    ensures
        mode_step(s, e, held).0.mode == AppMode::Idle <==> e == KeyEventView::Release("Space"@),
{
    reveal_strlit("Space");
    reveal_strlit("ShiftLeft");
    reveal_strlit("ShiftRight");
    match e {
        KeyEventView::Release(k) => {
            if k == "Space"@ {
                assert("Space"@.len() == 5);
                assert("ShiftLeft"@.len() == 9);
                assert("ShiftRight"@.len() == 10);
                assert(!is_shift_name(k));
            }
        },
        KeyEventView::Press(k) => {
            assert(mode_step(s, e, held).0.mode == AppMode::Chord);
        },
    }
}

/// In chord mode all releases are consumed, and so are presses unless a
/// modifier other than Shift is involved or the keys held cannot be read.
pub proof fn lemma_chord_mode_consumes(s: ModeView, e: KeyEventView, held: Seq<Seq<char>>)
    requires
        s.mode == AppMode::Chord,
    ensures
        mode_step(s, e, held).1 <== match e {
            KeyEventView::Release(_) => true,
            KeyEventView::Press(k) => is_shift_name(k) || (!non_shift_modifier_names().contains(k)
                && s.has_device_state && !holds_non_shift_modifier(held)),
        },
{
}

/// The state machine never changes whether it can read the keys held down.
pub proof fn lemma_device_state_kept(s: ModeView, e: KeyEventView, held: Seq<Seq<char>>)
    ensures
        mode_step(s, e, held).0.has_device_state == s.has_device_state,
{
}

} // verus!
