//! Key events, the modifier flags they keep, and what becomes of each event.
use crate::input::key::{key_names, Key};
use crate::mode::{mode_step, AppModeStateMachine, ModeView};

use vstd::prelude::*;

verus! {

/// A key going down or coming up.
#[derive(Debug, Clone)]
pub enum KeyEvent {
    Press(Key),
    Release(Key),
}

/// A key event, by the code name of its key.
pub enum KeyEventView {
    Press(Seq<char>),
    Release(Seq<char>),
}

impl View for KeyEvent {
    type V = KeyEventView;

    open spec fn view(&self) -> KeyEventView {
        match self {
            KeyEvent::Press(k) => KeyEventView::Press(k@),
            KeyEvent::Release(k) => KeyEventView::Release(k@),
        }
    }
}

/// The code name of the event's key.
pub open spec fn event_key(e: KeyEventView) -> Seq<char> {
    match e {
        KeyEventView::Press(k) => k,
        KeyEventView::Release(k) => k,
    }
}

impl KeyEvent {
    /// The event's key.
    pub fn key(&self) -> (r: &Key)
        ensures
            r@ == event_key(self@),
    {
        match self {
            KeyEvent::Press(k) => k,
            KeyEvent::Release(k) => k,
        }
    }
}


/// Which modifier keys are down, one bit per key.
#[derive(Debug, Clone, Copy, PartialEq, Eq, Structural)]
pub struct Modifiers {
    bits: u16,
}

/// The bits that name a modifier key.
pub open spec fn all_modifier_bits() -> u16 {
    0x1ff
}

impl Modifiers {
    pub const LEFT_SHIFT: u16 = 0x1;
    pub const RIGHT_SHIFT: u16 = 0x2;
    pub const LEFT_CONTROL: u16 = 0x4;
    pub const RIGHT_CONTROL: u16 = 0x8;
    pub const LEFT_OPTION: u16 = 0x10;
    pub const RIGHT_OPTION: u16 = 0x20;
    pub const LEFT_COMMAND: u16 = 0x40;
    pub const RIGHT_COMMAND: u16 = 0x80;
    pub const FUNCTION: u16 = 0x100;

    pub closed spec fn spec_bits(&self) -> u16 {
        self.bits
    }

    /// The flags of the given bits, with the bits that name no modifier dropped.
    pub fn from_bits_truncate(bits: u16) -> (r: Modifiers)
        ensures
            r.spec_bits() == bits & all_modifier_bits(),
    {
        Modifiers { bits: bits & 0x1ff }
    }

    pub fn bits(&self) -> (r: u16)
        ensures
            r == self.spec_bits(),
    {
        self.bits
    }

    /// Whether every modifier of `flag` is down.
    pub fn contains(&self, flag: u16) -> (r: bool)
        ensures
            r == (self.spec_bits() & flag == flag),
    {
        self.bits & flag == flag
    }
}

/// The flag of a modifier key.
pub open spec fn modifier_flag(name: Seq<char>) -> Option<u16> {
    if name == "ShiftLeft"@ {
        Some(0x1)
    } else if name == "ShiftRight"@ {
        Some(0x2)
    } else if name == "ControlLeft"@ {
        Some(0x4)
    } else if name == "ControlRight"@ {
        Some(0x8)
    } else if name == "AltLeft"@ {
        Some(0x10)
    } else if name == "AltRight"@ {
        Some(0x20)
    } else if name == "MetaLeft"@ {
        Some(0x40)
    } else if name == "MetaRight"@ {
        Some(0x80)
    } else if name == "Fn"@ {
        Some(0x100)
    } else {
        None
    }
}

/// The modifier flags after an event: a modifier's press sets its flag, its
/// release clears it, other events leave the flags as they are.
pub open spec fn flags_after(bits: u16, e: KeyEventView) -> u16 {
    match e {
        KeyEventView::Press(k) => match modifier_flag(k) {
            Some(f) => bits | f,
            None => bits,
        },
        KeyEventView::Release(k) => match modifier_flag(k) {
            Some(f) => bits & !f,
            None => bits,
        },
    }
}

/// What to do with a key event: keep it from the frontmost application, or pass it on.
#[derive(Debug, Clone, Copy, PartialEq, Eq, Structural)]
pub enum EventAction {
    Consume,
    Forward,
}

/// The state kept across key events: the mode machine and the modifier flags.
pub struct KeyEventState {
    app_mode_state_machine: AppModeStateMachine,
    modifier_flags: u16,
}

impl KeyEventState {
    pub closed spec fn mode(&self) -> ModeView {
        self.app_mode_state_machine@
    }

    /// The modifier flags, one bit per modifier key that is down.
    pub closed spec fn flags(&self) -> u16 {
        self.modifier_flags
    }

    pub fn new(app_mode_state_machine: AppModeStateMachine) -> (r: KeyEventState)
        ensures
            r.mode() == app_mode_state_machine@,
            r.flags() == 0,
    {
        KeyEventState { app_mode_state_machine, modifier_flags: 0 }
    }

    /// The mode machine.
    pub fn machine(&self) -> (r: &AppModeStateMachine)
        ensures
            r@ == self.mode(),
    {
        &self.app_mode_state_machine
    }

    /// Records the event in the modifier flags, then lets the mode machine
    /// decide whether it is consumed. `held` are the keys held down.
    pub fn process_event(&mut self, event: &KeyEvent, held: &Vec<Key>) -> (r: EventAction)
        ensures
            final(self).flags() == flags_after(old(self).flags(), event@),
            final(self).mode() == mode_step(old(self).mode(), event@, key_names(held@)).0,
            r == (if mode_step(old(self).mode(), event@, key_names(held@)).1 {
                EventAction::Consume
            } else {
                EventAction::Forward
            }),
    {
        self.update_modifier_flags(event);
        let consumed = self.app_mode_state_machine.handle_event(event, held);
        if consumed {
            EventAction::Consume
        } else {
            EventAction::Forward
        }
    }

    pub fn get_modifier_flags(&self) -> (r: Modifiers)
        ensures
            r.spec_bits() == self.flags() & all_modifier_bits(),
    {
        Modifiers::from_bits_truncate(self.modifier_flags)
    }

    fn modifier_key_to_flag(key: &Key) -> (r: Option<u16>)
        ensures
            r == modifier_flag(key@),
    {
        if key.is("ShiftLeft") {
            Some(Modifiers::LEFT_SHIFT)
        } else if key.is("ShiftRight") {
            Some(Modifiers::RIGHT_SHIFT)
        } else if key.is("ControlLeft") {
            Some(Modifiers::LEFT_CONTROL)
        } else if key.is("ControlRight") {
            Some(Modifiers::RIGHT_CONTROL)
        } else if key.is("AltLeft") {
            Some(Modifiers::LEFT_OPTION)
        } else if key.is("AltRight") {
            Some(Modifiers::RIGHT_OPTION)
        } else if key.is("MetaLeft") {
            Some(Modifiers::LEFT_COMMAND)
        } else if key.is("MetaRight") {
            Some(Modifiers::RIGHT_COMMAND)
        } else if key.is("Fn") {
            Some(Modifiers::FUNCTION)
        } else {
            None
        }
    }

    fn update_modifier_flags(&mut self, event: &KeyEvent)
        ensures
            final(self).flags() == flags_after(old(self).flags(), event@),
            final(self).mode() == old(self).mode(),
    {
        match event {
            KeyEvent::Press(key) => {
                if let Some(flag) = Self::modifier_key_to_flag(key) {
                    self.modifier_flags = self.modifier_flags | flag;
                }
            },
            KeyEvent::Release(key) => {
                if let Some(flag) = Self::modifier_key_to_flag(key) {
                    self.modifier_flags = self.modifier_flags & !flag;
                }
            },
        }
    }
}

/// Pressing a modifier key sets its flag and releasing it clears it; the flags
/// of the other modifiers are left as they were.
pub proof fn lemma_modifier_flags(bits: u16, e: KeyEventView, other: Seq<char>)
    requires
        modifier_flag(event_key(e)) is Some,
        modifier_flag(other) is Some,
        other != event_key(e),
    ensures
        ({
            let f = modifier_flag(event_key(e)).unwrap();
            match e {
                KeyEventView::Press(_) => flags_after(bits, e) & f == f,
                KeyEventView::Release(_) => flags_after(bits, e) & f == 0,
            }
        }),
        flags_after(bits, e) & modifier_flag(other).unwrap() == bits & modifier_flag(other).unwrap(),
{
    reveal_strlit("ShiftLeft");
    reveal_strlit("ShiftRight");
    reveal_strlit("ControlLeft");
    reveal_strlit("ControlRight");
    reveal_strlit("AltLeft");
    reveal_strlit("AltRight");
    reveal_strlit("MetaLeft");
    reveal_strlit("MetaRight");
    reveal_strlit("Fn");
    let f = modifier_flag(event_key(e)).unwrap();
    let g = modifier_flag(other).unwrap();
    assert(f != g);
    assert(f == 0x1 || f == 0x2 || f == 0x4 || f == 0x8 || f == 0x10 || f == 0x20 || f == 0x40 || f
        == 0x80 || f == 0x100);
    assert(g == 0x1 || g == 0x2 || g == 0x4 || g == 0x8 || g == 0x10 || g == 0x20 || g == 0x40 || g
        == 0x80 || g == 0x100);
    assert(f & g == 0) by (bit_vector)
        requires
            f == 0x1 || f == 0x2 || f == 0x4 || f == 0x8 || f == 0x10 || f == 0x20 || f == 0x40 || f
                == 0x80 || f == 0x100,
            g == 0x1 || g == 0x2 || g == 0x4 || g == 0x8 || g == 0x10 || g == 0x20 || g == 0x40 || g
                == 0x80 || g == 0x100,
            f != g,
    ;
    assert((bits | f) & f == f) by (bit_vector);
    assert((bits & !f) & f == 0) by (bit_vector);
    assert((bits | f) & g == bits & g) by (bit_vector)
        requires
            f & g == 0,
    ;
    assert((bits & !f) & g == bits & g) by (bit_vector)
        requires
            f & g == 0,
    ;
}

} // verus!
