use chords::input::key::Key;
use chords::input::key_event::{EventAction, KeyEvent, KeyEventState, Modifiers};
use chords::mode::{AppMode, AppModeStateMachine};

fn press(name: &str) -> KeyEvent {
    KeyEvent::Press(Key::named(name))
}

fn release(name: &str) -> KeyEvent {
    KeyEvent::Release(Key::named(name))
}

#[test]
fn mode_numbers_round_trip() {
    assert_eq!(AppMode::from_u8(u8::from(AppMode::Idle)), AppMode::Idle);
    assert_eq!(AppMode::from_u8(u8::from(AppMode::Chord)), AppMode::Chord);
    assert_eq!(u8::from(AppMode::Chord), 1);
    assert_eq!(AppMode::from_u8(7), AppMode::Idle);
}

#[test]
fn caps_lock_then_space_enters_chord_mode() {
    let mut m = AppModeStateMachine::new(true);
    let none = Vec::new();
    assert!(m.handle_event(&press("CapsLock"), &none));
    assert!(!m.handle_event(&release("CapsLock"), &none));
    assert!(m.handle_event(&press("Space"), &none));
    assert_eq!(m.get_app_mode(), AppMode::Chord);
    assert!(m.handle_event(&press("KeyG"), &none));
    assert!(m.handle_event(&release("KeyG"), &none));
    assert!(m.handle_event(&release("Space"), &none));
    assert_eq!(m.get_app_mode(), AppMode::Idle);
}

#[test]
fn space_alone_or_after_another_key_is_not_consumed() {
    let mut m = AppModeStateMachine::new(true);
    let none = Vec::new();
    assert!(!m.handle_event(&press("Space"), &none));
    assert!(m.handle_event(&press("CapsLock"), &none));
    assert!(!m.handle_event(&press("KeyA"), &none));
    assert!(!m.handle_event(&press("Space"), &none));
    assert_eq!(m.get_app_mode(), AppMode::Idle);
}

#[test]
fn chord_mode_tracks_shift_and_forwards_modified_keys() {
    let mut m = AppModeStateMachine::new(true);
    let none = Vec::new();
    m.handle_event(&press("CapsLock"), &none);
    m.handle_event(&press("Space"), &none);
    assert!(m.handle_event(&press("ShiftLeft"), &none));
    assert!(m.shift_pressed());
    assert!(m.handle_event(&release("ShiftLeft"), &none));
    assert!(!m.shift_pressed());
    assert!(!m.handle_event(&press("MetaLeft"), &none));
    let held = vec![Key::named("MetaLeft")];
    assert!(!m.handle_event(&press("KeyA"), &held));
    assert_eq!(m.get_app_mode(), AppMode::Chord);
}

#[test]
fn chord_mode_without_device_state_forwards_presses() {
    let mut m = AppModeStateMachine::new(false);
    let none = Vec::new();
    m.handle_event(&press("CapsLock"), &none);
    m.handle_event(&press("Space"), &none);
    assert!(!m.handle_event(&press("KeyA"), &none));
    assert!(m.handle_event(&release("KeyA"), &none));
}

#[test]
fn key_event_state_keeps_modifier_flags() {
    let mut state = KeyEventState::new(AppModeStateMachine::new(true));
    let none = Vec::new();
    assert_eq!(state.process_event(&press("ShiftLeft"), &none), EventAction::Forward);
    assert!(state.get_modifier_flags().contains(Modifiers::LEFT_SHIFT));
    state.process_event(&press("MetaRight"), &none);
    assert_eq!(state.get_modifier_flags().bits(), Modifiers::LEFT_SHIFT | Modifiers::RIGHT_COMMAND);
    state.process_event(&release("ShiftLeft"), &none);
    assert_eq!(state.get_modifier_flags().bits(), Modifiers::RIGHT_COMMAND);
    state.process_event(&press("KeyA"), &none);
    assert_eq!(state.get_modifier_flags().bits(), Modifiers::RIGHT_COMMAND);
    assert_eq!(state.process_event(&press("CapsLock"), &none), EventAction::Consume);
    assert_eq!(Modifiers::from_bits_truncate(0xffff).bits(), 0x1ff);
}
