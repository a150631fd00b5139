use chords::chords::shortcut::{press_actions, release_actions, Shortcut, ShortcutAction, ShortcutParseError};
use chords::chordsapp::ChordsappModule;

fn describe(actions: &[ShortcutAction]) -> Vec<String> {
    actions
        .iter()
        .map(|a| match a {
            ShortcutAction::Press(k, s) => format!("+{}{}", k.name(), if *s { "" } else { "!" }),
            ShortcutAction::Release(k, s) => format!("-{}{}", k.name(), if *s { "" } else { "!" }),
        })
        .collect()
}

#[test]
fn parses_chords_of_a_shortcut() {
    let s = Shortcut::parse("cmd+k cmd+s").unwrap();
    assert_eq!(s.chords.len(), 2);
    assert_eq!(s.chords[0].keys[0].name(), "MetaLeft");
    assert_eq!(s.chords[1].keys[1].name(), "KeyS");
    assert_eq!(
        Shortcut::parse("cmd+nokey"),
        Err(ShortcutParseError::Invalid("cmd+nokey".to_string()))
    );
}

#[test]
fn presses_and_releases_a_single_chord() {
    let s = Shortcut::parse("cmd+shift+t").unwrap();
    assert_eq!(describe(&press_actions(&s)), vec!["+MetaLeft!", "+ShiftLeft!", "+KeyT!"]);
    assert_eq!(describe(&release_actions(&s)), vec!["-KeyT!", "-ShiftLeft!", "-MetaLeft!"]);
    let s = Shortcut::parse("cmd+up").unwrap();
    assert_eq!(describe(&press_actions(&s)), vec!["+MetaLeft", "+ArrowUp"]);
}

#[test]
fn multi_chord_shortcuts_release_all_but_the_last_chord() {
    let s = Shortcut::parse("cmd+k s").unwrap();
    assert_eq!(
        describe(&press_actions(&s)),
        vec!["+MetaLeft", "+KeyK", "-KeyK", "-MetaLeft", "+KeyS"]
    );
    assert_eq!(describe(&release_actions(&s)), vec!["-KeyS"]);
}

#[test]
fn tap_presses_then_releases() {
    let actions = ChordsappModule::tap("ctrl+cmd+s").unwrap();
    assert_eq!(
        describe(&actions),
        vec!["+ControlLeft", "+MetaLeft", "+KeyS", "-KeyS", "-MetaLeft", "-ControlLeft"]
    );
    let err = ChordsappModule::press("cmd+nokey").unwrap_err();
    assert_eq!(
        err,
        "Invalid shortcut \"cmd+nokey\": Failed to parse shortcut: cmd+nokey"
    );
    assert_eq!(describe(&ChordsappModule::release("cmd+s").unwrap()), vec!["-KeyS", "-MetaLeft"]);
}

#[test]
fn chordsapp_declares_its_exports() {
    assert_eq!(
        ChordsappModule::declared_exports(),
        vec!["press", "release", "tap", "getGlobalHotkey", "registerGlobalHotkey", "onAppLaunch", "onAppTerminate"]
    );
}
