use chords::input::key::{Key, KeyCombination, KeyCombinationModifiers, KeyParseError};

#[test]
fn parses_code_names_and_abbreviations() {
    assert_eq!(Key::parse("KeyA").unwrap().name(), "KeyA");
    assert_eq!(Key::parse("a").unwrap().name(), "KeyA");
    assert_eq!(Key::parse("A"), Err(KeyParseError::UnknownCodeName("A".to_string())));
    assert_eq!(Key::parse("cmd").unwrap().name(), "MetaLeft");
    assert_eq!(Key::parse("opt").unwrap().name(), "AltLeft");
    assert_eq!(Key::parse("/").unwrap().name(), "Slash");
    assert_eq!(Key::parse("1").unwrap().name(), "Digit1");
    assert_eq!(Key::parse("f12").unwrap().name(), "F12");
}

#[test]
fn rejects_unknown_keys() {
    assert_eq!(Key::parse(""), Err(KeyParseError::Empty));
    assert_eq!(
        Key::parse("NoSuchKey"),
        Err(KeyParseError::UnknownCodeName("NoSuchKey".to_string()))
    );
    assert_eq!(
        Key::parse("nokey"),
        Err(KeyParseError::UnknownKey("nokey".to_string()))
    );
}

#[test]
fn parses_sequences_character_by_character() {
    let keys = Key::parse_sequence("/f").unwrap();
    assert_eq!(keys.iter().map(|k| k.name()).collect::<Vec<_>>(), vec!["Slash", "KeyF"]);
    let keys = Key::parse_sequence("3gd").unwrap();
    assert_eq!(
        keys.iter().map(|k| k.name()).collect::<Vec<_>>(),
        vec!["Digit3", "KeyG", "KeyD"]
    );
    assert!(Key::parse_sequence("g\u{e9}").is_err());
}

#[test]
fn digits_and_letters() {
    assert!(Key::named("Digit0").is_digit());
    assert!(!Key::named("Numpad1").is_digit());
    assert!(Key::named("KeyZ").is_letter());
    assert!(!Key::named("Slash").is_letter());
}

#[test]
fn characters_of_keys() {
    assert_eq!(Key::named("KeyA").to_char(false), Some('a'));
    assert_eq!(Key::named("KeyA").to_char(true), Some('A'));
    assert_eq!(Key::named("Digit1").to_char(true), Some('!'));
    assert_eq!(Key::named("Slash").to_char(false), Some('/'));
    assert_eq!(Key::named("Slash").to_char(true), Some('?'));
    assert_eq!(Key::named("Space").to_char(false), None);
}

#[test]
fn modifiers_lists() {
    let names: Vec<String> = Key::modifiers().iter().map(|k| k.name().to_string()).collect();
    assert_eq!(names.len(), 9);
    assert!(names.contains(&"ShiftLeft".to_string()));
    let non_shift: Vec<String> = Key::non_shift_modifiers().iter().map(|k| k.name().to_string()).collect();
    assert_eq!(non_shift.len(), 7);
    assert!(!non_shift.contains(&"ShiftRight".to_string()));
}

#[test]
fn serializes_key_combinations() {
    let c = KeyCombination {
        key: Key::named("F13"),
        modifiers: KeyCombinationModifiers { alt: false, ctrl: true, meta: true, shift: false },
    };
    assert_eq!(c.serialize(), "ControlLeft+MetaLeft+F13");
    let all = KeyCombination {
        key: Key::named("Digit2"),
        modifiers: KeyCombinationModifiers { alt: true, ctrl: true, meta: true, shift: true },
    };
    assert_eq!(all.serialize(), "AltLeft+ControlLeft+MetaLeft+ShiftLeft+Digit2");
}

#[test]
fn builds_combinations_from_pool_entries() {
    let c = KeyCombination::from_pool_entry("F14", "1", "1", "0", "0").unwrap();
    assert_eq!(c.key.name(), "F14");
    assert!(c.modifiers.meta && c.modifiers.ctrl && !c.modifiers.alt && !c.modifiers.shift);
    assert!(KeyCombination::from_pool_entry("nokey", "1", "1", "0", "0").is_err());
}

#[test]
fn converts_to_and_from_rdev_names() {
    assert_eq!(Key::named("AltLeft").to_rdev().unwrap(), "Alt");
    assert_eq!(Key::named("F13").to_rdev().unwrap(), "Unknown(105)");
    assert_eq!(Key::from_rdev("Alt").unwrap().name(), "AltLeft");
    assert_eq!(Key::from_rdev("AltGr").unwrap().name(), "AltRight");
    assert_eq!(Key::from_rdev("KeyA").unwrap().name(), "KeyA");
    assert_eq!(
        Key::from_rdev("Unknown(3)"),
        Err(KeyParseError::UnknownKey("Unknown(3)".to_string()))
    );
    assert!(Key::named("NoSuchKey").to_rdev().is_err());
}

#[test]
fn converts_to_and_from_mac_keycode_names() {
    assert_eq!(Key::named("KeyA").to_mac_keycode().unwrap(), "A");
    assert_eq!(Key::named("Enter").to_mac_keycode().unwrap(), "Return");
    assert_eq!(Key::from_mac_keycode("ISOSection").unwrap().name(), "IntlBackslash");
    assert_eq!(Key::from_mac_keycode("CapsLock").unwrap().name(), "CapsLock");
    assert!(Key::from_mac_keycode("NoSuchKey").is_err());
}

#[test]
fn converts_from_device_query_names() {
    assert_eq!(Key::from_device_query("Key0").unwrap().name(), "Digit0");
    assert_eq!(Key::from_device_query("LOption").unwrap().name(), "AltLeft");
    assert_eq!(Key::from_device_query("Command").unwrap().name(), "MetaLeft");
    assert_eq!(Key::from_device_query("Dot").unwrap().name(), "Period");
    assert!(Key::from_device_query("Nothing").is_none());
}

#[test]
fn rdev_names_come_back_to_the_same_key() {
    for name in ["KeyA", "Digit1", "ArrowDown", "AltLeft", "AltRight", "MetaLeft", "MediaTrackNext", "Space", "CapsLock", "F12"] {
        let key = Key::named(name);
        let rdev = key.to_rdev().unwrap();
        assert_eq!(Key::from_rdev(&rdev).unwrap(), key);
    }
    let f13 = Key::named("F13").to_rdev().unwrap();
    assert_eq!(f13, "Unknown(105)");
    assert!(Key::from_rdev(&f13).is_err());
}
