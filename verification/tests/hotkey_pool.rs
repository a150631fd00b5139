use chords::constants::{load_hotkeys, load_hotkeys_from_text, HotkeyPoolError, Json, INDICATOR_WINDOW_LABEL, QUIT_MENU_ID, SETTINGS_MENU_ID};

fn s(v: &str) -> String {
    v.to_string()
}

fn item(key: &str, m: &str, c: &str, a: &str, sh: &str) -> Json {
    Json::Object(vec![
        (s("key"), Json::String(s(key))),
        (
            s("mod"),
            Json::Object(vec![
                (s("m"), Json::Number(s(m))),
                (s("c"), Json::Number(s(c))),
                (s("a"), Json::Number(s(a))),
                (s("s"), Json::Number(s(sh))),
            ]),
        ),
    ])
}

#[test]
fn reads_the_readme_pool() {
    let mut items = Vec::new();
    for k in 13..=20 {
        items.push(item(&format!("F{k}"), "1", "1", "0", "0"));
    }
    for d in 2..=9 {
        items.push(item(&format!("Digit{d}"), "1", "1", "0", "0"));
    }
    let pool = load_hotkeys(&Some(Json::Array(items))).unwrap();
    assert_eq!(pool.len(), 16);
    assert_eq!(pool[0].serialize(), "ControlLeft+MetaLeft+F13");
    assert_eq!(pool[15].serialize(), "ControlLeft+MetaLeft+Digit9");
}

#[test]
fn reports_the_first_bad_item() {
    assert!(matches!(load_hotkeys(&None), Err(HotkeyPoolError::NotAnArray)));
    assert!(matches!(
        load_hotkeys(&Some(Json::Object(vec![]))),
        Err(HotkeyPoolError::NotAnArray)
    ));
    let items = vec![item("F13", "1", "1", "0", "0"), Json::Null, Json::Object(vec![])];
    assert!(matches!(load_hotkeys(&Some(Json::Array(items))), Err(HotkeyPoolError::ItemNotObject(1))));
    let items = vec![Json::Object(vec![(s("key"), Json::Number(s("1")))])];
    assert!(matches!(load_hotkeys(&Some(Json::Array(items))), Err(HotkeyPoolError::MissingKey(0))));
    let items = vec![Json::Object(vec![(s("key"), Json::String(s("F13")))])];
    assert!(matches!(load_hotkeys(&Some(Json::Array(items))), Err(HotkeyPoolError::MissingModifiers(0))));
    let items = vec![Json::Object(vec![
        (s("key"), Json::String(s("F13"))),
        (s("mod"), Json::Object(vec![(s("m"), Json::Number(s("1")))])),
    ])];
    match load_hotkeys(&Some(Json::Array(items))) {
        Err(HotkeyPoolError::MissingFlag(0, flag)) => assert_eq!(flag, "c"),
        other => panic!("unexpected {other:?}"),
    }
    let items = vec![item("nokey", "1", "1", "0", "0")];
    assert!(matches!(load_hotkeys(&Some(Json::Array(items))), Err(HotkeyPoolError::Key(0, _))));
}

#[test]
fn a_later_member_of_the_same_name_wins() {
    let items = vec![Json::Object(vec![
        (s("key"), Json::String(s("nokey"))),
        (s("key"), Json::String(s("F20"))),
        (
            s("mod"),
            Json::Object(vec![
                (s("m"), Json::Number(s("0"))),
                (s("c"), Json::Number(s("1"))),
                (s("a"), Json::Number(s("1"))),
                (s("s"), Json::Number(s("1"))),
            ]),
        ),
    ])];
    let pool = load_hotkeys(&Some(Json::Array(items))).unwrap();
    assert_eq!(pool[0].serialize(), "AltLeft+ControlLeft+ShiftLeft+F20");
}

#[test]
fn fixed_names() {
    assert_eq!(SETTINGS_MENU_ID, "settings");
    assert_eq!(QUIT_MENU_ID, "quit");
    assert_eq!(INDICATOR_WINDOW_LABEL, "indicator");
}

#[test]
fn reads_the_pool_from_its_text() {
    let text = r#"
// the pool
[
  { "key": "F13", "mod": { "m": 1, "c": 1, "a": 0, "s": 0 } },
  { key: "Digit2", "mod": { "m": 0, "c": 1, "a": 1, "s": 1, }, },
]
"#;
    let pool = load_hotkeys_from_text(text).unwrap();
    assert_eq!(pool.len(), 2);
    assert_eq!(pool[0].serialize(), "ControlLeft+MetaLeft+F13");
    assert!(pool[1].modifiers.shift && pool[1].modifiers.alt && !pool[1].modifiers.meta);
    assert!(matches!(load_hotkeys_from_text("[1, 2"), Err(HotkeyPoolError::InvalidDocument)));
    assert!(matches!(load_hotkeys_from_text("  "), Err(HotkeyPoolError::NotAnArray)));
    assert!(matches!(load_hotkeys_from_text("{}"), Err(HotkeyPoolError::NotAnArray)));
    assert!(matches!(load_hotkeys_from_text("[{}]"), Err(HotkeyPoolError::MissingKey(0))));
}
