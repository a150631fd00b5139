use chords::commands::{list_global_shortcut_mappings, remove_global_shortcut_mapping, MappingError};
use chords::input::key::{Key, KeyCombination, KeyCombinationModifiers};
use chords::store::{GlobalHotkeyStore, GlobalHotkeyStoreEntry};

fn pool() -> Vec<KeyCombination> {
    ["F13", "F14"]
        .iter()
        .map(|k| KeyCombination {
            key: Key::named(k),
            modifiers: KeyCombinationModifiers { alt: false, ctrl: true, meta: true, shift: false },
        })
        .collect()
}

#[test]
fn registering_is_idempotent() {
    let mut store = GlobalHotkeyStore::new();
    let first = store.register_global_hotkey(&pool(), "com.app".to_string(), "open".to_string());
    assert_eq!(first.as_deref(), Some("ControlLeft+MetaLeft+F13"));
    let again = store.register_global_hotkey(&pool(), "com.app".to_string(), "open".to_string());
    assert_eq!(again, first);
    assert_eq!(store.get_global_hotkey("com.app", "open"), first);
    assert_eq!(store.entries().len(), 1);
}

#[test]
fn the_pool_can_run_out() {
    let mut store = GlobalHotkeyStore::new();
    let a = store.register_global_hotkey(&pool(), "a".to_string(), "x".to_string());
    let b = store.register_global_hotkey(&pool(), "b".to_string(), "x".to_string());
    let c = store.register_global_hotkey(&pool(), "c".to_string(), "x".to_string());
    assert_eq!(a.as_deref(), Some("ControlLeft+MetaLeft+F13"));
    assert_eq!(b.as_deref(), Some("ControlLeft+MetaLeft+F14"));
    assert_eq!(c, None);
    assert_eq!(store.get_global_hotkey("c", "x"), None);
    store.remove("ControlLeft+MetaLeft+F13");
    let c = store.register_global_hotkey(&pool(), "c".to_string(), "x".to_string());
    assert_eq!(c.as_deref(), Some("ControlLeft+MetaLeft+F13"));
}

#[test]
fn mappings_are_listed_by_app_hotkey_and_shortcut() {
    let mut store = GlobalHotkeyStore::new();
    store.set("s3", GlobalHotkeyStoreEntry { bundle_id: "b".to_string(), hotkey_id: "x".to_string() });
    store.set("s1", GlobalHotkeyStoreEntry { bundle_id: "a".to_string(), hotkey_id: "y".to_string() });
    store.set("s2", GlobalHotkeyStoreEntry { bundle_id: "a".to_string(), hotkey_id: "x".to_string() });
    let listed: Vec<(String, String, String)> = list_global_shortcut_mappings(&store)
        .into_iter()
        .map(|m| (m.bundle_id, m.hotkey_id, m.shortcut))
        .collect();
    assert_eq!(
        listed,
        vec![
            ("a".to_string(), "x".to_string(), "s2".to_string()),
            ("a".to_string(), "y".to_string(), "s1".to_string()),
            ("b".to_string(), "x".to_string(), "s3".to_string()),
        ]
    );
}

#[test]
fn removing_trims_and_refuses_empty_shortcuts() {
    let mut store = GlobalHotkeyStore::new();
    store.set("s1", GlobalHotkeyStoreEntry { bundle_id: "a".to_string(), hotkey_id: "y".to_string() });
    assert_eq!(remove_global_shortcut_mapping(&mut store, "   "), Err(MappingError::EmptyShortcut));
    assert_eq!(MappingError::EmptyShortcut.message(), "shortcut cannot be empty");
    assert_eq!(store.entries().len(), 1);
    assert_eq!(remove_global_shortcut_mapping(&mut store, "  s1 "), Ok(()));
    assert_eq!(store.entries().len(), 0);
}
