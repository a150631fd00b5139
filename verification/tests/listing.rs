use chords::chords::chord::{Chord, ChordJsInvocation};
use chords::chords::chord_file::{AppChord, AppChordMapValue, AppChordsFile};
use chords::chords::chord_folder::ChordFolder;
use chords::chords::loaded::LoadedAppChords;
use chords::chords::shortcut::Shortcut;
use chords::context::{format_action, format_key, format_sequence, format_shortcut, list_loaded_chords};
use chords::input::key::Key;

fn entry(name: &str, shortcut: Option<&str>, shell: Option<&str>) -> AppChordMapValue {
    AppChordMapValue::Single(AppChord {
        name: name.to_string(),
        shortcut: shortcut.map(|s| s.to_string()),
        shell: shell.map(|s| s.to_string()),
        args: None,
        extra: vec![],
    })
}

#[test]
fn keys_are_shown_by_character_or_label() {
    assert_eq!(format_key(&Key::named("KeyA")), "A");
    assert_eq!(format_key(&Key::named("Slash")), "/");
    assert_eq!(format_key(&Key::named("MetaLeft")), "Cmd");
    assert_eq!(format_key(&Key::named("Escape")), "Esc");
    assert_eq!(format_key(&Key::named("PageDown")), "Page Down");
    assert_eq!(format_key(&Key::named("F12")), "F12");
    assert_eq!(format_sequence(&Key::parse_sequence("/f").unwrap()), "/ F");
    assert_eq!(format_shortcut(&Shortcut::parse("cmd+k shift+s").unwrap()), "Cmd + K, Shift + S");
}

#[test]
fn actions_are_shown_by_kind() {
    let mut chord = Chord {
        keys: Key::parse_sequence("ab").unwrap(),
        name: "N".to_string(),
        shortcut: Some(Shortcut::parse("cmd+opt+esc").unwrap()),
        shell: Some("ignored".to_string()),
        js: None,
    };
    assert_eq!(format_action(&chord), "Shortcut: Cmd + Alt + Esc");
    chord.shortcut = None;
    assert_eq!(format_action(&chord), "Shell: ignored");
    chord.shell = None;
    chord.js = Some(ChordJsInvocation { export_name: None, args: vec!["a\"b".to_string(), "c".to_string()] });
    assert_eq!(format_action(&chord), "Args: [\"a\\\"b\", \"c\"]");
    chord.js = None;
    assert_eq!(format_action(&chord), "No action");
}

#[test]
fn loaded_chords_are_listed_once_in_order() {
    let mut folder = ChordFolder::new(None);
    folder.insert_chords_file(
        "chords/com/b/macos.toml".to_string(),
        AppChordsFile {
            config: None,
            chords: vec![
                ("zz".to_string(), entry("Zed", Some("cmd+z"), None)),
                ("aa".to_string(), entry("Aye", None, Some("true"))),
            ],
        },
    );
    folder.insert_chords_file(
        "chords/com/a/macos.toml".to_string(),
        AppChordsFile { config: None, chords: vec![("mm".to_string(), entry("Em", None, None))] },
    );
    let loaded = LoadedAppChords::from_folders(vec![folder]);
    let listed = list_loaded_chords(&loaded);
    let rows: Vec<(String, String, String, String, String)> = listed
        .into_iter()
        .map(|c| (c.scope_kind, c.scope, c.sequence, c.name, c.action))
        .collect();
    assert_eq!(
        rows,
        vec![
            ("app".to_string(), "com.a".to_string(), "M M".to_string(), "Em".to_string(), "No action".to_string()),
            ("app".to_string(), "com.b".to_string(), "A A".to_string(), "Aye".to_string(), "Shell: true".to_string()),
            ("app".to_string(), "com.b".to_string(), "Z Z".to_string(), "Zed".to_string(), "Shortcut: Cmd + Z".to_string()),
        ]
    );
}
