use chords::chords::chord::ChordJsInvocation;
use chords::chords::chord_file::{
    AppChord, AppChordMapValue, AppChordsFile, JsInvocationError, RawAppChordsFile, TomlArrayItem,
    TomlValue,
};

fn toml_value(value: &toml::Value) -> TomlValue {
    match value {
        toml::Value::Array(items) => TomlValue::Array(
            items
                .iter()
                .map(|item| match item {
                    toml::Value::String(s) => TomlArrayItem::String(s.clone()),
                    _ => TomlArrayItem::Other,
                })
                .collect(),
        ),
        _ => TomlValue::Other,
    }
}

fn string_field(table: &toml::Table, key: &str) -> Option<String> {
    table.get(key).and_then(|v| v.as_str()).map(|s| s.to_string())
}

fn app_chord(table: &toml::Table) -> AppChord {
    let mut extra = Vec::new();
    for (key, value) in table {
        if !["name", "shortcut", "shell", "args"].contains(&key.as_str()) {
            extra.push((key.clone(), toml_value(value)));
        }
    }
    AppChord {
        name: string_field(table, "name").unwrap(),
        shortcut: string_field(table, "shortcut"),
        shell: string_field(table, "shell"),
        args: table.get("args").and_then(|v| v.as_array()).map(|items| {
            items.iter().map(|i| i.as_str().unwrap().to_string()).collect()
        }),
        extra,
    }
}

fn parse_chords_file(text: &str) -> AppChordsFile {
    let table: toml::Table = toml::from_str(text).unwrap();
    let chords = table.get("chords").and_then(|c| c.as_table()).map(|chords| {
        chords
            .iter()
            .map(|(sequence, value)| {
                let value = match value {
                    toml::Value::Table(t) => AppChordMapValue::Single(app_chord(t)),
                    toml::Value::Array(items) => AppChordMapValue::Multiple(
                        items.iter().map(|i| app_chord(i.as_table().unwrap())).collect(),
                    ),
                    _ => panic!("unexpected chord value"),
                };
                (sequence.clone(), value)
            })
            .collect()
    });
    AppChordsFile::from_raw(RawAppChordsFile { config: None, chords })
}

fn single_entry<'a>(file: &'a AppChordsFile, sequence: &str) -> &'a AppChord {
    match &file.chords.iter().find(|(s, _)| s == sequence).unwrap().1 {
        AppChordMapValue::Single(entry) => entry,
        AppChordMapValue::Multiple(_) => unreachable!(),
    }
}

#[test]
fn parses_default_export_args() {
    let chord = AppChord {
        name: "Test".to_string(),
        shortcut: None,
        shell: None,
        args: Some(vec!["one".to_string(), "two".to_string()]),
        extra: Default::default(),
    };

    assert_eq!(
        chord.js_invocation().unwrap(),
        Some(ChordJsInvocation {
            export_name: None,
            args: vec!["one".to_string(), "two".to_string()],
        })
    );
}

#[test]
fn parses_named_export_args() {
    let file = parse_chords_file(
        r#"
[chords]
a = { name = "Menu", 'menu:args' = ["View", "Columns"] }
"#,
    );

    let entry = single_entry(&file, "a");

    assert_eq!(
        entry.js_invocation().unwrap(),
        Some(ChordJsInvocation {
            export_name: Some("menu".to_string()),
            args: vec!["View".to_string(), "Columns".to_string()],
        })
    );
}

#[test]
fn rejects_multiple_js_invocation_targets() {
    let file = parse_chords_file(
        r#"
[chords]
a = { name = "Conflict", args = ["default"], 'menu:args' = ["View"] }
"#,
    );

    let entry = single_entry(&file, "a");

    assert!(entry.js_invocation().is_err());
}

#[test]
fn js_invocation_errors_name_their_key() {
    let mut chord = AppChord {
        name: "Bad".to_string(),
        shortcut: None,
        shell: None,
        args: None,
        extra: vec![(":args".to_string(), TomlValue::Array(vec![]))],
    };
    assert_eq!(
        chord.js_invocation(),
        Err(JsInvocationError::InvalidExportKey(":args".to_string()))
    );
    chord.extra = vec![("menu:args".to_string(), TomlValue::Other)];
    assert_eq!(
        chord.js_invocation(),
        Err(JsInvocationError::NotAnArray("menu:args".to_string()))
    );
    chord.extra = vec![(
        "menu:args".to_string(),
        TomlValue::Array(vec![TomlArrayItem::String("View".to_string()), TomlArrayItem::Other]),
    )];
    assert_eq!(
        chord.js_invocation(),
        Err(JsInvocationError::NotOnlyStrings("menu:args".to_string()))
    );
    chord.extra = vec![("note".to_string(), TomlValue::Other)];
    assert_eq!(chord.js_invocation(), Ok(None));
}

#[test]
fn shallow_chords_skip_invalid_entries() {
    let file = parse_chords_file(
        r#"
[chords]
gd = { name = "Go to Downloads", shortcut = "opt+cmd+l" }
fu = { name = "Folder Up", shortcut = "cmd+up" }
bad = { name = "Bad shortcut", shortcut = "cmd+nokey" }
"/f" = { name = "Finder", shell = "open -a Finder" }
"#,
    );
    let table = file.get_chords_shallow();
    assert_eq!(table.len(), 3);
    let gd = chords::input::key::Key::parse_sequence("gd").unwrap();
    let chord = table.get(&gd).unwrap();
    assert_eq!(chord.name, "Go to Downloads");
    assert_eq!(chord.shortcut.as_ref().unwrap().chords[0].keys.len(), 3);
    let finder = chords::input::key::Key::parse_sequence("/f").unwrap();
    assert_eq!(table.get(&finder).unwrap().shell.as_deref(), Some("open -a Finder"));
    let bad = chords::input::key::Key::parse_sequence("bad").unwrap();
    assert!(table.get(&bad).is_none());
}

#[test]
fn first_of_multiple_entries_counts() {
    let file = parse_chords_file(
        r#"
[chords]
tt = [{ name = "First", shortcut = "cmd+t" }, { name = "Second", shortcut = "cmd+y" }]
"#,
    );
    let table = file.get_chords_shallow();
    let tt = chords::input::key::Key::parse_sequence("tt").unwrap();
    assert_eq!(table.get(&tt).unwrap().name, "First");
}

#[test]
fn missing_chords_table_gives_no_chords() {
    let file = AppChordsFile::from_raw(RawAppChordsFile { config: None, chords: None });
    assert!(file.chords.is_empty());
    assert_eq!(file.get_chords_shallow().len(), 0);
}
