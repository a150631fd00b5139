use chords::chords::chord_file::{
    AppChord, AppChordMapValue, AppChordsFile, AppChordsFileConfig, AppChordsFileConfigJs,
};
use chords::chords::chord_folder::{is_chords_file, is_js_file, ChordFolder};
use chords::chords::loaded::LoadedAppChords;
use chords::chords::press::{press_chord, release_chord, ChordEffect};
use chords::input::key::Key;

fn chord(name: &str, shortcut: &str) -> AppChordMapValue {
    AppChordMapValue::Single(AppChord {
        name: name.to_string(),
        shortcut: Some(shortcut.to_string()),
        shell: None,
        args: None,
        extra: vec![],
    })
}

fn file(entries: &[(&str, AppChordMapValue)], extends: Option<&str>) -> AppChordsFile {
    AppChordsFile {
        config: extends.map(|e| AppChordsFileConfig { name: None, extends: Some(e.to_string()), js: None }),
        chords: entries.iter().map(|(s, v)| (s.to_string(), v.clone())).collect(),
    }
}

fn seq(s: &str) -> Vec<Key> {
    Key::parse_sequence(s).unwrap()
}

#[test]
fn extends_takes_in_the_base_chords() {
    let mut folder = ChordFolder::new(None);
    folder.insert_chords_file(
        "chords/com/base/macos.toml".to_string(),
        file(&[("gd", chord("Base Definition", "f12")), ("rs", chord("Base Rename", "f2"))], None),
    );
    folder.insert_chords_file(
        "chords/com/derived/macos.toml".to_string(),
        file(&[("gd", chord("Derived Definition", "cmd+b"))], Some("com.base")),
    );
    let loaded = LoadedAppChords::from_folders(vec![folder]);
    let derived = loaded.runtime(&"com.derived".to_string()).unwrap();
    assert_eq!(derived.chords.get(&seq("gd")).unwrap().name, "Derived Definition");
    assert_eq!(derived.chords.get(&seq("rs")).unwrap().name, "Base Rename");
    let base = loaded.runtime(&"com.base".to_string()).unwrap();
    assert_eq!(base.chords.len(), 2);
    assert!(base.chords.get(&seq("gd")).unwrap().name == "Base Definition");
}

#[test]
fn extends_of_a_missing_runtime_is_ignored() {
    let mut folder = ChordFolder::new(None);
    folder.insert_chords_file(
        "chords/com/derived/macos.toml".to_string(),
        file(&[("gd", chord("Derived", "cmd+b"))], Some("com.missing")),
    );
    let loaded = LoadedAppChords::from_folders(vec![folder]);
    assert_eq!(loaded.runtime(&"com.derived".to_string()).unwrap().chords.len(), 1);
}

#[test]
fn circular_extends_terminates() {
    let mut folder = ChordFolder::new(None);
    folder.insert_chords_file(
        "chords/a/macos.toml".to_string(),
        file(&[("aa", chord("A", "cmd+a"))], Some("b")),
    );
    folder.insert_chords_file(
        "chords/b/macos.toml".to_string(),
        file(&[("bb", chord("B", "cmd+b"))], Some("a")),
    );
    let loaded = LoadedAppChords::from_folders(vec![folder]);
    let a = loaded.runtime(&"a".to_string()).unwrap();
    assert!(a.chords.get(&seq("bb")).is_some());
}

#[test]
fn later_folders_replace_runtimes_and_global_chords() {
    let mut first = ChordFolder::new(None);
    first.insert_chords_file(
        "chords/macos.toml".to_string(),
        file(&[("/q", chord("Quit", "cmd+q"))], None),
    );
    let mut second = ChordFolder::new(None);
    second.insert_chords_file(
        "chords/macos.toml".to_string(),
        file(&[("/f", chord("Finder", "cmd+opt+f"))], None),
    );
    let loaded = LoadedAppChords::from_folders(vec![first, second]);
    let global = loaded.runtime(&"__global__".to_string()).unwrap();
    assert!(global.chords.get(&seq("/q")).is_none());
    assert!(global.chords.get(&seq("/f")).is_some());
    assert_eq!(loaded.global_chords_to_runtime_key.len(), 2);
}

#[test]
fn global_chords_work_in_every_application() {
    let mut folder = ChordFolder::new(None);
    folder.insert_chords_file(
        "chords/macos.toml".to_string(),
        file(&[("/q", chord("Force Quit", "cmd+opt+esc"))], None),
    );
    folder.insert_chords_file(
        "chords/com/apple/finder/macos.toml".to_string(),
        file(&[("gd", chord("Go to Downloads", "opt+cmd+l"))], None),
    );
    let loaded = LoadedAppChords::from_folders(vec![folder]);
    for app in [None, Some("com.apple.finder".to_string()), Some("com.other".to_string())] {
        let (payload, path) = loaded.get_chord(&seq("/q"), app).unwrap();
        assert_eq!(payload.chord.name, "Force Quit");
        assert_eq!(path, "chords/macos.toml");
    }
    assert!(loaded.get_chord(&seq("gd"), None).is_none());
    assert!(loaded.get_chord(&seq("gd"), Some("com.other".to_string())).is_none());
    let (payload, _) = loaded.get_chord(&seq("12gd"), Some("com.apple.finder".to_string())).unwrap();
    assert_eq!(payload.num_times, 12);
}

#[test]
fn running_a_chord_prefers_its_shortcut() {
    let mut folder = ChordFolder::new(None);
    folder.insert_chords_file(
        "chords/com/app/macos.toml".to_string(),
        file(
            &[
                ("sc", chord("Shortcut", "cmd+s")),
                (
                    "sh",
                    AppChordMapValue::Single(AppChord {
                        name: "Shell".to_string(),
                        shortcut: None,
                        shell: Some("open -a Finder".to_string()),
                        args: Some(vec!["x".to_string()]),
                        extra: vec![],
                    }),
                ),
                (
                    "js",
                    AppChordMapValue::Single(AppChord {
                        name: "Script".to_string(),
                        shortcut: None,
                        shell: None,
                        args: Some(vec!["explorer.newFile".to_string()]),
                        extra: vec![],
                    }),
                ),
            ],
            None,
        ),
    );
    let loaded = LoadedAppChords::from_folders(vec![folder]);
    let app = Some("com.app".to_string());
    let (p, path) = loaded.get_chord(&seq("2sc"), app.clone()).unwrap();
    assert!(matches!(press_chord(Some(path), &p), ChordEffect::PressShortcut(_, 2)));
    assert!(matches!(release_chord(&p.chord), ChordEffect::ReleaseShortcut(_)));
    let (p, path) = loaded.get_chord(&seq("sh"), app.clone()).unwrap();
    assert!(matches!(press_chord(Some(path), &p), ChordEffect::RunShell(s) if s == "open -a Finder"));
    assert!(matches!(release_chord(&p.chord), ChordEffect::Nothing));
    let (p, path) = loaded.get_chord(&seq("js"), app).unwrap();
    match press_chord(Some(path), &p) {
        ChordEffect::InvokeJs(module, js, 1) => {
            assert_eq!(module, "chords/com/app/macos.toml");
            assert_eq!(js.args, vec!["explorer.newFile".to_string()]);
        }
        other => panic!("unexpected {other:?}"),
    }
    assert!(matches!(press_chord(None, &p), ChordEffect::Nothing));
}

#[test]
fn folders_keep_files_in_path_order() {
    let mut a = ChordFolder::new(None);
    a.insert_js_file("src/b.js".to_string(), "b".to_string());
    a.insert_js_file("src/a.js".to_string(), "a".to_string());
    let mut b = ChordFolder::new(None);
    b.insert_js_file("src/a.js".to_string(), "A".to_string());
    b.insert_js_file("lib/c.js".to_string(), "c".to_string());
    a.merge(b);
    let files: Vec<(String, String)> = a.js_files.into_iter().collect();
    assert_eq!(
        files,
        vec![
            ("lib/c.js".to_string(), "c".to_string()),
            ("src/a.js".to_string(), "A".to_string()),
            ("src/b.js".to_string(), "b".to_string()),
        ]
    );
}

#[test]
fn classifies_folder_entries() {
    assert!(is_chords_file("chords/com/apple/finder/macos.toml"));
    assert!(is_chords_file("chords/macos.toml"));
    assert!(!is_chords_file("other/macos.toml"));
    assert!(!is_chords_file("chords/com/apple/finder/chords.toml"));
    assert!(is_js_file("src/file.js"));
    assert!(is_js_file("file.js"));
    assert!(!is_js_file("src/.js"));
    assert!(!is_js_file("src/file.ts"));
    assert!(!is_js_file("src/js"));
}

#[test]
fn only_runtimes_that_name_a_module_are_loaded_as_scripts() {
    let mut folder = ChordFolder::new(None);
    let mut scripted = file(&[("gd", chord("Definition", "f12"))], None);
    scripted.config = Some(AppChordsFileConfig {
        name: None,
        extends: None,
        js: Some(AppChordsFileConfigJs { module: Some("export default 1".to_string()) }),
    });
    folder.insert_chords_file("chords/com/scripted/macos.toml".to_string(), scripted);
    folder.insert_chords_file(
        "chords/com/plain/macos.toml".to_string(),
        file(&[("rs", chord("Rename", "f2"))], None),
    );
    let loaded = LoadedAppChords::from_folders(vec![folder]);
    let modules = loaded.js_modules();
    assert_eq!(modules.len(), 1);
    assert_eq!(modules[0].bundle_id, "com.scripted");
    assert_eq!(modules[0].path, "chords/com/scripted/macos.toml");
    assert_eq!(modules[0].content, "export default 1");
    assert_eq!(modules[0].raw_chords.len(), 1);
    assert_eq!(modules[0].raw_chords[0].0, "gd");
}
