use chords::chords::chord::{is_global_chord_sequence, runtime_id_from_chords_path, GLOBAL_CHORD_RUNTIME_ID};
use chords::input::key::Key;

#[test]
fn maps_root_macos_file_to_global_runtime() {
    assert_eq!(
        runtime_id_from_chords_path("chords/macos.toml").as_deref(),
        Some(GLOBAL_CHORD_RUNTIME_ID)
    );
}

#[test]
fn maps_nested_macos_file_to_bundle_identifier_style_runtime() {
    assert_eq!(
        runtime_id_from_chords_path("chords/com/apple/finder/macos.toml").as_deref(),
        Some("com.apple.finder")
    );
}

#[test]
fn rejects_non_macos_toml_paths() {
    assert_eq!(
        runtime_id_from_chords_path("chords/com/apple/finder/chords.toml"),
        None
    );
}

#[test]
fn rejects_paths_outside_chords_folder() {
    assert_eq!(runtime_id_from_chords_path("other/com/apple/finder/macos.toml"), None);
    assert_eq!(runtime_id_from_chords_path("macos.toml"), None);
    assert_eq!(runtime_id_from_chords_path(""), None);
}

#[test]
fn path_components_are_normalized_before_mapping() {
    assert_eq!(
        runtime_id_from_chords_path("./chords//com/microsoft/VSCode/macos.toml").as_deref(),
        None
    );
    assert_eq!(
        runtime_id_from_chords_path("chords//com/microsoft/VSCode/./macos.toml").as_deref(),
        Some("com.microsoft.VSCode")
    );
}

#[test]
fn global_sequences_start_with_a_symbol() {
    let slash_q = Key::parse_sequence("/q").unwrap();
    assert!(is_global_chord_sequence(&slash_q));
    let gd = Key::parse_sequence("gd").unwrap();
    assert!(!is_global_chord_sequence(&gd));
    let digits = Key::parse_sequence("3gd").unwrap();
    assert!(!is_global_chord_sequence(&digits));
    assert!(!is_global_chord_sequence(&Vec::new()));
}
