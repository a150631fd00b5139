use chords::chords::chord_file::{AppChord, AppChordMapValue, AppChordsFile, AppChordsFileConfig};
use chords::chords::chord_folder::ChordFolder;
use chords::chords::loaded::LoadedAppChords;
use chords::feature::chorder::{Chorder, ChorderAction};
use chords::feature::handler::{handle_key_event, AppAction};
use chords::input::key::Key;
use chords::input::key_event::KeyEvent;
use chords::mode::AppMode;

fn chord(name: &str, shortcut: &str) -> AppChordMapValue {
    AppChordMapValue::Single(AppChord {
        name: name.to_string(),
        shortcut: Some(shortcut.to_string()),
        shell: None,
        args: None,
        extra: vec![],
    })
}

fn file(entries: &[(&str, AppChordMapValue)], extends: Option<&str>) -> AppChordsFile {
    AppChordsFile {
        config: extends.map(|e| AppChordsFileConfig {
            name: None,
            extends: Some(e.to_string()),
            js: None,
        }),
        chords: entries.iter().map(|(s, v)| (s.to_string(), v.clone())).collect(),
    }
}

fn finder_chords() -> LoadedAppChords {
    let mut folder = ChordFolder::new(None);
    folder.insert_chords_file(
        "chords/com/apple/finder/macos.toml".to_string(),
        file(
            &[
                ("gd", chord("Go to Downloads", "opt+cmd+l")),
                ("fu", chord("Folder Up", "cmd+up")),
                ("tt", chord("Toggle Tabs", "cmd+shift+t")),
                ("ts", chord("Toggle Sidebar", "ctrl+cmd+s")),
                ("tp", chord("Toggle Preview", "cmd+shift+p")),
                ("nds", chord("New Directory with Selection", "ctrl+cmd+n")),
            ],
            None,
        ),
    );
    folder.insert_chords_file(
        "chords/macos.toml".to_string(),
        file(&[("/f", chord("Finder", "cmd+opt+f")), ("/q", chord("Force Quit", "cmd+opt+esc"))], None),
    );
    LoadedAppChords::from_folders(vec![folder])
}

fn press(name: &str) -> KeyEvent {
    KeyEvent::Press(Key::named(name))
}

fn release(name: &str) -> KeyEvent {
    KeyEvent::Release(Key::named(name))
}

struct Session {
    chorder: Chorder,
    loaded: LoadedAppChords,
    held: Vec<Key>,
    ran: Vec<String>,
}

impl Session {
    fn new() -> Self {
        Session { chorder: Chorder::new(), loaded: finder_chords(), held: vec![], ran: vec![] }
    }

    fn event(&mut self, e: KeyEvent) {
        let actions = self.chorder.handle_key_event(
            &e,
            Some(&self.held),
            &self.loaded,
            Some("com.apple.finder".to_string()),
        );
        for a in actions {
            if let ChorderAction::PressChord(payload, _) = a {
                for _ in 0..payload.num_times {
                    self.ran.push(payload.chord.name.clone());
                }
            }
        }
        match &e {
            KeyEvent::Press(k) => self.held.push(k.clone()),
            KeyEvent::Release(k) => self.held.retain(|h| h.name() != k.name()),
        }
    }

    fn tap(&mut self, name: &str) {
        self.event(press(name));
        self.event(release(name));
    }
}

#[test]
fn caps_lock_runs_the_typed_chord() {
    let mut s = Session::new();
    s.tap("Slash");
    s.tap("KeyF");
    s.tap("CapsLock");
    assert_eq!(s.ran, vec!["Finder"]);
    assert!(s.chorder.state.key_buffer.is_empty());
}

#[test]
fn caps_lock_again_runs_the_chord_again() {
    let mut s = Session::new();
    s.tap("KeyF");
    s.tap("KeyU");
    s.tap("CapsLock");
    s.tap("CapsLock");
    s.tap("CapsLock");
    assert_eq!(s.ran, vec!["Folder Up", "Folder Up", "Folder Up"]);
}

#[test]
fn shift_on_the_last_key_runs_the_chord() {
    let mut s = Session::new();
    s.tap("Slash");
    s.event(press("ShiftLeft"));
    s.tap("KeyF");
    s.event(release("ShiftLeft"));
    assert_eq!(s.ran, vec!["Finder"]);
}

#[test]
fn shifted_keys_reuse_the_prefix() {
    let mut s = Session::new();
    s.tap("KeyT");
    s.event(press("ShiftLeft"));
    s.tap("KeyT");
    s.tap("KeyS");
    s.tap("KeyP");
    s.event(release("ShiftLeft"));
    assert_eq!(s.ran, vec!["Toggle Tabs", "Toggle Sidebar", "Toggle Preview"]);
}

#[test]
fn shortcuts_with_modifiers_pass_through_between_chords() {
    let mut s = Session::new();
    s.tap("Slash");
    s.event(press("ShiftLeft"));
    s.tap("KeyF");
    s.event(release("ShiftLeft"));
    s.tap("KeyG");
    s.event(press("ShiftLeft"));
    s.tap("KeyD");
    s.event(release("ShiftLeft"));
    s.event(press("MetaLeft"));
    s.tap("KeyA");
    s.event(release("MetaLeft"));
    s.tap("KeyN");
    s.tap("KeyD");
    s.tap("KeyS");
    s.tap("CapsLock");
    assert_eq!(
        s.ran,
        vec!["Finder", "Go to Downloads", "New Directory with Selection"]
    );
}

#[test]
fn a_count_prefix_repeats_the_chord() {
    let mut s = Session::new();
    s.tap("Digit3");
    s.tap("KeyF");
    s.tap("KeyU");
    s.tap("CapsLock");
    assert_eq!(s.ran, vec!["Folder Up", "Folder Up", "Folder Up"]);
}

#[test]
fn unknown_sequences_clear_the_buffer() {
    let mut s = Session::new();
    s.tap("KeyX");
    s.tap("KeyX");
    s.tap("CapsLock");
    assert!(s.ran.is_empty());
    assert!(s.chorder.state.key_buffer.is_empty());
    assert!(s.chorder.state.active_chord.is_none());
}

#[test]
fn releasing_the_last_key_releases_the_pressed_chord() {
    let mut s = Session::new();
    s.tap("KeyF");
    s.event(press("ShiftLeft"));
    s.event(press("KeyU"));
    let actions = s.chorder.handle_key_event(
        &release("KeyU"),
        Some(&vec![Key::named("ShiftLeft")]),
        &s.loaded,
        Some("com.apple.finder".to_string()),
    );
    assert!(matches!(&actions[..], [ChorderAction::ReleaseChord(c)] if c.name == "Folder Up"));
}

#[test]
fn without_device_state_nothing_happens() {
    let loaded = finder_chords();
    let mut chorder = Chorder::new();
    let actions = chorder.handle_key_event(&press("KeyF"), None, &loaded, None);
    assert!(actions.is_empty());
    assert!(chorder.state.key_buffer.is_empty());
}

#[test]
fn space_release_clears_and_idle_mode_hides() {
    let mut s = Session::new();
    s.tap("KeyF");
    assert_eq!(s.chorder.state.key_buffer.len(), 1);
    s.event(release("Space"));
    assert!(s.chorder.state.key_buffer.is_empty());
    let mut chorder = Chorder::new();
    let loaded = finder_chords();
    let actions = handle_key_event(AppMode::Idle, &mut chorder, &press("KeyA"), Some(&vec![]), &loaded, None);
    assert!(matches!(&actions[..], [AppAction::HideClicker, AppAction::Chorder(ChorderAction::HideIndicator)]));
}
