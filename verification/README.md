# chords

Chords are sequences of plain keys that run actions (keyboard shortcuts, shell
commands or JavaScript exports) while _Chord Mode_ is active: Caps Lock + Space
enters it, releasing Space leaves it.

This crate is the verified core of the app, written with Verus:

- `src/input`: keys, their names and conversions, key events and modifier flags.
- `src/mode.rs`: the state machine that enters and leaves Chord Mode.
- `src/feature`: the chorder (the key buffer and the chords it runs) and the
  dispatch of key events by mode.
- `src/chords`: chords files, chord folders, runtimes with `extends`, shortcuts
  and what running a chord does.
- `src/store.rs`, `src/commands.rs`, `src/constants.rs`: the global hotkey pool
  and the store of hotkeys handed out.
- `src/context.rs`, `src/sources.rs`: the listings shown in the settings window.
- `src/js.rs`, `src/chordsapp.rs`, `src/readline.rs`, `src/app_lifecycle.rs`,
  `src/frontmost.rs`: the decisions of the scripting runtime and of the
  application watchers.

`app/` is a command line around the library: it reads chord folders and stores
from disk and runs the key handling on key events read from standard input.
