//! Chords: their definition files, shortcuts, and the runtimes that hold them.
pub mod shortcut;
pub mod chord;
pub mod chord_file;
pub mod chord_folder;
pub mod runtime;
pub mod loaded;
pub mod press;
pub mod lua_runtime;
