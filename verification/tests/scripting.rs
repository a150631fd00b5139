use chords::app_lifecycle::{clear_callbacks, observed_app_from_parts, AppLifecycleCallbacks, ObservedApp};
use chords::chords::lua_runtime::{lua_module_candidates, lua_module_not_found};
use chords::frontmost::{Detector, FrontmostApp, RecordedId};
use chords::js::{
    format_exception, get_module, normalize_module_name, resolve_module_name, thrown_exception_message,
    thrown_value_message, BuiltinModule, MediaType, ModuleModule, ModuleResolution, ModuleType,
    TypescriptModuleLoader,
};
use chords::readline::{ReadlineModule, ReadlinePromisesModule};

#[test]
fn module_names_are_normalized() {
    assert_eq!(normalize_module_name("node:fs"), "fs");
    assert_eq!(normalize_module_name("node:node:path/"), "path");
    assert_eq!(normalize_module_name("src/file.js//"), "src/file.js");
    assert_eq!(normalize_module_name("nodefs"), "nodefs");
}

#[test]
fn resolves_builtin_and_app_modules() {
    let builtin = vec!["fs".to_string(), "path".to_string()];
    assert_eq!(resolve_module_name(&builtin, "node:fs"), ModuleResolution::Resolved("fs".to_string()));
    assert_eq!(resolve_module_name(&builtin, "chordsapp"), ModuleResolution::Resolved("chordsapp".to_string()));
    assert_eq!(resolve_module_name(&builtin, "src/x.js"), ModuleResolution::Fallback("src/x.js".to_string()));
    assert_eq!(get_module("node:child_process"), Some(BuiltinModule::ChildProcess));
    assert_eq!(get_module("module"), Some(BuiltinModule::Module));
    assert_eq!(get_module("crypto"), None);
    assert_eq!(ModuleModule::declared_exports(), vec!["createRequire"]);
}

#[test]
fn errors_are_shown_with_message_and_stack() {
    assert_eq!(format_exception(Some("m".to_string()), Some("at x".to_string()), "r".to_string()), "m\nat x");
    assert_eq!(format_exception(Some("m".to_string()), None, "r".to_string()), "m");
    assert_eq!(format_exception(None, Some("s".to_string()), "r".to_string()), "r");
    assert_eq!(thrown_exception_message(None, None, None), "Error: Unknown JS error\nNo stack");
    assert_eq!(
        thrown_exception_message(Some("TypeError".to_string()), Some("bad".to_string()), Some("at f".to_string())),
        "TypeError: bad\nat f"
    );
    assert_eq!(thrown_value_message(None), "Thrown JS value: <non-serializable thrown value>");
    assert_eq!(thrown_value_message(Some("42".to_string())), "Thrown JS value: 42");
}

#[test]
fn typescript_loader_plans() {
    let loader = TypescriptModuleLoader::new();
    assert_eq!(loader.load_plan(MediaType::JavaScript), Some((ModuleType::JavaScript, false)));
    assert_eq!(loader.load_plan(MediaType::Tsx), Some((ModuleType::JavaScript, true)));
    assert_eq!(loader.load_plan(MediaType::Json), Some((ModuleType::Json, false)));
    assert_eq!(loader.load_plan(MediaType::Css), None);
}

#[test]
fn readline_modules() {
    assert_eq!(ReadlineModule::name(), "readline");
    assert_eq!(ReadlinePromisesModule::name(), "readline/promises");
    assert!(ReadlineModule::declared_exports().contains(&"cursorTo"));
    assert_eq!(ReadlinePromisesModule::declared_exports(), vec!["Interface", "Readline", "createInterface", "default"]);
}

#[test]
fn lifecycle_callbacks_by_application() {
    assert!(observed_app_from_parts(0, Some("a".to_string())).is_none());
    assert!(observed_app_from_parts(5, None).is_none());
    let app: ObservedApp = observed_app_from_parts(5, Some("com.a".to_string())).unwrap();
    let mut callbacks: AppLifecycleCallbacks<u32> = AppLifecycleCallbacks::new();
    assert!(!callbacks.has_launch_callbacks());
    callbacks.register_app_launch_handler("com.a".to_string(), 1);
    callbacks.register_app_launch_handler("com.b".to_string(), 2);
    callbacks.register_app_launch_handler("com.a".to_string(), 3);
    callbacks.register_app_terminate_handler("com.a".to_string(), 4);
    assert_eq!(callbacks.launch_callbacks(&app), vec![1, 3]);
    assert_eq!(callbacks.terminate_callbacks(&app), vec![4]);
    clear_callbacks(&mut callbacks);
    assert!(!callbacks.has_launch_callbacks());
    assert!(!callbacks.has_terminate_callbacks());
    assert!(callbacks.launch_callbacks(&app).is_empty());
}

#[test]
fn lua_modules_are_looked_for_in_two_places() {
    let (a, b) = lua_module_candidates("/base", "foo.bar");
    assert_eq!(a, "/base/foo/bar.lua");
    assert_eq!(b, "/base/foo/bar/init.lua");
    assert_eq!(lua_module_not_found("foo", "/base"), "\n\tno module 'foo' in /base");
}

#[derive(Debug, Default)]
struct Recorder {
    frontmost: String,
    reacted_to: String,
    updates: usize,
}

impl FrontmostApp for Recorder {
    // `recorded` and `reacted_to` are read by specifications only: Verus keeps
    // them in the compiled trait, and no code calls them.
    fn recorded(&self) -> RecordedId {
        None
    }

    fn reacted_to(&self) -> RecordedId {
        None
    }

    fn set_frontmost(&mut self, new_value: &str) {
        self.frontmost = new_value.to_string();
    }

    fn update(&mut self) {
        self.reacted_to = self.frontmost.clone();
        self.updates += 1;
    }
}

#[test]
fn activation_sets_the_frontmost_application() {
    let mut r = Recorder::default();
    Detector::application_activated(&mut r, Some("com.apple.finder"));
    assert_eq!(r.frontmost, "com.apple.finder");
    assert_eq!(r.reacted_to, "com.apple.finder");
    assert_eq!(r.updates, 1);
    Detector::application_activated(&mut r, None);
    assert_eq!(r.updates, 1);
}
