//! The JavaScript side of chords: how module names are resolved and which
//! built-in module a name loads, how errors thrown in scripts are shown, and
//! what the TypeScript loader does with each kind of file.
use crate::text::{chars_of, owned, push_str_chars, str_eq, string_from_chars, views};
use vstd::prelude::*;

verus! {

/// `s` without all leading copies of `p` (`str::trim_start_matches`).
pub open spec fn trim_start_all(s: Seq<char>, p: Seq<char>) -> Seq<char>
    decreases s.len(),
{
    if p.len() > 0 && s.len() >= p.len() && s.take(p.len() as int) == p {
        trim_start_all(s.skip(p.len() as int), p)
    } else {
        s
    }
}

/// `s` without all trailing `c` (`str::trim_end_matches`).
pub open spec fn trim_end_all(s: Seq<char>, c: char) -> Seq<char>
    decreases s.len(),
{
    if s.len() > 0 && s.last() == c {
        trim_end_all(s.drop_last(), c)
    } else {
        s
    }
}

/// A module name as resolved: without any `node:` prefix and trailing `/`.
pub open spec fn normalized_module_name(name: Seq<char>) -> Seq<char> {
    trim_end_all(trim_start_all(name, "node:"@), '/')
}

/// A module name without any `node:` prefix and trailing `/`.
pub fn normalize_module_name(name: &str) -> (r: String)
    ensures
        r@ == normalized_module_name(name@),
{
    proof {
        reveal_strlit("node:");
    }
    let p = chars_of("node:");
    let cs = chars_of(name);
    let n = cs.len();
    let mut start: usize = 0;
    assert(p@.len() == 5);
    assert(name@.skip(0) =~= name@);
    while n - start >= 5 && cs[start] == p[0] && cs[start + 1] == p[1] && cs[start + 2] == p[2]
        && cs[start + 3] == p[3] && cs[start + 4] == p[4]
        invariant
            p@ == "node:"@,
            p@.len() == 5,
            cs@ == name@,
            n == cs@.len(),
            start <= n,
            trim_start_all(name@, "node:"@) == trim_start_all(name@.skip(start as int), "node:"@),
        decreases n - start,
    {
        let ghost t = name@.skip(start as int);
        assert(t.take(5) =~= "node:"@);
        assert(t.skip(5) =~= name@.skip(start as int + 5));
        start = start + 5;
    }
    let ghost t = name@.skip(start as int);
    assert(trim_start_all(t, "node:"@) == t) by {
        if t.len() >= 5 && t.take(5) == "node:"@ {
            assert(t.take(5)[0] == cs@[start as int]);
            assert(t.take(5)[1] == cs@[start as int + 1]);
            assert(t.take(5)[2] == cs@[start as int + 2]);
            assert(t.take(5)[3] == cs@[start as int + 3]);
            assert(t.take(5)[4] == cs@[start as int + 4]);
        }
    }
    let mut end: usize = n;
    while end > start && cs[end - 1] == '/'
        invariant
            cs@ == name@,
            n == cs@.len(),
            start <= end <= n,
            t == name@.skip(start as int),
            trim_end_all(t, '/') == trim_end_all(name@.subrange(start as int, end as int), '/'),
        decreases end,
    {
        let ghost u = name@.subrange(start as int, end as int);
        assert(u.drop_last() =~= name@.subrange(start as int, end as int - 1));
        end = end - 1;
    }
    assert(name@.subrange(start as int, n as int) =~= t);
    let mut out: Vec<char> = Vec::new();
    let mut i: usize = start;
    while i < end
        invariant
            cs@ == name@,
            start <= i <= end <= n,
            n == cs@.len(),
            out@ == name@.subrange(start as int, i as int),
        decreases end - i,
    {
        out.push(cs[i]);
        i = i + 1;
        assert(out@ =~= name@.subrange(start as int, i as int));
    }
    string_from_chars(&out)
}

/// How a module name resolves.
#[derive(Debug, Clone, PartialEq, Eq)]
pub enum ModuleResolution {
    /// To this name, loaded by the app.
    Resolved(String),
    /// By the default resolver, given this (normalized) name.
    Fallback(String),
}

/// Resolves a module name: a built-in module or `chordsapp` resolves to its
/// normalized name; any other name goes to the default resolver.
pub fn resolve_module_name(builtin_modules: &Vec<String>, name: &str) -> (r: ModuleResolution)
    ensures
        match r {
            ModuleResolution::Resolved(s) => s@ == normalized_module_name(name@) && (views(
                builtin_modules@,
            ).contains(s@) || s@ == "chordsapp"@),
            ModuleResolution::Fallback(s) => s@ == normalized_module_name(name@) && !views(
                builtin_modules@,
            ).contains(s@) && s@ != "chordsapp"@,
        },
{
    let normalized = normalize_module_name(name);
    let n = builtin_modules.len();
    let mut i: usize = 0;
    while i < n
        invariant
            n == builtin_modules@.len(),
            normalized@ == normalized_module_name(name@),
            i <= n,
            forall|j: int| 0 <= j < i ==> builtin_modules@[j]@ != normalized@,
        decreases n - i,
    {
        if builtin_modules[i] == normalized {
            assert(views(builtin_modules@)[i as int] == normalized@);
            return ModuleResolution::Resolved(normalized);
        }
        i = i + 1;
    }
    assert(!views(builtin_modules@).contains(normalized@)) by {
        assert forall|j: int| 0 <= j < views(builtin_modules@).len() implies views(builtin_modules@)[j] != normalized@ by {
            assert(views(builtin_modules@)[j] == builtin_modules@[j]@);
        }
    }
    if str_eq(normalized.as_str(), "chordsapp") {
        ModuleResolution::Resolved(normalized)
    } else {
        ModuleResolution::Fallback(normalized)
    }
}

/// The modules the app provides itself.
#[derive(Debug, Clone, Copy, PartialEq, Eq, Structural)]
pub enum BuiltinModule {
    Fs,
    Os,
    Util,
    ChildProcess,
    Process,
    Path,
    Console,
    Buffer,
    Module,
    Chordsapp,
}

/// The module the app provides under a (normalized) name.
pub open spec fn builtin_module_of(name: Seq<char>) -> Option<BuiltinModule> {
    if name == "fs"@ {
        Some(BuiltinModule::Fs)
    } else if name == "os"@ {
        Some(BuiltinModule::Os)
    } else if name == "util"@ {
        Some(BuiltinModule::Util)
    } else if name == "child_process"@ {
        Some(BuiltinModule::ChildProcess)
    } else if name == "process"@ {
        Some(BuiltinModule::Process)
    } else if name == "path"@ {
        Some(BuiltinModule::Path)
    } else if name == "console"@ {
        Some(BuiltinModule::Console)
    } else if name == "buffer"@ {
        Some(BuiltinModule::Buffer)
    } else if name == "module"@ {
        Some(BuiltinModule::Module)
    } else if name == "chordsapp"@ {
        Some(BuiltinModule::Chordsapp)
    } else {
        None
    }
}

/// The name a built-in module is imported by.
pub open spec fn builtin_module_name(m: BuiltinModule) -> Seq<char> {
    match m {
        BuiltinModule::Fs => "fs"@,
        BuiltinModule::Os => "os"@,
        BuiltinModule::Util => "util"@,
        BuiltinModule::ChildProcess => "child_process"@,
        BuiltinModule::Process => "process"@,
        BuiltinModule::Path => "path"@,
        BuiltinModule::Console => "console"@,
        BuiltinModule::Buffer => "buffer"@,
        BuiltinModule::Module => "module"@,
        BuiltinModule::Chordsapp => "chordsapp"@,
    }
}

/// A built-in module is given exactly for its own name: the module given for
/// a name is the one imported by that name, and each module is given for its
/// name (so distinct names give distinct modules).
pub proof fn lemma_builtin_module_names(name: Seq<char>, m: BuiltinModule)
    ensures
        builtin_module_of(name) == Some(m) ==> builtin_module_name(m) == name,
        builtin_module_of(builtin_module_name(m)) == Some(m),
{
    reveal_strlit("fs");
    reveal_strlit("os");
    reveal_strlit("util");
    reveal_strlit("child_process");
    reveal_strlit("process");
    reveal_strlit("path");
    reveal_strlit("console");
    reveal_strlit("buffer");
    reveal_strlit("module");
    reveal_strlit("chordsapp");
    assert("fs"@.len() == 2);
    assert("os"@.len() == 2);
    assert("util"@.len() == 4);
    assert("child_process"@.len() == 13);
    assert("process"@.len() == 7);
    assert("path"@.len() == 4);
    assert("console"@.len() == 7);
    assert("buffer"@.len() == 6);
    assert("module"@.len() == 6);
    assert("chordsapp"@.len() == 9);
    assert("os"@[0] != "fs"@[0]);
    assert("path"@[0] != "util"@[0]);
    assert("console"@[0] != "process"@[0]);
    assert("module"@[0] != "buffer"@[0]);
}

/// The module `get_module` gives is the one imported by the normalized name.
pub proof fn lemma_get_module_by_name(name: Seq<char>, m: BuiltinModule)
    requires
        builtin_module_of(normalized_module_name(name)) == Some(m),
    ensures
        builtin_module_name(m) == normalized_module_name(name),
{
    lemma_builtin_module_names(normalized_module_name(name), m);
}

/// The module the app provides for a module name (normalized first), if any;
/// other names are loaded by the default loader.
pub fn get_module(name: &str) -> (r: Option<BuiltinModule>)
    ensures
        r == builtin_module_of(normalized_module_name(name@)),
{
    let name = normalize_module_name(name);
    let n = name.as_str();
    if str_eq(n, "fs") {
        Some(BuiltinModule::Fs)
    } else if str_eq(n, "os") {
        Some(BuiltinModule::Os)
    } else if str_eq(n, "util") {
        Some(BuiltinModule::Util)
    } else if str_eq(n, "child_process") {
        Some(BuiltinModule::ChildProcess)
    } else if str_eq(n, "process") {
        Some(BuiltinModule::Process)
    } else if str_eq(n, "path") {
        Some(BuiltinModule::Path)
    } else if str_eq(n, "console") {
        Some(BuiltinModule::Console)
    } else if str_eq(n, "buffer") {
        Some(BuiltinModule::Buffer)
    } else if str_eq(n, "module") {
        Some(BuiltinModule::Module)
    } else if str_eq(n, "chordsapp") {
        Some(BuiltinModule::Chordsapp)
    } else {
        None
    }
}

fn concat3(a: &str, b: &str, c: &str) -> (r: String)
    ensures
        r@ == a@ + b@ + c@,
{
    let mut out: Vec<char> = Vec::new();
    push_str_chars(&mut out, a);
    push_str_chars(&mut out, b);
    push_str_chars(&mut out, c);
    string_from_chars(&out)
}

/// How an exception object is shown: its message and stack on two lines, its
/// message alone without a stack, else `rendered` (the value as printed).
pub open spec fn exception_text(message: Option<Seq<char>>, stack: Option<Seq<char>>, rendered: Seq<char>) -> Seq<char> {
    match (message, stack) {
        (Some(m), Some(s)) => m + "\n"@ + s,
        (Some(m), None) => m,
        _ => rendered,
    }
}

pub open spec fn opt_view(o: Option<String>) -> Option<Seq<char>> {
    match o {
        Some(s) => Some(s@),
        None => None,
    }
}

/// How an exception is shown (see [`exception_text`]).
pub fn format_exception(message: Option<String>, stack: Option<String>, rendered: String) -> (r: String)
    ensures
        r@ == exception_text(opt_view(message), opt_view(stack), rendered@),
{
    match (message, stack) {
        (Some(m), Some(s)) => concat3(m.as_str(), "\n", s.as_str()),
        (Some(m), None) => m,
        _ => rendered,
    }
}

/// The error message a thrown exception is rethrown with: `name: message`
/// and the stack on the next line, with defaults for missing parts.
pub fn thrown_exception_message(name: Option<String>, message: Option<String>, stack: Option<String>) -> (r: String)
    ensures
        r@ == (match name { Some(n) => n@, None => "Error"@ }) + ": "@ + (match message {
            Some(m) => m@,
            None => "Unknown JS error"@,
        }) + "\n"@ + (match stack {
            Some(s) => s@,
            None => "No stack"@,
        }),
{
    let n = match name {
        Some(n) => n,
        None => owned("Error"),
    };
    let m = match message {
        Some(m) => m,
        None => owned("Unknown JS error"),
    };
    let s = match stack {
        Some(s) => s,
        None => owned("No stack"),
    };
    let a = concat3(n.as_str(), ": ", m.as_str());
    concat3(a.as_str(), "\n", s.as_str())
}

/// The error message for a thrown value that is no exception: the value as
/// JSON, if it can be written so.
pub fn thrown_value_message(rendered: Option<String>) -> (r: String)
    ensures
        r@ == "Thrown JS value: "@ + match rendered {
            Some(s) => s@,
            None => "<non-serializable thrown value>"@,
        },
{
    let v = match rendered {
        Some(s) => s,
        None => owned("<non-serializable thrown value>"),
    };
    let mut out: Vec<char> = Vec::new();
    push_str_chars(&mut out, "Thrown JS value: ");
    push_str_chars(&mut out, v.as_str());
    string_from_chars(&out)
}

/// The `module` module, which exports `createRequire`.
pub struct ModuleModule;

impl ModuleModule {
    /// The names the module exports.
    pub fn declared_exports() -> (r: Vec<&'static str>)
        ensures
            r@.map_values(|s: &str| s@) == seq!["createRequire"@],
    {
        let mut v: Vec<&'static str> = Vec::new();
        v.push("createRequire");
        assert(v@.map_values(|s: &str| s@) =~= seq!["createRequire"@]);
        v
    }
}

/// The kind of a source file, by its extension (as `deno_ast` tells them apart).
#[derive(Debug, Clone, Copy, PartialEq, Eq, Structural)]
pub enum MediaType {
    JavaScript,
    Jsx,
    Mjs,
    Cjs,
    TypeScript,
    Mts,
    Cts,
    Dts,
    Dmts,
    Dcts,
    Tsx,
    Css,
    Json,
    Html,
    Sql,
    Wasm,
    SourceMap,
    Unknown,
}

/// What the runtime loads a module as.
#[derive(Debug, Clone, Copy, PartialEq, Eq, Structural)]
pub enum ModuleType {
    JavaScript,
    Json,
}

/// How the TypeScript loader loads a file of the given kind: as JavaScript
/// (transpiled first, for JSX and TypeScript kinds) or as JSON; other kinds are
/// refused.
pub open spec fn media_load_plan(media: MediaType) -> Option<(ModuleType, bool)> {
    match media {
        MediaType::JavaScript | MediaType::Mjs | MediaType::Cjs => Some((ModuleType::JavaScript, false)),
        MediaType::Jsx => Some((ModuleType::JavaScript, true)),
        MediaType::TypeScript | MediaType::Mts | MediaType::Cts | MediaType::Dts | MediaType::Dmts
        | MediaType::Dcts | MediaType::Tsx => Some((ModuleType::JavaScript, true)),
        MediaType::Json => Some((ModuleType::Json, false)),
        _ => None,
    }
}

/// Loads modules from files, transpiling TypeScript.
pub struct TypescriptModuleLoader;

impl TypescriptModuleLoader {
    pub fn new() -> (r: TypescriptModuleLoader) {
        TypescriptModuleLoader
    }

    /// The module type a file of the given kind is loaded as, and whether it
    /// is transpiled first; `None` for an extension the loader refuses.
    pub fn load_plan(&self, media: MediaType) -> (r: Option<(ModuleType, bool)>)
        ensures
            r == media_load_plan(media),
    {
        match media {
            MediaType::JavaScript | MediaType::Mjs | MediaType::Cjs => Some((ModuleType::JavaScript, false)),
            MediaType::Jsx => Some((ModuleType::JavaScript, true)),
            MediaType::TypeScript | MediaType::Mts | MediaType::Cts | MediaType::Dts | MediaType::Dmts
            | MediaType::Dcts | MediaType::Tsx => Some((ModuleType::JavaScript, true)),
            MediaType::Json => Some((ModuleType::Json, false)),
            _ => None,
        }
    }
}

} // verus!
