//! The Lua runtime of a chords file, and where it looks for Lua modules.
use crate::chords::chord_file::AppChordsFile;
use crate::text::{chars_of, push_str_chars, string_from_chars};
use vstd::prelude::*;

verus! {

/// A Lua runtime for a chords file, with the scripts it runs first.
pub struct ChordLuaRuntime {
    pub lua_init_scripts: Vec<String>,
}

impl ChordLuaRuntime {
    pub fn new(init_scripts: Vec<String>, chords_file: AppChordsFile) -> (r: ChordLuaRuntime)
        ensures
            r.lua_init_scripts@ == init_scripts@,
    {
        ChordLuaRuntime { lua_init_scripts: init_scripts }
    }
}

/// A module name as a relative path: dots become slashes.
pub open spec fn module_file_path(module_name: Seq<char>) -> Seq<char> {
    module_name.map_values(|c: char| if c == '.' { '/' } else { c })
}

/// The files a Lua module is looked for in, in order:
/// `<base>/<path>.lua`, then `<base>/<path>/init.lua`.
pub fn lua_module_candidates(base_dir: &str, module_name: &str) -> (r: (String, String))
    ensures
        r.0@ == base_dir@ + "/"@ + module_file_path(module_name@) + ".lua"@,
        r.1@ == base_dir@ + "/"@ + module_file_path(module_name@) + "/init.lua"@,
{
    let cs = chars_of(module_name);
    let n = cs.len();
    let mut path: Vec<char> = Vec::new();
    let mut i: usize = 0;
    while i < n
        invariant
            n == cs@.len(),
            cs@ == module_name@,
            i <= n,
            path@ == module_file_path(module_name@).take(i as int),
        decreases n - i,
    {
        let c = cs[i];
        path.push(if c == '.' { '/' } else { c });
        i = i + 1;
        assert(path@ =~= module_file_path(module_name@).take(i as int));
    }
    assert(module_file_path(module_name@).take(n as int) =~= module_file_path(module_name@));
    let mut a: Vec<char> = Vec::new();
    push_str_chars(&mut a, base_dir);
    push_str_chars(&mut a, "/");
    let ghost pre = a@;
    let mut j: usize = 0;
    while j < n
        invariant
            n == path@.len(),
            j <= n,
            a@ == pre + path@.take(j as int),
        decreases n - j,
    {
        a.push(path[j]);
        j = j + 1;
        assert(a@ =~= pre + path@.take(j as int));
    }
    assert(path@.take(n as int) =~= path@);
    let mut b: Vec<char> = Vec::new();
    let m = a.len();
    let mut k: usize = 0;
    while k < m
        invariant
            m == a@.len(),
            k <= m,
            b@ == a@.take(k as int),
        decreases m - k,
    {
        b.push(a[k]);
        k = k + 1;
        assert(b@ =~= a@.take(k as int));
    }
    assert(a@.take(m as int) =~= a@);
    push_str_chars(&mut a, ".lua");
    push_str_chars(&mut b, "/init.lua");
    (string_from_chars(&a), string_from_chars(&b))
}

/// The message Lua gets when no file holds the module.
pub fn lua_module_not_found(module_name: &str, base_dir: &str) -> (r: String)
    ensures
        r@ == "\n\tno module '"@ + module_name@ + "' in "@ + base_dir@,
{
    let mut out: Vec<char> = Vec::new();
    push_str_chars(&mut out, "\n\tno module '");
    push_str_chars(&mut out, module_name);
    push_str_chars(&mut out, "' in ");
    push_str_chars(&mut out, base_dir);
    string_from_chars(&out)
}

} // verus!
