//! A folder of chords: its chords files and JavaScript files, each kept in
//! a radix tree map by its path (relative to the folder's root).
use crate::chords::chord_file::AppChordsFile;
use crate::order::lex_lt;
use crate::paths::{file_name, path_components, path_file_name, components, ComponentView, PathComponent};
use crate::text::{chars_of, str_eq};
use crate::assoc::assoc_map;
use fast_radix_trie::StringRadixMap;
use vstd::prelude::*;

verus! {

/// A radix tree map of `fast_radix_trie`.
#[verifier::external_type_specification]
#[verifier::external_body]
#[verifier::reject_recursive_types(K)]
#[verifier::reject_recursive_types(V)]
pub struct ExGenericRadixMap<K, V>(fast_radix_trie::GenericRadixMap<K, V>);

/// A folder of chords files (`chords/**/macos.toml`) and JavaScript files,
/// keyed by their path relative to the folder's root.
#[derive(Debug)]
pub struct ChordFolder {
    pub root_dir: Option<String>,
    pub chords_files: StringRadixMap<AppChordsFile>,
    pub js_files: StringRadixMap<String>,
}

pub open spec fn path_pairs<T>(s: Seq<(String, T)>) -> Seq<(Seq<char>, T)> {
    s.map_values(|p: (String, T)| (p.0@, p.1))
}

/// The entries by path.
pub open spec fn path_map<T>(s: Seq<(String, T)>) -> Map<Seq<char>, T> {
    assoc_map(path_pairs(s))
}

/// The paths are in strictly increasing order.
pub open spec fn paths_sorted<T>(s: Seq<(String, T)>) -> bool {
    forall|i: int, j: int| 0 <= i < j < s.len() ==> lex_lt(#[trigger] s[i].0@, #[trigger] s[j].0@)
}

/// The chords files that a map holds, in the order in which it hands them out.
pub uninterp spec fn chords_file_entries(m: StringRadixMap<AppChordsFile>) -> Seq<(String, AppChordsFile)>;

/// The JavaScript files that a map holds, in the order in which it hands them out.
pub uninterp spec fn js_file_entries(m: StringRadixMap<String>) -> Seq<(String, String)>;

/// An empty map of chords files.
///
/// Trusted: `StringRadixMap::new` makes a map that holds nothing.
#[verifier::external_body]
fn new_chords_file_map() -> (r: StringRadixMap<AppChordsFile>)
    ensures
        chords_file_entries(r) == Seq::<(String, AppChordsFile)>::empty(),
{
    StringRadixMap::new()
}

/// An empty map of JavaScript files.
///
/// Trusted: `StringRadixMap::new` makes a map that holds nothing.
#[verifier::external_body]
fn new_js_file_map() -> (r: StringRadixMap<String>)
    ensures
        js_file_entries(r) == Seq::<(String, String)>::empty(),
{
    StringRadixMap::new()
}

/// Puts a chords file under its path.
///
/// Trusted: `StringRadixMap::insert` adds the entry, or updates the value of
/// the entry of that key; the map hands its entries out sorted by key (in
/// byte order, which for UTF-8 text is the order of the characters).
#[verifier::external_body]
fn insert_chords_file_entry(m: &mut StringRadixMap<AppChordsFile>, path: String, file: AppChordsFile)
    ensures
        paths_sorted(chords_file_entries(*final(m))),
        path_map(chords_file_entries(*final(m))) == path_map(chords_file_entries(*old(m))).insert(path@, file),
{
    m.insert(path, file);
}

/// Puts a JavaScript file under its path.
///
/// Trusted: as [`insert_chords_file_entry`], for `StringRadixMap::insert` on
/// a map of strings.
#[verifier::external_body]
fn insert_js_file_entry(m: &mut StringRadixMap<String>, path: String, content: String)
    ensures
        paths_sorted(js_file_entries(*final(m))),
        path_map(js_file_entries(*final(m))) == path_map(js_file_entries(*old(m))).insert(path@, content),
{
    m.insert(path, content);
}

/// Adds the chords files of another map.
///
/// Trusted: `extend` inserts the other map's entries one by one (see
/// [`insert_chords_file_entry`]); its keys are distinct, so each of its entries
/// ends up in the map.
#[verifier::external_body]
fn extend_chords_files(m: &mut StringRadixMap<AppChordsFile>, other: StringRadixMap<AppChordsFile>)
    ensures
        paths_sorted(chords_file_entries(*final(m))),
        path_map(chords_file_entries(*final(m))) == path_map(chords_file_entries(*old(m))).union_prefer_right(
            path_map(chords_file_entries(other)),
        ),
{
    m.extend(other);
}

/// Adds the JavaScript files of another map.
///
/// Trusted: as [`extend_chords_files`], for a map of strings.
#[verifier::external_body]
fn extend_js_files(m: &mut StringRadixMap<String>, other: StringRadixMap<String>)
    ensures
        paths_sorted(js_file_entries(*final(m))),
        path_map(js_file_entries(*final(m))) == path_map(js_file_entries(*old(m))).union_prefer_right(
            path_map(js_file_entries(other)),
        ),
{
    m.extend(other);
}

/// The chords files of a map, taken out in its order.
///
/// Trusted: `into_iter` hands out each entry once, as a pair of its key and
/// value, in the map's order.
#[verifier::external_body]
pub(crate) fn chords_file_list(m: StringRadixMap<AppChordsFile>) -> (r: Vec<(String, AppChordsFile)>)
    ensures
        r@ == chords_file_entries(m),
{
    m.into_iter().collect()
}

impl ChordFolder {
    /// The folder's files are each handed out in path order, one per path.
    pub open spec fn wf(&self) -> bool {
        paths_sorted(chords_file_entries(self.chords_files)) && paths_sorted(js_file_entries(self.js_files))
    }

    /// An empty folder with the given root.
    pub fn new(root_dir: Option<String>) -> (r: ChordFolder)
        ensures
            r.wf(),
            r.root_dir == root_dir,
            chords_file_entries(r.chords_files).len() == 0,
            js_file_entries(r.js_files).len() == 0,
    {
        ChordFolder { root_dir, chords_files: new_chords_file_map(), js_files: new_js_file_map() }
    }

    /// Adds a chords file under its path (replacing the one of that path).
    pub fn insert_chords_file(&mut self, path: String, file: AppChordsFile)
        requires
            old(self).wf(),
        ensures
            final(self).wf(),
            path_map(chords_file_entries(final(self).chords_files)) == path_map(
                chords_file_entries(old(self).chords_files),
            ).insert(path@, file),
            final(self).js_files == old(self).js_files,
            final(self).root_dir == old(self).root_dir,
    {
        insert_chords_file_entry(&mut self.chords_files, path, file);
    }

    /// Adds a JavaScript file under its path (replacing the one of that path).
    pub fn insert_js_file(&mut self, path: String, content: String)
        requires
            old(self).wf(),
        ensures
            final(self).wf(),
            path_map(js_file_entries(final(self).js_files)) == path_map(js_file_entries(old(self).js_files)).insert(
                path@,
                content,
            ),
            final(self).chords_files == old(self).chords_files,
            final(self).root_dir == old(self).root_dir,
    {
        insert_js_file_entry(&mut self.js_files, path, content);
    }

    /// Adds the files of another folder; a file of the other folder replaces
    /// the one of the same path.
    pub fn merge(&mut self, other: ChordFolder)
        requires
            old(self).wf(),
        ensures
            final(self).wf(),
            path_map(chords_file_entries(final(self).chords_files)) == path_map(
                chords_file_entries(old(self).chords_files),
            ).union_prefer_right(path_map(chords_file_entries(other.chords_files))),
            path_map(js_file_entries(final(self).js_files)) == path_map(js_file_entries(old(self).js_files)).union_prefer_right(
                path_map(js_file_entries(other.js_files)),
            ),
            final(self).root_dir == old(self).root_dir,
    {
        extend_chords_files(&mut self.chords_files, other.chords_files);
        extend_js_files(&mut self.js_files, other.js_files);
    }
}


/// The position of the last `.` of a name.
pub open spec fn last_dot(n: Seq<char>) -> Option<int>
    decreases n.len(),
{
    if n.len() == 0 {
        None
    } else if n.last() == '.' {
        Some(n.len() - 1)
    } else {
        last_dot(n.drop_last())
    }
}

/// The extension of a file name (`Path::extension`): what follows its last
/// `.`, when something precedes that dot (`..` has none).
pub open spec fn name_extension(n: Seq<char>) -> Option<Seq<char>> {
    if n == ".."@ {
        None
    } else {
        match last_dot(n) {
            Some(i) => if i > 0 {
                Some(n.skip(i + 1))
            } else {
                None
            },
            None => None,
        }
    }
}

/// Whether a path (relative to a folder's root) is that of a chords file:
/// under `chords`, named `macos.toml`.
pub open spec fn is_chords_file_path(rel: Seq<char>) -> bool {
    let cs = path_components(rel);
    cs.len() > 0 && cs[0] == ComponentView::Normal("chords"@) && file_name(rel) == Some("macos.toml"@)
}

/// Whether a path is that of a JavaScript file: its extension is `js`.
pub open spec fn is_js_file_path(rel: Seq<char>) -> bool {
    match file_name(rel) {
        Some(n) => name_extension(n) == Some("js"@),
        None => false,
    }
}

fn extension_is_js(name: &str) -> (r: bool)
    ensures
        r == (name_extension(name@) == Some("js"@)),
{
    proof {
        reveal_strlit("js");
        reveal_strlit("..");
    }
    let cs = chars_of(name);
    let n = cs.len();
    let mut i: usize = n;
    assert(name@.take(n as int) =~= name@);
    while i > 0 && cs[i - 1] != '.'
        invariant
            cs@ == name@,
            n == cs@.len(),
            i <= n,
            last_dot(name@) == last_dot(name@.take(i as int)),
        decreases i,
    {
        let ghost t = name@.take(i as int);
        assert(t.drop_last() =~= name@.take(i as int - 1));
        i = i - 1;
    }
    proof {
        if i > 0 {
            let t = name@.take(i as int);
            assert(t.last() == '.');
        } else {
            assert(name@.take(0) =~= Seq::<char>::empty());
        }
    }
    if str_eq(name, "..") {
        return false;
    }
    if i <= 1 {
        return false;
    }
    let ghost ext = name@.skip(i as int);
    if n - i == 2 && cs[i] == 'j' && cs[i + 1] == 's' {
        assert(ext =~= "js"@);
        true
    } else {
        assert(ext != "js"@) by {
            if ext == "js"@ {
                assert(ext.len() == 2);
                assert(ext[0] == cs@[i as int]);
                assert(ext[1] == cs@[i as int + 1]);
            }
        }
        false
    }
}

/// Whether a path (relative to a folder's root) is that of a chords file.
pub fn is_chords_file(rel: &str) -> (r: bool)
    ensures
        r == is_chords_file_path(rel@),
{
    let cs = components(rel);
    if cs.len() == 0 {
        return false;
    }
    assert(path_components(rel@)[0] == crate::paths::component_view(cs@[0]));
    let first_is_chords = match &cs[0] {
        PathComponent::Normal(s) => str_eq(s.as_str(), "chords"),
        _ => false,
    };
    if !first_is_chords {
        return false;
    }
    match path_file_name(rel) {
        Some(n) => str_eq(n.as_str(), "macos.toml"),
        None => false,
    }
}

/// Whether a path is that of a JavaScript file.
pub fn is_js_file(rel: &str) -> (r: bool)
    ensures
        r == is_js_file_path(rel@),
{
    match path_file_name(rel) {
        Some(n) => extension_is_js(n.as_str()),
        None => false,
    }
}

} // verus!
