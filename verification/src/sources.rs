//! Local chord folders: how they are listed, and how a new one is added to the
//! stored list of folder paths.
use crate::order::{fields_lt, lex_lt, pair_keys, sort_by_keys, lemma_lex_irreflexive};
use crate::paths::{file_name, path_file_name};
use crate::text::{copy_string, owned, string_from_chars, trim_chars, trimmed, views};
use vstd::prelude::*;

verus! {

/// A local chord folder as listed: its name and its path.
#[derive(Debug, Clone)]
pub struct LocalChordFolderInfo {
    pub name: String,
    pub local_path: String,
}

/// The name a folder is listed under: its last path component, if that is a
/// non-empty name, else its whole path.
pub open spec fn folder_name(path: Seq<char>) -> Seq<char> {
    match file_name(path) {
        Some(n) => if n.len() > 0 {
            n
        } else {
            path
        },
        None => path,
    }
}

/// The listing of a folder path.
pub fn local_folder_info_from_path(path: &str) -> (r: LocalChordFolderInfo)
    ensures
        r.local_path@ == path@,
        r.name@ == folder_name(path@),
{
    let display_path = owned(path);
    let name = match path_file_name(path) {
        Some(segment) => {
            if segment.as_str().unicode_len() > 0 {
                segment
            } else {
                copy_string(&display_path)
            }
        },
        None => copy_string(&display_path),
    };
    LocalChordFolderInfo { name, local_path: display_path }
}

/// Why a folder path was refused.
#[derive(Debug, Clone, PartialEq, Eq)]
pub enum FolderPathError {
    /// The path was empty (or only whitespace).
    Empty,
}

/// A folder path as entered, without surrounding whitespace; an empty one is refused.
pub fn trimmed_folder_path(path: &str) -> (r: Result<String, FolderPathError>)
    ensures
        trimmed(path@).len() == 0 <==> r is Err,
        r matches Ok(p) ==> p@ == trimmed(path@),
{
    let t = trim_chars(path);
    if t.len() == 0 {
        Err(FolderPathError::Empty)
    } else {
        Ok(string_from_chars(&t))
    }
}

/// No string comes after a later one.
pub open spec fn strings_sorted(s: Seq<Seq<char>>) -> bool {
    forall|i: int, j: int| 0 <= i < j < s.len() ==> !lex_lt(#[trigger] s[j], #[trigger] s[i])
}

/// Sorts strings (see [`lex_lt`]).
pub fn sort_strings(v: Vec<String>) -> (r: Vec<String>)
    ensures
        r@.len() == v@.len(),
        views(r@).to_multiset() == views(v@).to_multiset(),
        strings_sorted(views(r@)),
{
    let n = v.len();
    let mut items: Vec<(Vec<String>, String)> = Vec::new();
    let mut rest = v;
    let ghost all = rest@;
    let ghost mut k: int = 0;
    assert(rest@ =~= all.skip(0));
    while rest.len() > 0
        invariant
            0 <= k <= all.len(),
            rest@ == all.skip(k),
            items@.len() == k,
            forall|j: int| 0 <= j < k ==> (#[trigger] items@[j]).1 == all[j] && views(items@[j].0@) == seq![all[j]@],
        decreases rest@.len(),
    {
        let s = rest.remove(0);
        let mut key: Vec<String> = Vec::new();
        key.push(copy_string(&s));
        assert(views(key@) =~= seq![s@]);
        items.push((key, s));
        proof {
            k = k + 1;
        }
        assert(rest@ =~= all.skip(k));
    }
    let ghost items0 = items@;
    let sorted = sort_by_keys(items, Ghost(1nat));
    let ghost sv = sorted@;
    let mut out: Vec<String> = Vec::new();
    let mut rest2 = sorted;
    let ghost mut k2: int = 0;
    assert(rest2@ =~= sv.skip(0));
    while rest2.len() > 0
        invariant
            0 <= k2 <= sv.len(),
            rest2@ == sv.skip(k2),
            out@.len() == k2,
            forall|j: int| 0 <= j < k2 ==> out@[j] == (#[trigger] sv[j]).1,
        decreases rest2@.len(),
    {
        let (_, s) = rest2.remove(0);
        out.push(s);
        proof {
            k2 = k2 + 1;
        }
        assert(rest2@ =~= sv.skip(k2));
    }
    proof {
        sv.to_multiset_ensures();
        items0.to_multiset_ensures();
        assert(items0.map_values(|p: (Vec<String>, String)| p.1) =~= all);
        assert(sv.map_values(|p: (Vec<String>, String)| p.1) =~= out@);
        lemma_map_multiset(sv, items0);
        assert(views(out@) =~= out@.map_values(|s: String| s@));
        lemma_views_multiset(out@, all);
        assert forall|i: int, j: int| 0 <= i < j < views(out@).len() implies !lex_lt(
            #[trigger] views(out@)[j],
            #[trigger] views(out@)[i],
        ) by {
            assert(pair_keys(sv)[i] == views(sv[i].0@));
            assert(pair_keys(sv)[j] == views(sv[j].0@));
            assert(!fields_lt(pair_keys(sv)[j], pair_keys(sv)[i]));
            assert(sv.to_multiset().count(sv[i]) > 0);
            assert(items0.to_multiset().count(sv[i]) > 0);
            assert(sv.to_multiset().count(sv[j]) > 0);
            assert(items0.to_multiset().count(sv[j]) > 0);
            let a = choose|a: int| 0 <= a < items0.len() && items0[a] == sv[i];
            let b = choose|b: int| 0 <= b < items0.len() && items0[b] == sv[j];
            assert(views(sv[i].0@) == seq![out@[i]@]);
            assert(views(sv[j].0@) == seq![out@[j]@]);
            let ki = views(sv[i].0@);
            let kj = views(sv[j].0@);
            if lex_lt(kj[0], ki[0]) {
                assert(kj[0] != ki[0]) by {
                    lemma_lex_irreflexive(kj[0]);
                }
                assert(fields_lt(kj, ki));
            }
        }
    }
    out
}

proof fn lemma_map_multiset(a: Seq<(Vec<String>, String)>, b: Seq<(Vec<String>, String)>)
    requires
        a.to_multiset() == b.to_multiset(),
    ensures
        a.map_values(|p: (Vec<String>, String)| p.1).to_multiset() == b.map_values(
            |p: (Vec<String>, String)| p.1,
        ).to_multiset(),
{
    crate::order::lemma_map_values_multiset(a, b, |p: (Vec<String>, String)| p.1);
}

proof fn lemma_views_multiset(a: Seq<String>, b: Seq<String>)
    requires
        a.to_multiset() == b.to_multiset(),
    ensures
        views(a).to_multiset() == views(b).to_multiset(),
{
    crate::order::lemma_map_values_multiset(a, b, |s: String| s@);
}

/// Adds a folder path to the stored list (unless it is there already),
/// keeping the list sorted.
pub fn add_folder_path(paths: Vec<String>, path: String) -> (r: Vec<String>)
    ensures
        views(paths@).contains(path@) ==> r@ == paths@,
        !views(paths@).contains(path@) ==> views(r@).to_multiset() == views(paths@).push(path@).to_multiset()
            && strings_sorted(views(r@)),
{
    let n = paths.len();
    let mut i: usize = 0;
    while i < n
        invariant
            n == paths@.len(),
            i <= n,
            forall|j: int| 0 <= j < i ==> paths@[j]@ != path@,
        decreases n - i,
    {
        if paths[i] == path {
            assert(views(paths@)[i as int] == path@);
            return paths;
        }
        i = i + 1;
    }
    assert(!views(paths@).contains(path@)) by {
        assert forall|j: int| 0 <= j < views(paths@).len() implies views(paths@)[j] != path@ by {
            assert(views(paths@)[j] == paths@[j]@);
        }
    }
    let mut v = paths;
    let ghost before = v@;
    v.push(path);
    assert(views(v@) =~= views(before).push(path@));
    sort_strings(v)
}

/// The listings of the stored folder paths, ordered by path.
pub fn list_local_chord_folders(paths: Vec<String>) -> (r: Vec<LocalChordFolderInfo>)
    ensures
        r@.len() == paths@.len(),
        forall|i: int| 0 <= i < r@.len() ==> (#[trigger] r@[i]).name@ == folder_name(r@[i].local_path@),
        r@.map_values(|f: LocalChordFolderInfo| f.local_path@).to_multiset() == views(paths@).to_multiset(),
        strings_sorted(r@.map_values(|f: LocalChordFolderInfo| f.local_path@)),
{
    let sorted = sort_strings(paths);
    let n = sorted.len();
    let mut out: Vec<LocalChordFolderInfo> = Vec::new();
    let mut i: usize = 0;
    while i < n
        invariant
            n == sorted@.len(),
            i <= n,
            out@.len() == i,
            forall|j: int| 0 <= j < i ==> (#[trigger] out@[j]).local_path@ == sorted@[j]@ && out@[j].name@
                == folder_name(out@[j].local_path@),
        decreases n - i,
    {
        out.push(local_folder_info_from_path(sorted[i].as_str()));
        i = i + 1;
    }
    assert(out@.map_values(|f: LocalChordFolderInfo| f.local_path@) =~= views(sorted@));
    out
}

} // verus!
