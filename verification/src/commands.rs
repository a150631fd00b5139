//! What the settings window asks of the app: the stored global shortcut
//! mappings, listed in order, and their removal.
use crate::assoc::{assoc_map, lemma_assoc_dom, lemma_assoc_lookup, unique_keys};
use crate::order::{fields_lt, pair_keys, sort_by_keys};
use crate::store::{entry_pairs, EntryView, GlobalHotkeyStore};
use crate::text::{copy_string, string_from_chars, trim_chars, trimmed, views};
use vstd::prelude::*;

verus! {

/// A stored global shortcut and the application hotkey it belongs to.
#[derive(Debug, Clone)]
pub struct GlobalShortcutMappingInfo {
    pub shortcut: String,
    pub bundle_id: String,
    pub hotkey_id: String,
}

/// The fields a mapping is listed by: application, hotkey, then shortcut.
pub open spec fn mapping_key(m: GlobalShortcutMappingInfo) -> Seq<Seq<char>> {
    seq![m.bundle_id@, m.hotkey_id@, m.shortcut@]
}

/// The mapping of a stored shortcut.
pub open spec fn mapping_of(shortcut: Seq<char>, e: EntryView) -> (Seq<char>, Seq<char>, Seq<char>) {
    (shortcut, e.bundle_id, e.hotkey_id)
}

pub open spec fn mapping_view(m: GlobalShortcutMappingInfo) -> (Seq<char>, Seq<char>, Seq<char>) {
    (m.shortcut@, m.bundle_id@, m.hotkey_id@)
}

/// The mappings of the store, one per stored shortcut, ordered by application,
/// then hotkey, then shortcut.
pub fn list_global_shortcut_mappings(store: &GlobalHotkeyStore) -> (r: Vec<GlobalShortcutMappingInfo>)
    requires
        store.wf(),
    ensures
        r@.len() == store@.dom().len(),
        forall|i: int|
            0 <= i < r@.len() ==> store@.dom().contains((#[trigger] r@[i]).shortcut@) && mapping_of(
                r@[i].shortcut@,
                store@[r@[i].shortcut@],
            ) == mapping_view(r@[i]),
        forall|s: Seq<char>|
            #[trigger] store@.dom().contains(s) ==> exists|i: int| 0 <= i < r@.len() && r@[i].shortcut@ == s,
        forall|i: int, j: int| 0 <= i < j < r@.len() ==> !fields_lt(mapping_key(#[trigger] r@[j]), mapping_key(#[trigger] r@[i])),
{
    let entries = store.entries();
    let ghost ep = entry_pairs(entries@);
    let n = entries.len();
    let mut items: Vec<(Vec<String>, GlobalShortcutMappingInfo)> = Vec::new();
    let mut i: usize = 0;
    while i < n
        invariant
            n == entries@.len(),
            ep == entry_pairs(entries@),
            i <= n,
            items@.len() == i,
            forall|k: int| 0 <= k < i ==> {
                &&& views((#[trigger] items@[k]).0@) == mapping_key(items@[k].1)
                &&& mapping_view(items@[k].1) == mapping_of(ep[k].0, ep[k].1)
            },
        decreases n - i,
    {
        let e = &entries[i];
        let info = GlobalShortcutMappingInfo {
            shortcut: copy_string(&e.0),
            bundle_id: copy_string(&e.1.bundle_id),
            hotkey_id: copy_string(&e.1.hotkey_id),
        };
        let mut key: Vec<String> = Vec::new();
        key.push(copy_string(&info.bundle_id));
        key.push(copy_string(&info.hotkey_id));
        key.push(copy_string(&info.shortcut));
        assert(views(key@) =~= mapping_key(info));
        assert(ep[i as int] == (e.0@, e.1@));
        items.push((key, info));
        i = i + 1;
    }
    let ghost items0 = items@;
    let sorted = sort_by_keys(items, Ghost(3nat));
    let ghost sv = sorted@;
    proof {
        assert forall|k: int| 0 <= k < sv.len() implies items0.contains(#[trigger] sv[k]) by {
            sv.to_multiset_ensures();
            items0.to_multiset_ensures();
            assert(sv.contains(sv[k]));
            assert(sv.to_multiset().count(sv[k]) > 0);
            assert(items0.to_multiset().count(sv[k]) > 0);
        }
        assert forall|k: int| 0 <= k < items0.len() implies sv.contains(#[trigger] items0[k]) by {
            sv.to_multiset_ensures();
            items0.to_multiset_ensures();
            assert(items0.contains(items0[k]));
            assert(items0.to_multiset().count(items0[k]) > 0);
            assert(sv.to_multiset().count(items0[k]) > 0);
        }
    }
    let mut out: Vec<GlobalShortcutMappingInfo> = Vec::new();
    let mut rest = sorted;
    let ghost mut k: int = 0;
    assert(rest@ =~= sv.skip(0));
    while rest.len() > 0
        invariant
            0 <= k <= sv.len(),
            rest@ == sv.skip(k),
            out@.len() == k,
            forall|j: int| 0 <= j < k ==> out@[j] == (#[trigger] sv[j]).1,
        decreases rest@.len(),
    {
        let (_, info) = rest.remove(0);
        out.push(info);
        proof {
            k = k + 1;
        }
        assert(rest@ =~= sv.skip(k));
    }
    proof {
        sv.to_multiset_ensures();
        items0.to_multiset_ensures();
        let m = store@;
        assert(m == assoc_map(ep));
        // every listed mapping is the mapping of a stored shortcut
        assert forall|i: int| 0 <= i < out@.len() implies m.dom().contains((#[trigger] out@[i]).shortcut@)
            && mapping_of(out@[i].shortcut@, m[out@[i].shortcut@]) == mapping_view(out@[i]) by {
            assert(out@[i] == sv[i].1);
            assert(items0.contains(sv[i]));
            let k2 = choose|k2: int| 0 <= k2 < items0.len() && items0[k2] == sv[i];
            lemma_assoc_lookup(ep, k2);
        }
        // every stored shortcut is listed
        assert forall|s: Seq<char>| #[trigger] m.dom().contains(s) implies exists|i: int|
            0 <= i < out@.len() && out@[i].shortcut@ == s by {
            lemma_assoc_dom(ep, s);
            let k2 = choose|k2: int| 0 <= k2 < ep.len() && #[trigger] ep[k2].0 == s;
            assert(sv.contains(items0[k2]));
            let i = choose|i: int| 0 <= i < sv.len() && sv[i] == items0[k2];
            assert(out@[i].shortcut@ == s);
        }
        // sorted
        assert forall|i: int, j: int| 0 <= i < j < out@.len() implies !fields_lt(
            mapping_key(#[trigger] out@[j]),
            mapping_key(#[trigger] out@[i]),
        ) by {
            assert(pair_keys(sv)[i] == views(sv[i].0@));
            assert(pair_keys(sv)[j] == views(sv[j].0@));
            let ki = choose|k2: int| 0 <= k2 < items0.len() && items0[k2] == sv[i];
            let kj = choose|k2: int| 0 <= k2 < items0.len() && items0[k2] == sv[j];
            assert(items0.contains(sv[i]));
            assert(items0.contains(sv[j]));
        }
        // one mapping per stored shortcut
        lemma_mapping_count(ep, out@, sv, items0);
    }
    out
}

proof fn lemma_mapping_count(
    ep: Seq<(Seq<char>, EntryView)>,
    out: Seq<GlobalShortcutMappingInfo>,
    sv: Seq<(Vec<String>, GlobalShortcutMappingInfo)>,
    items0: Seq<(Vec<String>, GlobalShortcutMappingInfo)>,
)
    requires
        unique_keys(ep),
        items0.len() == ep.len(),
        sv.to_multiset() == items0.to_multiset(),
        out.len() == sv.len(),
    ensures
        out.len() == assoc_map(ep).dom().len(),
{
    sv.to_multiset_ensures();
    items0.to_multiset_ensures();
    lemma_unique_dom_len(ep);
}

proof fn lemma_unique_dom_len<K, V>(s: Seq<(K, V)>)
    requires
        unique_keys(s),
    ensures
        assoc_map(s).dom().len() == s.len(),
        assoc_map(s).dom().finite(),
    decreases s.len(),
{
    if s.len() > 0 {
        let d = s.drop_last();
        assert(unique_keys(d));
        lemma_unique_dom_len(d);
        assert forall|i: int| 0 <= i < d.len() implies #[trigger] d[i].0 != s.last().0 by {
            assert(d[i] == s[i]);
        }
        crate::assoc::lemma_assoc_absent(d, s.last().0);
    }
}

/// Why a mapping could not be removed.
#[derive(Debug, Clone, PartialEq, Eq)]
pub enum MappingError {
    /// The shortcut was empty (or only whitespace).
    EmptyShortcut,
}

impl MappingError {
    /// The message shown for the error.
    pub fn message(&self) -> (r: String)
        ensures
            r@ == "shortcut cannot be empty"@,
    {
        crate::text::owned("shortcut cannot be empty")
    }
}

/// Removes the mapping of a shortcut (surrounding whitespace ignored); an
/// empty shortcut is refused.
pub fn remove_global_shortcut_mapping(store: &mut GlobalHotkeyStore, shortcut: &str) -> (r: Result<(), MappingError>)
    requires
        old(store).wf(),
    ensures
        final(store).wf(),
        trimmed(shortcut@).len() == 0 ==> r == Err::<(), MappingError>(MappingError::EmptyShortcut) && final(store)@ == old(store)@,
        trimmed(shortcut@).len() > 0 ==> r is Ok && final(store)@ == old(store)@.remove(trimmed(shortcut@)),
{
    let t = trim_chars(shortcut);
    if t.len() == 0 {
        return Err(MappingError::EmptyShortcut);
    }
    let trimmed_shortcut = string_from_chars(&t);
    store.remove(trimmed_shortcut.as_str());
    Ok(())
}

} // verus!
