//! The global hotkeys of applications: which shortcut of the synthetic hotkey
//! pool each (application, hotkey) pair was given.
use crate::assoc::{
    assoc_map, lemma_assoc_absent, lemma_assoc_dom, lemma_assoc_lookup, lemma_assoc_push,
    lemma_assoc_remove, lemma_assoc_update, unique_keys,
};
use crate::input::key::{serialized_combination, KeyCombination};
use crate::text::{copy_string, owned, str_eq};
use vstd::prelude::*;

verus! {

/// The application and the hotkey a shortcut is stored for.
#[derive(Debug, Clone)]
pub struct GlobalHotkeyStoreEntry {
    pub bundle_id: String,
    pub hotkey_id: String,
}

/// The contents of a [`GlobalHotkeyStoreEntry`].
pub struct EntryView {
    pub bundle_id: Seq<char>,
    pub hotkey_id: Seq<char>,
}

impl View for GlobalHotkeyStoreEntry {
    type V = EntryView;

    open spec fn view(&self) -> EntryView {
        EntryView { bundle_id: self.bundle_id@, hotkey_id: self.hotkey_id@ }
    }
}

pub open spec fn entry_pairs(s: Seq<(String, GlobalHotkeyStoreEntry)>) -> Seq<(Seq<char>, EntryView)> {
    s.map_values(|p: (String, GlobalHotkeyStoreEntry)| (p.0@, p.1@))
}

/// The stored entries, by shortcut.
pub struct GlobalHotkeyStore {
    entries: Vec<(String, GlobalHotkeyStoreEntry)>,
}

/// The shortcuts stored for the given application and hotkey.
pub open spec fn shortcuts_for(m: Map<Seq<char>, EntryView>, bundle_id: Seq<char>, hotkey_id: Seq<char>) -> Set<
    Seq<char>,
> {
    Set::new(
        |s: Seq<char>|
            m.dom().contains(s) && m[s].bundle_id == bundle_id && m[s].hotkey_id == hotkey_id,
    )
}

/// The position of the first pool shortcut not in use, if any.
pub open spec fn first_free(pool: Seq<KeyCombination>, used: Set<Seq<char>>) -> Option<int> {
    if exists|i: int| 0 <= i < pool.len() && !used.contains(serialized_combination(#[trigger] pool[i])) {
        Some(
            choose|i: int|
                0 <= i < pool.len() && !used.contains(serialized_combination(#[trigger] pool[i]))
                    && forall|j: int|
                    0 <= j < i ==> used.contains(serialized_combination(#[trigger] pool[j])),
        )
    } else {
        None
    }
}

impl View for GlobalHotkeyStore {
    type V = Map<Seq<char>, EntryView>;

    closed spec fn view(&self) -> Map<Seq<char>, EntryView> {
        assoc_map(entry_pairs(self.entries@))
    }
}

impl GlobalHotkeyStore {
    /// No shortcut is stored twice.
    pub closed spec fn wf(&self) -> bool {
        unique_keys(entry_pairs(self.entries@))
    }

    /// An empty store.
    pub fn new() -> (r: GlobalHotkeyStore)
        ensures
            r.wf(),
            r@ == Map::<Seq<char>, EntryView>::empty(),
    {
        let r = GlobalHotkeyStore { entries: Vec::new() };
        assert(entry_pairs(r.entries@) =~= Seq::empty());
        r
    }

    /// The stored entries, one per shortcut.
    pub fn entries(&self) -> (r: Vec<(String, GlobalHotkeyStoreEntry)>)
        requires
            self.wf(),
        ensures
            unique_keys(entry_pairs(r@)),
            assoc_map(entry_pairs(r@)) == self@,
    {
        let n = self.entries.len();
        let mut out: Vec<(String, GlobalHotkeyStoreEntry)> = Vec::new();
        let mut i: usize = 0;
        while i < n
            invariant
                n == self.entries@.len(),
                i <= n,
                entry_pairs(out@) == entry_pairs(self.entries@).take(i as int),
            decreases n - i,
        {
            let e = &self.entries[i];
            let x = (
                copy_string(&e.0),
                GlobalHotkeyStoreEntry {
                    bundle_id: copy_string(&e.1.bundle_id),
                    hotkey_id: copy_string(&e.1.hotkey_id),
                },
            );
            let ghost before = out@;
            assert((x.0@, x.1@) == entry_pairs(self.entries@)[i as int]);
            out.push(x);
            assert(entry_pairs(out@) =~= entry_pairs(before).push((x.0@, x.1@)));
            assert(entry_pairs(self.entries@).take(i as int + 1) =~= entry_pairs(self.entries@).take(
                i as int,
            ).push(entry_pairs(self.entries@)[i as int]));
            i = i + 1;
        }
        assert(entry_pairs(self.entries@).take(n as int) =~= entry_pairs(self.entries@));
        out
    }

    fn position(&self, shortcut: &str) -> (r: Option<usize>)
        requires
            self.wf(),
        ensures
            r is None <==> !self@.dom().contains(shortcut@),
            r matches Some(i) ==> i < self.entries@.len() && self.entries@[i as int].0@ == shortcut@,
    {
        let ghost p = entry_pairs(self.entries@);
        let n = self.entries.len();
        let mut i: usize = 0;
        while i < n
            invariant
                n == self.entries@.len(),
                p == entry_pairs(self.entries@),
                i <= n,
                forall|j: int| 0 <= j < i ==> #[trigger] p[j].0 != shortcut@,
            decreases n - i,
        {
            if str_eq(self.entries[i].0.as_str(), shortcut) {
                proof {
                    lemma_assoc_dom(p, shortcut@);
                    assert(p[i as int].0 == shortcut@);
                }
                return Some(i);
            }
            assert(p[i as int].0 != shortcut@);
            i = i + 1;
        }
        proof {
            lemma_assoc_absent(p, shortcut@);
        }
        None
    }

    /// Stores the entry for a shortcut (replacing the one it had).
    pub fn set(&mut self, shortcut: &str, entry: GlobalHotkeyStoreEntry)
        requires
            old(self).wf(),
        ensures
            final(self).wf(),
            final(self)@ == old(self)@.insert(shortcut@, entry@),
    {
        let ghost p = entry_pairs(self.entries@);
        let ghost ev = entry@;
        match self.position(shortcut) {
            Some(i) => {
                proof {
                    lemma_assoc_update(p, i as int, ev);
                }
                self.entries.set(i, (owned(shortcut), entry));
                assert(entry_pairs(self.entries@) =~= p.update(i as int, (p[i as int].0, ev)));
            },
            None => {
                proof {
                    lemma_assoc_push(p, shortcut@, ev);
                }
                self.entries.push((owned(shortcut), entry));
                assert(entry_pairs(self.entries@) =~= p.push((shortcut@, ev)));
            },
        }
    }

    /// Forgets the entry of a shortcut.
    pub fn remove(&mut self, shortcut: &str)
        requires
            old(self).wf(),
        ensures
            final(self).wf(),
            final(self)@ == old(self)@.remove(shortcut@),
    {
        let ghost p = entry_pairs(self.entries@);
        match self.position(shortcut) {
            Some(i) => {
                proof {
                    lemma_assoc_remove(p, i as int);
                }
                self.entries.remove(i);
                assert(entry_pairs(self.entries@) =~= p.remove(i as int));
            },
            None => {
                assert(self@ =~= old(self)@.remove(shortcut@));
            },
        }
    }

    /// A shortcut stored for the application and hotkey, if there is one.
    pub fn get_global_hotkey(&self, bundle_id: &str, hotkey_id: &str) -> (r: Option<String>)
        requires
            self.wf(),
        ensures
            r is None <==> shortcuts_for(self@, bundle_id@, hotkey_id@).is_empty(),
            r matches Some(s) ==> shortcuts_for(self@, bundle_id@, hotkey_id@).contains(s@),
    {
        let ghost p = entry_pairs(self.entries@);
        let n = self.entries.len();
        let mut i: usize = 0;
        while i < n
            invariant
                n == self.entries@.len(),
                p == entry_pairs(self.entries@),
                unique_keys(p),
                i <= n,
                forall|j: int|
                    0 <= j < i ==> !(#[trigger] p[j].1.bundle_id == bundle_id@ && p[j].1.hotkey_id
                        == hotkey_id@),
            decreases n - i,
        {
            let e = &self.entries[i];
            assert(p[i as int] == (e.0@, e.1@));
            if str_eq(e.1.bundle_id.as_str(), bundle_id) && str_eq(e.1.hotkey_id.as_str(), hotkey_id) {
                proof {
                    lemma_assoc_lookup(p, i as int);
                    assert(shortcuts_for(self@, bundle_id@, hotkey_id@).contains(e.0@));
                }
                return Some(copy_string(&e.0));
            }
            i = i + 1;
        }
        proof {
            let m = self@;
            assert forall|s: Seq<char>| !#[trigger] shortcuts_for(m, bundle_id@, hotkey_id@).contains(s) by {
                if m.dom().contains(s) {
                    lemma_assoc_dom(p, s);
                    let j = choose|j: int| 0 <= j < p.len() && #[trigger] p[j].0 == s;
                    lemma_assoc_lookup(p, j);
                }
            }
            assert(shortcuts_for(m, bundle_id@, hotkey_id@) =~= Set::empty());
        }
        None
    }

    /// Gives the application's hotkey a shortcut: the one it already has, or
    /// else the first shortcut of the pool that is not in use, which is then
    /// stored for it; `None` when the pool is used up.
    pub fn register_global_hotkey(
        &mut self,
        pool: &Vec<KeyCombination>,
        bundle_id: String,
        hotkey_id: String,
    ) -> (r: Option<String>)
        requires
            old(self).wf(),
        ensures
            final(self).wf(),
            !shortcuts_for(old(self)@, bundle_id@, hotkey_id@).is_empty() ==> (r matches Some(s)
                && shortcuts_for(old(self)@, bundle_id@, hotkey_id@).contains(s@) && final(self)@
                == old(self)@),
            shortcuts_for(old(self)@, bundle_id@, hotkey_id@).is_empty() ==> match first_free(
                pool@,
                old(self)@.dom(),
            ) {
                Some(i) => r matches Some(s) && s@ == serialized_combination(pool@[i]) && final(self)@
                    == old(self)@.insert(s@, EntryView { bundle_id: bundle_id@, hotkey_id: hotkey_id@ }),
                None => r is None && final(self)@ == old(self)@,
            },
    {
        if let Some(existing) = self.get_global_hotkey(bundle_id.as_str(), hotkey_id.as_str()) {
            return Some(existing);
        }
        let n = pool.len();
        let mut i: usize = 0;
        while i < n
            invariant
                n == pool@.len(),
                i <= n,
                self.wf(),
                self@ == old(self)@,
                shortcuts_for(old(self)@, bundle_id@, hotkey_id@).is_empty(),
                forall|j: int|
                    0 <= j < i ==> self@.dom().contains(serialized_combination(#[trigger] pool@[j])),
            decreases n - i,
        {
            let shortcut = pool[i].serialize();
            if self.position(shortcut.as_str()).is_none() {
                proof {
                    lemma_first_free(pool@, self@.dom(), i as int);
                }
                self.set(shortcut.as_str(), GlobalHotkeyStoreEntry { bundle_id, hotkey_id });
                return Some(shortcut);
            }
            i = i + 1;
        }
        assert(first_free(pool@, self@.dom()) is None) by {
            if exists|w: int| 0 <= w < pool@.len() && !self@.dom().contains(serialized_combination(#[trigger] pool@[w])) {
                let w = choose|w: int| 0 <= w < pool@.len() && !self@.dom().contains(serialized_combination(#[trigger] pool@[w]));
                assert(self@.dom().contains(serialized_combination(pool@[w])));
            }
        }
        None
    }
}

/// Once a hotkey was given a shortcut (it had none before), that shortcut is
/// the only one stored for it: asking again gives the same shortcut.
pub proof fn lemma_register_idempotent(
    m: Map<Seq<char>, EntryView>,
    s: Seq<char>,
    bundle_id: Seq<char>,
    hotkey_id: Seq<char>,
)
    requires
        shortcuts_for(m, bundle_id, hotkey_id).is_empty(),
    ensures
        shortcuts_for(
            m.insert(s, EntryView { bundle_id, hotkey_id }),
            bundle_id,
            hotkey_id,
        ) == set![s],
{
    let m2 = m.insert(s, EntryView { bundle_id, hotkey_id });
    assert forall|t: Seq<char>| #[trigger] shortcuts_for(m2, bundle_id, hotkey_id).contains(t) == set![s].contains(t) by {
        if t != s && shortcuts_for(m2, bundle_id, hotkey_id).contains(t) {
            assert(shortcuts_for(m, bundle_id, hotkey_id).contains(t));
        }
    }
    assert(shortcuts_for(m2, bundle_id, hotkey_id) =~= set![s]);
}

proof fn lemma_first_free(pool: Seq<KeyCombination>, used: Set<Seq<char>>, i: int)
    requires
        0 <= i < pool.len(),
        !used.contains(serialized_combination(pool[i])),
        forall|j: int| 0 <= j < i ==> used.contains(serialized_combination(#[trigger] pool[j])),
    ensures
        first_free(pool, used) == Some(i),
{
    assert(exists|w: int| 0 <= w < pool.len() && !used.contains(serialized_combination(#[trigger] pool[w])));
    let w = choose|w: int|
        0 <= w < pool.len() && !used.contains(serialized_combination(#[trigger] pool[w])) && forall|j: int|
            0 <= j < w ==> used.contains(serialized_combination(#[trigger] pool[j]));
    assert(0 <= i < pool.len() && !used.contains(serialized_combination(pool[i])) && forall|j: int|
        0 <= j < i ==> used.contains(serialized_combination(#[trigger] pool[j])));
    if w < i {
        assert(used.contains(serialized_combination(pool[w])));
    }
    if w > i {
        assert(used.contains(serialized_combination(pool[i])));
    }
}

} // verus!
