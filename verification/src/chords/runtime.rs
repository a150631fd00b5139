//! Chord runtimes: the chords of one application (or the global ones), and
//! how a typed key sequence selects one of them.
use crate::assoc::{assoc_map, unique_keys};
use crate::chords::chord::{
    chord_pairs, copy_chord, Chord, ChordTable, ChordView,
};
use crate::chords::chord_file::{
    copy_map_value, map_value_view, shallow_chords, AppChordMapValue, AppChordsFile,
    AppChordsFileConfig, MapValueView, config_view, ConfigView,
};
use crate::input::key::{copy_keys, is_digit_name, key_names, Key};
use crate::text::copy_string;
use vstd::prelude::*;

verus! {

/// A chord to run, and how many times to run it.
#[derive(Debug, Clone)]
pub struct ChordPayload {
    pub chord: Chord,
    pub num_times: usize,
}

/// The chords of one runtime (an application, or the global chords), with the
/// file entries they came from and the file's config.
#[derive(Debug, Clone)]
pub struct ChordRuntime {
    /// The chords file the runtime was loaded from (also its module key).
    pub path: String,
    pub chords: ChordTable,
    /// The file's chord entries, keyed by sequence text.
    pub raw_chords: Vec<(String, AppChordMapValue)>,
    pub config: Option<AppChordsFileConfig>,
}

pub open spec fn raw_pairs(s: Seq<(String, AppChordMapValue)>) -> Seq<(Seq<char>, MapValueView)> {
    s.map_values(|p: (String, AppChordMapValue)| (p.0@, map_value_view(p.1)))
}

/// File entries keyed by sequence text (a later entry wins over an earlier one).
pub open spec fn raw_map(s: Seq<(String, AppChordMapValue)>) -> Map<Seq<char>, MapValueView> {
    assoc_map(raw_pairs(s))
}

/// The contents of a [`ChordRuntime`].
pub struct RuntimeView {
    pub path: Seq<char>,
    pub chords: Map<Seq<Seq<char>>, ChordView>,
    pub raw: Map<Seq<char>, MapValueView>,
    pub config: Option<ConfigView>,
}

impl View for ChordRuntime {
    type V = RuntimeView;

    open spec fn view(&self) -> RuntimeView {
        RuntimeView {
            path: self.path@,
            chords: self.chords.map(),
            raw: raw_map(self.raw_chords@),
            config: config_view(self.config),
        }
    }
}

/// A copy of a runtime's file entries, in their order.
pub fn copy_raw_chords(v: &Vec<(String, AppChordMapValue)>) -> (r: Vec<(String, AppChordMapValue)>)
    ensures
        raw_pairs(r@) == raw_pairs(v@),
{
    let mut out: Vec<(String, AppChordMapValue)> = Vec::new();
    let n = v.len();
    let mut i: usize = 0;
    while i < n
        invariant
            n == v@.len(),
            i <= n,
            raw_pairs(out@) == raw_pairs(v@.subrange(0, i as int)),
        decreases n - i,
    {
        let ghost before = out@;
        let entry = (copy_string(&v[i].0), copy_map_value(&v[i].1));
        out.push(entry);
        assert(raw_pairs(out@) =~= raw_pairs(before).push((v@[i as int].0@, map_value_view(v@[i as int].1))));
        assert(raw_pairs(v@.subrange(0, i as int + 1)) =~= raw_pairs(v@.subrange(0, i as int)).push(
            (v@[i as int].0@, map_value_view(v@[i as int].1)),
        ));
        i = i + 1;
    }
    assert(v@.subrange(0, n as int) =~= v@);
    out
}

/// `over` with the entries of `under` added where `over` has none.
pub open spec fn prefer<K, V>(over: Map<K, V>, under: Map<K, V>) -> Map<K, V> {
    under.union_prefer_right(over)
}

/// The decimal value of a digit key.
pub open spec fn digit_value(name: Seq<char>) -> nat {
    if name == "Digit1"@ {
        1
    } else if name == "Digit2"@ {
        2
    } else if name == "Digit3"@ {
        3
    } else if name == "Digit4"@ {
        4
    } else if name == "Digit5"@ {
        5
    } else if name == "Digit6"@ {
        6
    } else if name == "Digit7"@ {
        7
    } else if name == "Digit8"@ {
        8
    } else if name == "Digit9"@ {
        9
    } else {
        0
    }
}

/// The number that a sequence of digit keys types.
pub open spec fn decimal_value(names: Seq<Seq<char>>) -> nat
    decreases names.len(),
{
    if names.len() == 0 {
        0
    } else {
        decimal_value(names.drop_last()) * 10 + digit_value(names.last())
    }
}

/// How many leading keys are digits.
pub open spec fn digit_prefix_len(names: Seq<Seq<char>>) -> nat
    decreases names.len(),
{
    if names.len() > 0 && is_digit_name(names[0]) {
        1 + digit_prefix_len(names.drop_first())
    } else {
        0
    }
}

/// How many times a typed sequence runs its chord: once, unless it starts with
/// digits, which give the count (a count that does not fit a `usize` counts once).
pub open spec fn repeat_count(names: Seq<Seq<char>>) -> nat {
    let k = digit_prefix_len(names);
    if k == 0 {
        1
    } else {
        let v = decimal_value(names.take(k as int));
        if v <= usize::MAX {
            v
        } else {
            1
        }
    }
}

/// The chord a typed sequence selects: the digits in front are the count, the
/// rest must be a chord of the runtime.
pub open spec fn selected_chord(chords: Map<Seq<Seq<char>>, ChordView>, names: Seq<Seq<char>>) -> Option<
    (ChordView, nat),
> {
    let rest = names.skip(digit_prefix_len(names) as int);
    if chords.dom().contains(rest) {
        Some((chords[rest], repeat_count(names)))
    } else {
        None
    }
}

proof fn lemma_digit_prefix(names: Seq<Seq<char>>, k: int)
    requires
        0 <= k <= names.len(),
        forall|j: int| 0 <= j < k ==> is_digit_name(#[trigger] names[j]),
        k == names.len() || !is_digit_name(names[k]),
    ensures
        digit_prefix_len(names) == k,
    decreases k,
{
    if k > 0 {
        let t = names.drop_first();
        assert forall|j: int| 0 <= j < k - 1 implies is_digit_name(#[trigger] t[j]) by {
            assert(t[j] == names[j + 1]);
        }
        if k < names.len() {
            assert(t[k - 1] == names[k]);
        }
        lemma_digit_prefix(t, k - 1);
    }
}

proof fn lemma_decimal_monotone(names: Seq<Seq<char>>, i: int)
    requires
        0 <= i <= names.len(),
    ensures
        decimal_value(names.take(i)) <= decimal_value(names),
    decreases names.len() - i,
{
    if i < names.len() {
        lemma_decimal_monotone(names, i + 1);
        let t = names.take(i + 1);
        assert(t.drop_last() =~= names.take(i));
        assert(decimal_value(t) == decimal_value(names.take(i)) * 10 + digit_value(t.last()));
    } else {
        assert(names.take(i) =~= names);
    }
}

fn digit_of(k: &Key) -> (d: usize)
    ensures
        d == digit_value(k@),
{
    if k.is("Digit1") {
        1
    } else if k.is("Digit2") {
        2
    } else if k.is("Digit3") {
        3
    } else if k.is("Digit4") {
        4
    } else if k.is("Digit5") {
        5
    } else if k.is("Digit6") {
        6
    } else if k.is("Digit7") {
        7
    } else if k.is("Digit8") {
        8
    } else if k.is("Digit9") {
        9
    } else {
        0
    }
}

impl ChordRuntime {
    pub open spec fn wf(&self) -> bool {
        self.chords.wf() && unique_keys(raw_pairs(self.raw_chords@))
    }

    /// A runtime holding the given chords, with no file entries and no config.
    pub fn from_chords(path: String, chords: ChordTable) -> (r: ChordRuntime)
        requires
            chords.wf(),
        ensures
            r.wf(),
            r@.path == path@,
            r@.chords == chords.map(),
            r@.raw == Map::<Seq<char>, MapValueView>::empty(),
            r@.config is None,
    {
        let r = ChordRuntime { path, chords, raw_chords: Vec::new(), config: None };
        assert(raw_pairs(r.raw_chords@) =~= Seq::empty());
        r
    }

    /// The runtime of a chords file, with the chords the file defines itself
    /// (its `extends` is resolved later).
    pub fn from_file_shallow(path: String, chord_file: AppChordsFile) -> (r: ChordRuntime)
        requires
            chord_file.wf(),
        ensures
            r.wf(),
            r@.path == path@,
            r@.chords == shallow_chords(chord_file.chords@),
            r@.raw == raw_map(chord_file.chords@),
            r@.config == config_view(chord_file.config),
    {
        let chords = chord_file.get_chords_shallow();
        ChordRuntime { path, chords, raw_chords: chord_file.chords, config: chord_file.config }
    }

    /// Adds the chords (and file entries) of `base` that this runtime does not
    /// define itself.
    pub fn extend_runtime(&mut self, base: &ChordRuntime)
        requires
            old(self).wf(),
            base.wf(),
        ensures
            final(self).wf(),
            final(self)@.path == old(self)@.path,
            final(self)@.config == old(self)@.config,
            final(self)@.chords == prefer(old(self)@.chords, base@.chords),
            final(self)@.raw == prefer(old(self)@.raw, base@.raw),
    {
        let ghost old_chords = self.chords.map();
        let ghost bp = chord_pairs(base.chords.entries@);
        let n = base.chords.entries.len();
        let mut i: usize = 0;
        while i < n
            invariant
                n == base.chords.entries@.len(),
                bp == chord_pairs(base.chords.entries@),
                unique_keys(bp),
                i <= n,
                self.chords.wf(),
                self.path == old(self).path,
                self.config == old(self).config,
                self.raw_chords == old(self).raw_chords,
                self.chords.map() == prefer(old_chords, assoc_map(bp.subrange(0, i as int))),
            decreases n - i,
        {
            let ghost pre = bp.subrange(0, i as int);
            let ghost post = bp.subrange(0, i as int + 1);
            assert(post.drop_last() =~= pre);
            assert(post.last() == bp[i as int]);
            let ghost k = bp[i as int].0;
            let ghost v = bp[i as int].1;
            proof {
                crate::assoc::lemma_assoc_dom(pre, k);
                if exists|j: int| 0 <= j < pre.len() && #[trigger] pre[j].0 == k {
                    let j = choose|j: int| 0 <= j < pre.len() && #[trigger] pre[j].0 == k;
                    assert(bp[j].0 == k);
                }
            }
            let keys = &base.chords.entries[i].0;
            if self.chords.get(keys).is_none() {
                let chord = copy_chord(&base.chords.entries[i].1);
                let ks = copy_keys(keys);
                self.chords.insert(ks, chord);
                assert(self.chords.map() =~= prefer(old_chords, assoc_map(post)));
            } else {
                assert(self.chords.map() =~= prefer(old_chords, assoc_map(post)));
            }
            i = i + 1;
        }
        assert(bp.subrange(0, n as int) =~= bp);
        let ghost old_raw = raw_map(self.raw_chords@);
        let ghost brp = raw_pairs(base.raw_chords@);
        let m = base.raw_chords.len();
        let mut j: usize = 0;
        while j < m
            invariant
                m == base.raw_chords@.len(),
                brp == raw_pairs(base.raw_chords@),
                unique_keys(brp),
                j <= m,
                self.chords.wf(),
                unique_keys(raw_pairs(self.raw_chords@)),
                self.path == old(self).path,
                self.config == old(self).config,
                self.chords.map() == prefer(old_chords, base.chords.map()),
                raw_map(self.raw_chords@) == prefer(old_raw, assoc_map(brp.subrange(0, j as int))),
            decreases m - j,
        {
            let ghost pre = brp.subrange(0, j as int);
            let ghost post = brp.subrange(0, j as int + 1);
            assert(post.drop_last() =~= pre);
            assert(post.last() == brp[j as int]);
            let ghost k = brp[j as int].0;
            let ghost v = brp[j as int].1;
            proof {
                crate::assoc::lemma_assoc_dom(pre, k);
                if exists|i: int| 0 <= i < pre.len() && #[trigger] pre[i].0 == k {
                    let i = choose|i: int| 0 <= i < pre.len() && #[trigger] pre[i].0 == k;
                    assert(brp[i].0 == k);
                }
            }
            let key = &base.raw_chords[j].0;
            if !raw_contains(&self.raw_chords, key) {
                let ghost before = self.raw_chords@;
                let value = copy_map_value(&base.raw_chords[j].1);
                self.raw_chords.push((copy_string(key), value));
                assert(raw_pairs(self.raw_chords@) =~= raw_pairs(before).push((k, v)));
                proof {
                    crate::assoc::lemma_assoc_push(raw_pairs(before), k, v);
                }
                assert(raw_map(self.raw_chords@) =~= prefer(old_raw, assoc_map(post)));
            } else {
                assert(raw_map(self.raw_chords@) =~= prefer(old_raw, assoc_map(post)));
            }
            j = j + 1;
        }
        assert(brp.subrange(0, m as int) =~= brp);
    }

    /// The chord that a typed sequence selects, with its repeat count (see
    /// [`selected_chord`]).
    pub fn get_chord(&self, sequence: &Vec<Key>) -> (r: Option<ChordPayload>)
        requires
            self.wf(),
        ensures
            match r {
                Some(p) => selected_chord(self@.chords, key_names(sequence@)) == Some(
                    (p.chord@, p.num_times as nat),
                ),
                None => selected_chord(self@.chords, key_names(sequence@)) is None,
            },
    {
        let ghost names = key_names(sequence@);
        let n = sequence.len();
        let mut k: usize = 0;
        while k < n && sequence[k].is_digit()
            invariant
                n == sequence@.len(),
                names == key_names(sequence@),
                k <= n,
                forall|j: int| 0 <= j < k ==> is_digit_name(#[trigger] names[j]),
            decreases n - k,
        {
            assert(names[k as int] == sequence@[k as int]@);
            k = k + 1;
        }
        proof {
            if k < n {
                assert(names[k as int] == sequence@[k as int]@);
            }
            lemma_digit_prefix(names, k as int);
        }
        let num_times: usize = if k == 0 {
            1
        } else {
            let mut value: usize = 0;
            let mut overflow = false;
            let mut i: usize = 0;
            while i < k
                invariant
                    k <= n,
                    n == sequence@.len(),
                    names == key_names(sequence@),
                    i <= k,
                    !overflow ==> value == decimal_value(names.take(i as int)),
                    overflow ==> decimal_value(names.take(i as int)) > usize::MAX,
                decreases k - i,
            {
                let d = digit_of(&sequence[i]);
                assert(names[i as int] == sequence@[i as int]@);
                let ghost t = names.take(i as int + 1);
                assert(t.drop_last() =~= names.take(i as int));
                assert(t.last() == names[i as int]);
                if !overflow {
                    match value.checked_mul(10) {
                        Some(v10) => match v10.checked_add(d) {
                            Some(v) => {
                                value = v;
                            },
                            None => {
                                overflow = true;
                            },
                        },
                        None => {
                            overflow = true;
                        },
                    }
                }
                i = i + 1;
            }
            if overflow {
                1
            } else {
                value
            }
        };
        let mut rest: Vec<Key> = Vec::new();
        let mut j: usize = k;
        while j < n
            invariant
                n == sequence@.len(),
                k <= j <= n,
                rest@ == sequence@.subrange(k as int, j as int),
            decreases n - j,
        {
            rest.push(sequence[j].copy());
            j = j + 1;
            assert(rest@ =~= sequence@.subrange(k as int, j as int));
        }
        assert(key_names(rest@) =~= names.skip(k as int));
        match self.chords.get(&rest) {
            Some(chord) => Some(ChordPayload { chord: copy_chord(chord), num_times }),
            None => None,
        }
    }
}

fn raw_contains(entries: &Vec<(String, AppChordMapValue)>, key: &String) -> (r: bool)
    ensures
        r == raw_map(entries@).dom().contains(key@),
{
    let n = entries.len();
    let mut i: usize = 0;
    let ghost p = raw_pairs(entries@);
    while i < n
        invariant
            n == entries@.len(),
            p == raw_pairs(entries@),
            i <= n,
            forall|j: int| 0 <= j < i ==> #[trigger] p[j].0 != key@,
        decreases n - i,
    {
        if entries[i].0 == *key {
            proof {
                crate::assoc::lemma_assoc_dom(p, key@);
                assert(p[i as int].0 == key@);
            }
            return true;
        }
        assert(p[i as int].0 != key@);
        i = i + 1;
    }
    proof {
        crate::assoc::lemma_assoc_absent(p, key@);
    }
    false
}

} // verus!
