//! Chords and the tables that map key sequences to them.
use crate::assoc::{
    assoc_map, lemma_assoc_absent, lemma_assoc_lookup, lemma_assoc_push, lemma_assoc_update,
    unique_keys,
};
use crate::chords::shortcut::{copy_shortcut, shortcut_names, Shortcut};
use crate::input::key::{copy_keys, key_names, same_keys, Key};
use crate::input::key::{is_digit_name, is_letter_name};
use crate::paths::{component_text, components, path_components, ComponentView, PathComponent};
use crate::text::{copy_string, join, join_strings, owned, str_eq, views};
use vstd::prelude::*;

verus! {

/// Which JavaScript export a chord calls, and with which string arguments
/// (`export_name` is `None` for the default export).
#[derive(Debug, Clone, PartialEq, Eq)]
pub struct ChordJsInvocation {
    pub export_name: Option<String>,
    pub args: Vec<String>,
}

/// The contents of a [`ChordJsInvocation`].
pub struct JsInvocationView {
    pub export_name: Option<Seq<char>>,
    pub args: Seq<Seq<char>>,
}

pub open spec fn opt_string_view(o: Option<String>) -> Option<Seq<char>> {
    match o {
        Some(s) => Some(s@),
        None => None,
    }
}

impl View for ChordJsInvocation {
    type V = JsInvocationView;

    open spec fn view(&self) -> JsInvocationView {
        JsInvocationView { export_name: opt_string_view(self.export_name), args: views(self.args@) }
    }
}

pub open spec fn opt_js_view(o: Option<ChordJsInvocation>) -> Option<JsInvocationView> {
    match o {
        Some(j) => Some(j@),
        None => None,
    }
}

/// A chord: the key sequence that triggers it, its name, and what it does
/// (a shortcut, a shell command, or a JavaScript call).
#[derive(Debug, Clone)]
pub struct Chord {
    pub keys: Vec<Key>,
    pub name: String,
    pub shortcut: Option<Shortcut>,
    pub shell: Option<String>,
    pub js: Option<ChordJsInvocation>,
}

/// The contents of a [`Chord`].
pub struct ChordView {
    pub keys: Seq<Seq<char>>,
    pub name: Seq<char>,
    pub shortcut: Option<Seq<Seq<Seq<char>>>>,
    pub shell: Option<Seq<char>>,
    pub js: Option<JsInvocationView>,
}

pub open spec fn opt_shortcut_view(o: Option<Shortcut>) -> Option<Seq<Seq<Seq<char>>>> {
    match o {
        Some(s) => Some(shortcut_names(s)),
        None => None,
    }
}

impl View for Chord {
    type V = ChordView;

    open spec fn view(&self) -> ChordView {
        ChordView {
            keys: key_names(self.keys@),
            name: self.name@,
            shortcut: opt_shortcut_view(self.shortcut),
            shell: opt_string_view(self.shell),
            js: opt_js_view(self.js),
        }
    }
}

pub fn copy_opt_string(o: &Option<String>) -> (r: Option<String>)
    ensures
        opt_string_view(r) == opt_string_view(*o),
{
    match o {
        Some(s) => Some(copy_string(s)),
        None => None,
    }
}

pub fn copy_strings(v: &Vec<String>) -> (r: Vec<String>)
    ensures
        views(r@) == views(v@),
{
    let n = v.len();
    let mut out: Vec<String> = Vec::new();
    let mut i: usize = 0;
    while i < n
        invariant
            n == v@.len(),
            i <= n,
            views(out@) == views(v@.subrange(0, i as int)),
        decreases n - i,
    {
        let ghost before = out@;
        let c = copy_string(&v[i]);
        out.push(c);
        assert(views(out@) =~= views(before).push(v@[i as int]@));
        assert(views(v@.subrange(0, i as int + 1)) =~= views(v@.subrange(0, i as int)).push(
            v@[i as int]@,
        ));
        i = i + 1;
    }
    assert(v@.subrange(0, n as int) =~= v@);
    out
}

pub fn copy_js(j: &ChordJsInvocation) -> (r: ChordJsInvocation)
    ensures
        r@ == j@,
{
    ChordJsInvocation { export_name: copy_opt_string(&j.export_name), args: copy_strings(&j.args) }
}

/// A copy of a chord.
pub fn copy_chord(c: &Chord) -> (r: Chord)
    ensures
        r@ == c@,
        r.keys@ == c.keys@,
{
    let shortcut = match &c.shortcut {
        Some(s) => Some(copy_shortcut(s)),
        None => None,
    };
    let js = match &c.js {
        Some(j) => Some(copy_js(j)),
        None => None,
    };
    Chord {
        keys: copy_keys(&c.keys),
        name: copy_string(&c.name),
        shortcut,
        shell: copy_opt_string(&c.shell),
        js,
    }
}

/// Chords keyed by their key sequence; no key sequence occurs twice.
#[derive(Debug, Clone)]
pub struct ChordTable {
    pub entries: Vec<(Vec<Key>, Chord)>,
}

pub open spec fn chord_pairs(s: Seq<(Vec<Key>, Chord)>) -> Seq<(Seq<Seq<char>>, ChordView)> {
    s.map_values(|p: (Vec<Key>, Chord)| (key_names(p.0@), p.1@))
}

impl ChordTable {
    /// No key sequence occurs twice.
    pub open spec fn wf(&self) -> bool {
        unique_keys(chord_pairs(self.entries@))
    }

    /// The chords, keyed by the names of their key sequence.
    pub open spec fn map(&self) -> Map<Seq<Seq<char>>, ChordView> {
        assoc_map(chord_pairs(self.entries@))
    }

    pub fn new() -> (r: ChordTable)
        ensures
            r.wf(),
            r.map() == Map::<Seq<Seq<char>>, ChordView>::empty(),
    {
        let r = ChordTable { entries: Vec::new() };
        assert(chord_pairs(r.entries@) =~= Seq::empty());
        r
    }

    pub fn len(&self) -> (r: usize)
        ensures
            r == self.entries@.len(),
    {
        self.entries.len()
    }

    /// The position of the chord with the given key sequence.
    pub fn position(&self, keys: &Vec<Key>) -> (r: Option<usize>)
        requires
            self.wf(),
        ensures
            r is None <==> !self.map().dom().contains(key_names(keys@)),
            r matches Some(i) ==> i < self.entries@.len() && key_names(self.entries@[i as int].0@)
                == key_names(keys@),
    {
        let n = self.entries.len();
        let ghost pairs = chord_pairs(self.entries@);
        let mut i: usize = 0;
        while i < n
            invariant
                n == self.entries@.len(),
                pairs == chord_pairs(self.entries@),
                unique_keys(pairs),
                i <= n,
                forall|j: int| 0 <= j < i ==> #[trigger] pairs[j].0 != key_names(keys@),
            decreases n - i,
        {
            if same_keys(&self.entries[i].0, keys) {
                assert(pairs[i as int].0 == key_names(keys@));
                proof {
                    lemma_assoc_lookup(pairs, i as int);
                }
                return Some(i);
            }
            assert(pairs[i as int].0 != key_names(keys@));
            i = i + 1;
        }
        proof {
            lemma_assoc_absent(pairs, key_names(keys@));
        }
        None
    }

    /// The chord with the given key sequence.
    pub fn get(&self, keys: &Vec<Key>) -> (r: Option<&Chord>)
        requires
            self.wf(),
        ensures
            r is None <==> !self.map().dom().contains(key_names(keys@)),
            r matches Some(c) ==> self.map()[key_names(keys@)] == c@,
    {
        match self.position(keys) {
            Some(i) => {
                proof {
                    lemma_assoc_lookup(chord_pairs(self.entries@), i as int);
                }
                Some(&self.entries[i].1)
            },
            None => None,
        }
    }

    /// Adds a chord, replacing the chord with the same key sequence if there is one.
    pub fn insert(&mut self, keys: Vec<Key>, chord: Chord)
        requires
            old(self).wf(),
        ensures
            final(self).wf(),
            final(self).map() == old(self).map().insert(key_names(keys@), chord@),
    {
        let ghost kn = key_names(keys@);
        let ghost cv = chord@;
        match self.position(&keys) {
            Some(i) => {
                let ghost pairs = chord_pairs(self.entries@);
                proof {
                    lemma_assoc_update(pairs, i as int, cv);
                }
                let old_keys = copy_keys(&self.entries[i].0);
                self.entries.set(i, (old_keys, chord));
                assert(chord_pairs(self.entries@) =~= pairs.update(i as int, (pairs[i as int].0, cv)));
            },
            None => {
                let ghost pairs = chord_pairs(self.entries@);
                proof {
                    lemma_assoc_push(pairs, kn, cv);
                }
                self.entries.push((keys, chord));
                assert(chord_pairs(self.entries@) =~= pairs.push((kn, cv)));
            },
        }
    }
}


/// The runtime that holds the global chords (those of `chords/macos.toml`).
pub const GLOBAL_CHORD_RUNTIME_ID: &'static str = "__global__";

/// The runtime a chords file belongs to: `chords/macos.toml` holds the global
/// chords, `chords/<a>/<b>/.../macos.toml` those of the application with bundle
/// identifier `<a>.<b>...`; other paths hold no chords.
pub open spec fn spec_runtime_id(path: Seq<char>) -> Option<Seq<char>> {
    let cs = path_components(path);
    if cs.len() > 0 && cs.last() == ComponentView::Normal("macos.toml"@) {
        let parent = cs.drop_last();
        if parent.len() > 0 && parent[0] == ComponentView::Normal("chords"@) {
            let app = parent.drop_first();
            if app.len() == 0 {
                Some(GLOBAL_CHORD_RUNTIME_ID@)
            } else {
                Some(join(app.map_values(|c: ComponentView| component_text(c)), "."@))
            }
        } else {
            None
        }
    } else {
        None
    }
}

fn component_string(c: &PathComponent) -> (r: String)
    ensures
        r@ == component_text(crate::paths::component_view(*c)),
{
    match c {
        PathComponent::RootDir => owned("/"),
        PathComponent::CurDir => owned("."),
        PathComponent::ParentDir => owned(".."),
        PathComponent::Normal(s) => copy_string(s),
    }
}

fn is_normal(c: &PathComponent, name: &str) -> (r: bool)
    ensures
        r == (crate::paths::component_view(*c) == ComponentView::Normal(name@)),
{
    match c {
        PathComponent::Normal(s) => str_eq(s.as_str(), name),
        _ => false,
    }
}

/// The runtime id of a chords file path, if the path is one of a chords file.
pub fn runtime_id_from_chords_path(file_path: &str) -> (r: Option<String>)
    ensures
        match r {
            Some(id) => spec_runtime_id(file_path@) == Some(id@),
            None => spec_runtime_id(file_path@) is None,
        },
{
    let cs = components(file_path);
    let ghost cv = crate::paths::component_views(cs@);
    let n = cs.len();
    if n == 0 || !is_normal(&cs[n - 1], "macos.toml") {
        return None;
    }
    assert(cv.last() == crate::paths::component_view(cs@[n - 1]));
    if n < 2 || !is_normal(&cs[0], "chords") {
        return None;
    }
    assert(cv.drop_last()[0] == crate::paths::component_view(cs@[0]));
    if n == 2 {
        assert(cv.drop_last().drop_first().len() == 0);
        return Some(owned(GLOBAL_CHORD_RUNTIME_ID));
    }
    let mut parts: Vec<String> = Vec::new();
    let mut i: usize = 1;
    let ghost app = cv.drop_last().drop_first();
    while i < n - 1
        invariant
            n == cs@.len(),
            cv == crate::paths::component_views(cs@),
            app == cv.drop_last().drop_first(),
            1 <= i <= n - 1,
            views(parts@) == app.subrange(0, i - 1).map_values(|c: ComponentView| component_text(c)),
        decreases n - 1 - i,
    {
        let t = component_string(&cs[i]);
        let ghost before = parts@;
        parts.push(t);
        assert(app[i - 1] == cv[i as int]);
        assert(cv[i as int] == crate::paths::component_view(cs@[i as int]));
        assert(views(parts@) =~= views(before).push(t@));
        assert(app.subrange(0, i as int).map_values(|c: ComponentView| component_text(c))
            =~= app.subrange(0, i - 1).map_values(|c: ComponentView| component_text(c)).push(
            component_text(app[i - 1]),
        ));
        assert(views(parts@) =~= app.subrange(0, i as int).map_values(
            |c: ComponentView| component_text(c),
        ));
        i = i + 1;
    }
    assert(app.subrange(0, n - 2) =~= app);
    Some(join_strings(&parts, "."))
}

/// Whether a key sequence is global: it starts with a key that is neither a
/// digit nor a letter.
pub open spec fn is_global_sequence(names: Seq<Seq<char>>) -> bool {
    names.len() > 0 && !is_digit_name(names[0]) && !is_letter_name(names[0])
}

/// Whether a key sequence is global (see [`is_global_sequence`]).
pub fn is_global_chord_sequence(sequence: &Vec<Key>) -> (r: bool)
    ensures
        r == is_global_sequence(key_names(sequence@)),
{
    if sequence.len() == 0 {
        return false;
    }
    assert(key_names(sequence@)[0] == sequence@[0]@);
    !sequence[0].is_digit() && !sequence[0].is_letter()
}

} // verus!
