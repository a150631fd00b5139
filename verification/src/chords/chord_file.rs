//! The contents of a `macos.toml` chords file, and the chords it defines.
use crate::chords::chord::{
    copy_opt_string, copy_strings, opt_string_view, Chord, ChordJsInvocation, ChordTable,
    ChordView, JsInvocationView,
};
use crate::chords::shortcut::{shortcut_text_names, shortcut_text_parses, Shortcut};
use crate::input::key::{parses_as_sequence, sequence_key_names, Key};
use crate::text::{chars_of, copy_string, string_from_chars, views};
use vstd::prelude::*;

verus! {

/// The `[config.js]` table of a chords file.
#[derive(Debug, Clone, PartialEq, Eq)]
pub struct AppChordsFileConfigJs {
    pub module: Option<String>,
}

/// The `[config]` table of a chords file.
#[derive(Debug, Clone, PartialEq, Eq)]
pub struct AppChordsFileConfig {
    pub name: Option<String>,
    pub extends: Option<String>,
    pub js: Option<AppChordsFileConfigJs>,
}

/// An item of a TOML array, as far as chords read it: a string or something else.
#[derive(Debug, Clone, PartialEq, Eq)]
pub enum TomlArrayItem {
    String(String),
    Other,
}

/// A TOML value, as far as chords read it: an array or something else.
#[derive(Debug, Clone, PartialEq, Eq)]
pub enum TomlValue {
    Array(Vec<TomlArrayItem>),
    Other,
}

/// One chord entry of a chords file. Keys other than `name`, `shortcut`, `shell`
/// and `args` land in `extra`, in the order the file reader hands them over.
#[derive(Debug, Clone, PartialEq, Eq)]
pub struct AppChord {
    pub name: String,
    pub shortcut: Option<String>,
    pub shell: Option<String>,
    pub args: Option<Vec<String>>,
    pub extra: Vec<(String, TomlValue)>,
}

/// A chord entry, or a list of them (of which the first counts).
#[derive(Debug, Clone, PartialEq, Eq)]
pub enum AppChordMapValue {
    Single(AppChord),
    Multiple(Vec<AppChord>),
}

/// A chords file as deserialized, before defaults are filled in.
#[derive(Debug, Clone, PartialEq, Eq)]
pub struct RawAppChordsFile {
    pub config: Option<AppChordsFileConfig>,
    pub chords: Option<Vec<(String, AppChordMapValue)>>,
}

/// A chords file: its config, and its chord entries keyed by sequence text.
#[derive(Debug, Clone, PartialEq, Eq)]
pub struct AppChordsFile {
    pub config: Option<AppChordsFileConfig>,
    pub chords: Vec<(String, AppChordMapValue)>,
}

/// Why a chord entry's JavaScript target is invalid.
#[derive(Debug, Clone, PartialEq, Eq)]
pub enum JsInvocationError {
    /// A key `":args"` names no export.
    InvalidExportKey(String),
    /// The value of a `<export>:args` key is no array.
    NotAnArray(String),
    /// The array of a `<export>:args` key holds something other than strings.
    NotOnlyStrings(String),
    /// More than one of `args` and `<export>:args` is given.
    MultipleTargets,
}

/// The outcome of reading a chord entry's JavaScript target.
pub enum JsOutcome {
    Done(Option<JsInvocationView>),
    InvalidExportKey(Seq<char>),
    NotAnArray(Seq<char>),
    NotOnlyStrings(Seq<char>),
    MultipleTargets,
}

pub open spec fn js_result_view(r: Result<Option<ChordJsInvocation>, JsInvocationError>) -> JsOutcome {
    match r {
        Ok(Some(j)) => JsOutcome::Done(Some(j@)),
        Ok(None) => JsOutcome::Done(None),
        Err(JsInvocationError::InvalidExportKey(k)) => JsOutcome::InvalidExportKey(k@),
        Err(JsInvocationError::NotAnArray(k)) => JsOutcome::NotAnArray(k@),
        Err(JsInvocationError::NotOnlyStrings(k)) => JsOutcome::NotOnlyStrings(k@),
        Err(JsInvocationError::MultipleTargets) => JsOutcome::MultipleTargets,
    }
}

/// The export a key of the form `<export>:args` names.
pub open spec fn export_name_of(key: Seq<char>) -> Option<Seq<char>> {
    if key.len() >= 5 && key.subrange(key.len() - 5, key.len() as int) == ":args"@ {
        Some(key.subrange(0, key.len() - 5))
    } else {
        None
    }
}

pub open spec fn is_string_item(i: TomlArrayItem) -> bool {
    i is String
}

pub open spec fn item_string(i: TomlArrayItem) -> Seq<char> {
    match i {
        TomlArrayItem::String(s) => s@,
        TomlArrayItem::Other => Seq::empty(),
    }
}

/// The strings of an array of strings.
pub open spec fn string_items(items: Seq<TomlArrayItem>) -> Option<Seq<Seq<char>>> {
    if forall|i: int| 0 <= i < items.len() ==> is_string_item(#[trigger] items[i]) {
        Some(items.map_values(|i: TomlArrayItem| item_string(i)))
    } else {
        None
    }
}

/// One step of reading the extra keys of a chord entry.
pub open spec fn js_step(acc: JsOutcome, key: Seq<char>, value: TomlValue) -> JsOutcome {
    match acc {
        JsOutcome::Done(inv) => match export_name_of(key) {
            None => JsOutcome::Done(inv),
            Some(export) => if export.len() == 0 {
                JsOutcome::InvalidExportKey(key)
            } else {
                match value {
                    TomlValue::Array(items) => match string_items(items@) {
                        Some(args) => if inv is Some {
                            JsOutcome::MultipleTargets
                        } else {
                            JsOutcome::Done(Some(JsInvocationView { export_name: Some(export), args }))
                        },
                        None => JsOutcome::NotOnlyStrings(key),
                    },
                    TomlValue::Other => JsOutcome::NotAnArray(key),
                }
            },
        },
        other => other,
    }
}

/// Reads the extra keys in order, starting from the target that `args` gives.
pub open spec fn js_fold(init: Option<JsInvocationView>, extra: Seq<(String, TomlValue)>) -> JsOutcome
    decreases extra.len(),
{
    if extra.len() == 0 {
        JsOutcome::Done(init)
    } else {
        js_step(js_fold(init, extra.drop_last()), extra.last().0@, extra.last().1)
    }
}

/// The JavaScript target of a chord entry: `args` calls the default export,
/// `<export>:args` calls the named export; at most one of them may be given.
pub open spec fn spec_js_invocation(c: AppChord) -> JsOutcome {
    js_fold(js_init(c), c.extra@)
}

/// The target that `args` gives: the default export.
pub open spec fn js_init(c: AppChord) -> Option<JsInvocationView> {
    match c.args {
        Some(a) => Some(JsInvocationView { export_name: None, args: views(a@) }),
        None => None,
    }
}

proof fn lemma_js_fold_stays_failed(init: Option<JsInvocationView>, extra: Seq<(String, TomlValue)>, k: int)
    requires
        0 <= k <= extra.len(),
        !(js_fold(init, extra.subrange(0, k)) is Done),
    ensures
        js_fold(init, extra) == js_fold(init, extra.subrange(0, k)),
    decreases extra.len() - k,
{
    if k < extra.len() {
        let t = extra.subrange(0, k + 1);
        assert(t.drop_last() =~= extra.subrange(0, k));
        lemma_js_fold_stays_failed(init, extra, k + 1);
    } else {
        assert(extra.subrange(0, k) =~= extra);
    }
}

fn export_name(key: &String) -> (r: Option<String>)
    ensures
        opt_string_view(r) == export_name_of(key@),
{
    let cs = chars_of(key.as_str());
    let n = cs.len();
    if n >= 5 && cs[n - 5] == ':' && cs[n - 4] == 'a' && cs[n - 3] == 'r' && cs[n - 2] == 'g'
        && cs[n - 1] == 's' {
        let mut out: Vec<char> = Vec::new();
        let mut i: usize = 0;
        while i < n - 5
            invariant
                n == cs@.len(),
                cs@ == key@,
                n >= 5,
                i <= n - 5,
                out@ == key@.subrange(0, i as int),
            decreases n - 5 - i,
        {
            out.push(cs[i]);
            i = i + 1;
            assert(out@ =~= key@.subrange(0, i as int));
        }
        proof {
            reveal_strlit(":args");
            assert(key@.subrange(n - 5, n as int) =~= ":args"@);
        }
        Some(string_from_chars(&out))
    } else {
        proof {
            reveal_strlit(":args");
            if n >= 5 {
                let t = key@.subrange(n - 5, n as int);
                assert(t[0] == key@[n - 5]);
                assert(t[1] == key@[n - 4]);
                assert(t[2] == key@[n - 3]);
                assert(t[3] == key@[n - 2]);
                assert(t[4] == key@[n - 1]);
                if t == ":args"@ {
                    assert(t[0] == ':');
                }
            }
        }
        None
    }
}

/// The strings of a TOML value that must be an array of strings.
pub fn parse_string_args(key: &String, value: &TomlValue) -> (r: Result<Vec<String>, JsInvocationError>)
    ensures
        match value {
            TomlValue::Array(items) => match string_items(items@) {
                Some(a) => r matches Ok(v) && views(v@) == a,
                None => r matches Err(JsInvocationError::NotOnlyStrings(k)) && k@ == key@,
            },
            TomlValue::Other => r matches Err(JsInvocationError::NotAnArray(k)) && k@ == key@,
        },
{
    match value {
        TomlValue::Array(items) => {
            let n = items.len();
            let mut out: Vec<String> = Vec::new();
            let mut i: usize = 0;
            while i < n
                invariant
                    n == items@.len(),
                    *value == TomlValue::Array(*items),
                    i <= n,
                    forall|j: int| 0 <= j < i ==> is_string_item(#[trigger] items@[j]),
                    views(out@) == items@.subrange(0, i as int).map_values(
                        |it: TomlArrayItem| item_string(it),
                    ),
                decreases n - i,
            {
                match &items[i] {
                    TomlArrayItem::String(s) => {
                        let ghost before = out@;
                        out.push(copy_string(s));
                        assert(views(out@) =~= views(before).push(s@));
                        assert(items@.subrange(0, i as int + 1).map_values(
                            |it: TomlArrayItem| item_string(it),
                        ) =~= items@.subrange(0, i as int).map_values(
                            |it: TomlArrayItem| item_string(it),
                        ).push(s@));
                    },
                    TomlArrayItem::Other => {
                        assert(!is_string_item(items@[i as int]));
                        assert(string_items(items@) is None);
                        return Err(JsInvocationError::NotOnlyStrings(copy_string(key)));
                    },
                }
                i = i + 1;
            }
            assert(items@.subrange(0, n as int) =~= items@);
            Ok(out)
        },
        TomlValue::Other => Err(JsInvocationError::NotAnArray(copy_string(key))),
    }
}

pub open spec fn js_outcome_ok(o: JsOutcome) -> bool {
    o is Done
}

impl AppChord {
    /// The chord's JavaScript target, if it has one.
    pub fn js_invocation(&self) -> (r: Result<Option<ChordJsInvocation>, JsInvocationError>)
        ensures
            js_result_view(r) == spec_js_invocation(*self),
    {
        let mut invocation: Option<ChordJsInvocation> = match &self.args {
            Some(a) => Some(ChordJsInvocation { export_name: None, args: copy_strings(a) }),
            None => None,
        };
        let ghost init = js_init(*self);
        let n = self.extra.len();
        let mut i: usize = 0;
        while i < n
            invariant
                n == self.extra@.len(),
                init == js_init(*self),
                i <= n,
                js_fold(init, self.extra@.subrange(0, i as int)) == JsOutcome::Done(
                    match invocation {
                        Some(j) => Some(j@),
                        None => None,
                    },
                ),
            decreases n - i,
        {
            let key = &self.extra[i].0;
            let value = &self.extra[i].1;
            let ghost pre = self.extra@.subrange(0, i as int);
            let ghost post = self.extra@.subrange(0, i as int + 1);
            assert(post.drop_last() =~= pre);
            assert(post.last() == self.extra@[i as int]);
            match export_name(key) {
                None => {},
                Some(export) => {
                    if export.as_str().unicode_len() == 0 {
                        proof {
                            lemma_js_fold_stays_failed(init, self.extra@, i as int + 1);
                        }
                        return Err(JsInvocationError::InvalidExportKey(copy_string(key)));
                    }
                    let args = match parse_string_args(key, value) {
                        Ok(a) => a,
                        Err(e) => {
                            proof {
                                lemma_js_fold_stays_failed(init, self.extra@, i as int + 1);
                            }
                            return Err(e);
                        },
                    };
                    if invocation.is_some() {
                        proof {
                            lemma_js_fold_stays_failed(init, self.extra@, i as int + 1);
                        }
                        return Err(JsInvocationError::MultipleTargets);
                    }
                    invocation = Some(ChordJsInvocation { export_name: Some(export), args });
                },
            }
            i = i + 1;
        }
        assert(self.extra@.subrange(0, n as int) =~= self.extra@);
        Ok(invocation)
    }
}

/// The entry of a chord map value that counts: the single one, or the first.
pub open spec fn counted_entry(v: AppChordMapValue) -> Option<AppChord> {
    match v {
        AppChordMapValue::Single(e) => Some(e),
        AppChordMapValue::Multiple(es) => if es@.len() > 0 {
            Some(es@[0])
        } else {
            None
        },
    }
}

/// The chord that a file entry defines, if the entry is valid: its sequence
/// parses, its shortcut (if any) parses, and its JavaScript target is valid.
pub open spec fn entry_chord(sequence: Seq<char>, v: AppChordMapValue) -> Option<ChordView> {
    match counted_entry(v) {
        None => None,
        Some(e) => {
            let shortcut_ok = match e.shortcut {
                Some(s) => shortcut_text_parses(s@),
                None => true,
            };
            let js = spec_js_invocation(e);
            if parses_as_sequence(sequence) && shortcut_ok && js is Done {
                Some(
                    ChordView {
                        keys: sequence_key_names(sequence),
                        name: e.name@,
                        shortcut: match e.shortcut {
                            Some(s) => Some(shortcut_text_names(s@)),
                            None => None,
                        },
                        shell: opt_string_view(e.shell),
                        js: match js {
                            JsOutcome::Done(j) => j,
                            _ => None,
                        },
                    },
                )
            } else {
                None
            }
        },
    }
}

/// The chords that the first entries of a file define (a later entry with the
/// same key sequence replaces an earlier one; invalid entries are skipped).
pub open spec fn shallow_chords(entries: Seq<(String, AppChordMapValue)>) -> Map<
    Seq<Seq<char>>,
    ChordView,
>
    decreases entries.len(),
{
    if entries.len() == 0 {
        Map::empty()
    } else {
        let m = shallow_chords(entries.drop_last());
        match entry_chord(entries.last().0@, entries.last().1) {
            Some(c) => m.insert(c.keys, c),
            None => m,
        }
    }
}

fn chord_of_entry(sequence: &String, value: &AppChordMapValue) -> (r: Option<Chord>)
    ensures
        match r {
            Some(c) => entry_chord(sequence@, *value) == Some(c@),
            None => entry_chord(sequence@, *value) is None,
        },
{
    let entry = match value {
        AppChordMapValue::Single(e) => e,
        AppChordMapValue::Multiple(es) => {
            if es.len() == 0 {
                return None;
            }
            &es[0]
        },
    };
    let keys = match Key::parse_sequence(sequence.as_str()) {
        Ok(k) => k,
        Err(_) => {
            return None;
        },
    };
    let shortcut = match &entry.shortcut {
        Some(s) => match Shortcut::parse(s.as_str()) {
            Ok(p) => Some(p),
            Err(_) => {
                return None;
            },
        },
        None => None,
    };
    let js = match entry.js_invocation() {
        Ok(j) => j,
        Err(_) => {
            return None;
        },
    };
    Some(
        Chord {
            keys,
            name: copy_string(&entry.name),
            shortcut,
            shell: copy_opt_string(&entry.shell),
            js,
        },
    )
}

impl AppChordsFile {
    /// No sequence text occurs twice (as in the TOML table it is read from).
    pub open spec fn wf(&self) -> bool {
        crate::assoc::unique_keys(
            self.chords@.map_values(|p: (String, AppChordMapValue)| (p.0@, map_value_view(p.1))),
        )
    }

    /// A chords file from its deserialized form: a missing chords table is empty.
    pub fn from_raw(raw: RawAppChordsFile) -> (r: AppChordsFile)
        ensures
            r.config == raw.config,
            r.chords@ == match raw.chords {
                Some(c) => c@,
                None => Seq::empty(),
            },
    {
        let chords = match raw.chords {
            Some(c) => c,
            None => Vec::new(),
        };
        AppChordsFile { config: raw.config, chords }
    }

    /// The chords the file defines itself (its `extends` is not followed).
    /// Invalid entries are skipped.
    pub fn get_chords_shallow(&self) -> (r: ChordTable)
        ensures
            r.wf(),
            r.map() == shallow_chords(self.chords@),
    {
        let mut table = ChordTable::new();
        let n = self.chords.len();
        let mut i: usize = 0;
        while i < n
            invariant
                n == self.chords@.len(),
                i <= n,
                table.wf(),
                table.map() == shallow_chords(self.chords@.subrange(0, i as int)),
            decreases n - i,
        {
            let ghost pre = self.chords@.subrange(0, i as int);
            let ghost post = self.chords@.subrange(0, i as int + 1);
            assert(post.drop_last() =~= pre);
            assert(post.last() == self.chords@[i as int]);
            match chord_of_entry(&self.chords[i].0, &self.chords[i].1) {
                Some(chord) => {
                    let keys = crate::input::key::copy_keys(&chord.keys);
                    table.insert(keys, chord);
                },
                None => {},
            }
            i = i + 1;
        }
        assert(self.chords@.subrange(0, n as int) =~= self.chords@);
        table
    }
}


/// The contents of a [`TomlValue`].
pub enum TomlValueView {
    Array(Seq<Option<Seq<char>>>),
    Other,
}

pub open spec fn item_view(i: TomlArrayItem) -> Option<Seq<char>> {
    match i {
        TomlArrayItem::String(s) => Some(s@),
        TomlArrayItem::Other => None,
    }
}

pub open spec fn toml_view(v: TomlValue) -> TomlValueView {
    match v {
        TomlValue::Array(items) => TomlValueView::Array(
            items@.map_values(|i: TomlArrayItem| item_view(i)),
        ),
        TomlValue::Other => TomlValueView::Other,
    }
}

/// The contents of an [`AppChord`].
pub struct AppChordView {
    pub name: Seq<char>,
    pub shortcut: Option<Seq<char>>,
    pub shell: Option<Seq<char>>,
    pub args: Option<Seq<Seq<char>>>,
    pub extra: Seq<(Seq<char>, TomlValueView)>,
}

pub open spec fn app_chord_view(c: AppChord) -> AppChordView {
    AppChordView {
        name: c.name@,
        shortcut: opt_string_view(c.shortcut),
        shell: opt_string_view(c.shell),
        args: match c.args {
            Some(a) => Some(views(a@)),
            None => None,
        },
        extra: c.extra@.map_values(|p: (String, TomlValue)| (p.0@, toml_view(p.1))),
    }
}

/// The contents of an [`AppChordMapValue`].
pub enum MapValueView {
    Single(AppChordView),
    Multiple(Seq<AppChordView>),
}

pub open spec fn map_value_view(v: AppChordMapValue) -> MapValueView {
    match v {
        AppChordMapValue::Single(e) => MapValueView::Single(app_chord_view(e)),
        AppChordMapValue::Multiple(es) => MapValueView::Multiple(
            es@.map_values(|e: AppChord| app_chord_view(e)),
        ),
    }
}

fn copy_item(i: &TomlArrayItem) -> (r: TomlArrayItem)
    ensures
        item_view(r) == item_view(*i),
{
    match i {
        TomlArrayItem::String(s) => TomlArrayItem::String(copy_string(s)),
        TomlArrayItem::Other => TomlArrayItem::Other,
    }
}

fn copy_toml(v: &TomlValue) -> (r: TomlValue)
    ensures
        toml_view(r) == toml_view(*v),
{
    match v {
        TomlValue::Array(items) => {
            let n = items.len();
            let mut out: Vec<TomlArrayItem> = Vec::new();
            let mut i: usize = 0;
            while i < n
                invariant
                    n == items@.len(),
                    i <= n,
                    out@.map_values(|i: TomlArrayItem| item_view(i)) == items@.subrange(
                        0,
                        i as int,
                    ).map_values(|i: TomlArrayItem| item_view(i)),
                decreases n - i,
            {
                let c = copy_item(&items[i]);
                let ghost before = out@;
                out.push(c);
                assert(out@.map_values(|i: TomlArrayItem| item_view(i)) =~= before.map_values(
                    |i: TomlArrayItem| item_view(i),
                ).push(item_view(c)));
                assert(items@.subrange(0, i as int + 1).map_values(|i: TomlArrayItem| item_view(i))
                    =~= items@.subrange(0, i as int).map_values(|i: TomlArrayItem| item_view(i)).push(
                    item_view(items@[i as int]),
                ));
                assert(out@.map_values(|i: TomlArrayItem| item_view(i)) =~= items@.subrange(
                    0,
                    i as int + 1,
                ).map_values(|i: TomlArrayItem| item_view(i)));
                i = i + 1;
            }
            assert(items@.subrange(0, n as int) =~= items@);
            TomlValue::Array(out)
        },
        TomlValue::Other => TomlValue::Other,
    }
}

/// A copy of a chord entry.
pub fn copy_app_chord(c: &AppChord) -> (r: AppChord)
    ensures
        app_chord_view(r) == app_chord_view(*c),
{
    let n = c.extra.len();
    let mut extra: Vec<(String, TomlValue)> = Vec::new();
    let mut i: usize = 0;
    while i < n
        invariant
            n == c.extra@.len(),
            i <= n,
            extra@.map_values(|p: (String, TomlValue)| (p.0@, toml_view(p.1))) == c.extra@.subrange(
                0,
                i as int,
            ).map_values(|p: (String, TomlValue)| (p.0@, toml_view(p.1))),
        decreases n - i,
    {
        let k = copy_string(&c.extra[i].0);
        let v = copy_toml(&c.extra[i].1);
        let ghost before = extra@;
        extra.push((k, v));
        assert(extra@.map_values(|p: (String, TomlValue)| (p.0@, toml_view(p.1))) =~= before.map_values(
            |p: (String, TomlValue)| (p.0@, toml_view(p.1)),
        ).push((k@, toml_view(v))));
        assert(c.extra@.subrange(0, i as int + 1).map_values(
            |p: (String, TomlValue)| (p.0@, toml_view(p.1)),
        ) =~= c.extra@.subrange(0, i as int).map_values(
            |p: (String, TomlValue)| (p.0@, toml_view(p.1)),
        ).push((c.extra@[i as int].0@, toml_view(c.extra@[i as int].1))));
        assert(extra@.map_values(|p: (String, TomlValue)| (p.0@, toml_view(p.1))) =~= c.extra@.subrange(
            0,
            i as int + 1,
        ).map_values(|p: (String, TomlValue)| (p.0@, toml_view(p.1))));
        i = i + 1;
    }
    assert(c.extra@.subrange(0, n as int) =~= c.extra@);
    let args = match &c.args {
        Some(a) => Some(copy_strings(a)),
        None => None,
    };
    AppChord {
        name: copy_string(&c.name),
        shortcut: copy_opt_string(&c.shortcut),
        shell: copy_opt_string(&c.shell),
        args,
        extra,
    }
}

/// A copy of a chord map value.
pub fn copy_map_value(v: &AppChordMapValue) -> (r: AppChordMapValue)
    ensures
        map_value_view(r) == map_value_view(*v),
{
    match v {
        AppChordMapValue::Single(e) => AppChordMapValue::Single(copy_app_chord(e)),
        AppChordMapValue::Multiple(es) => {
            let n = es.len();
            let mut out: Vec<AppChord> = Vec::new();
            let mut i: usize = 0;
            while i < n
                invariant
                    n == es@.len(),
                    i <= n,
                    out@.map_values(|e: AppChord| app_chord_view(e)) == es@.subrange(
                        0,
                        i as int,
                    ).map_values(|e: AppChord| app_chord_view(e)),
                decreases n - i,
            {
                let c = copy_app_chord(&es[i]);
                let ghost before = out@;
                out.push(c);
                assert(out@.map_values(|e: AppChord| app_chord_view(e)) =~= before.map_values(
                    |e: AppChord| app_chord_view(e),
                ).push(app_chord_view(c)));
                assert(es@.subrange(0, i as int + 1).map_values(|e: AppChord| app_chord_view(e))
                    =~= es@.subrange(0, i as int).map_values(|e: AppChord| app_chord_view(e)).push(
                    app_chord_view(es@[i as int]),
                ));
                assert(out@.map_values(|e: AppChord| app_chord_view(e)) =~= es@.subrange(
                    0,
                    i as int + 1,
                ).map_values(|e: AppChord| app_chord_view(e)));
                i = i + 1;
            }
            assert(es@.subrange(0, n as int) =~= es@);
            AppChordMapValue::Multiple(out)
        },
    }
}


/// The contents of an [`AppChordsFileConfig`].
pub struct ConfigView {
    pub name: Option<Seq<char>>,
    pub extends: Option<Seq<char>>,
    pub js_module: Option<Option<Seq<char>>>,
}

pub open spec fn config_view(c: Option<AppChordsFileConfig>) -> Option<ConfigView> {
    match c {
        Some(c) => Some(
            ConfigView {
                name: opt_string_view(c.name),
                extends: opt_string_view(c.extends),
                js_module: match c.js {
                    Some(j) => Some(opt_string_view(j.module)),
                    None => None,
                },
            },
        ),
        None => None,
    }
}

/// A copy of a file config.
pub fn copy_config(c: &Option<AppChordsFileConfig>) -> (r: Option<AppChordsFileConfig>)
    ensures
        config_view(r) == config_view(*c),
{
    match c {
        Some(c) => Some(
            AppChordsFileConfig {
                name: copy_opt_string(&c.name),
                extends: copy_opt_string(&c.extends),
                js: match &c.js {
                    Some(j) => Some(AppChordsFileConfigJs { module: copy_opt_string(&j.module) }),
                    None => None,
                },
            },
        ),
        None => None,
    }
}

} // verus!
