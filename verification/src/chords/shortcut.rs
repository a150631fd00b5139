//! Keyboard shortcuts such as `cmd+shift+n` (or several chords separated by
//! spaces, `cmd+k cmd+s`), and the key presses and releases that perform them.
use crate::input::key::{copy_keys, key_names, parse_key_name, Key};
use crate::text::{owned, split, split_str, views};
use vstd::prelude::*;

verus! {

/// One step of a shortcut: one key (of the keys held together).
#[derive(Debug, Clone, PartialEq, Eq)]
pub struct ShortcutChord {
    pub keys: Vec<Key>,
}

/// A parsed keyboard shortcut, e.g. "cmd+shift+n": a sequence of chords.
#[derive(Debug, Clone, PartialEq, Eq)]
pub struct Shortcut {
    pub chords: Vec<ShortcutChord>,
}

/// Why a shortcut could not be parsed; holds the whole shortcut text.
#[derive(Debug, Clone, PartialEq, Eq)]
pub enum ShortcutParseError {
    Invalid(String),
}

/// A simulated key event: the key, and whether Shift is to be suppressed while
/// it is sent (it is, unless the shortcut itself holds Shift).
#[derive(Debug, Clone, PartialEq, Eq)]
pub enum ShortcutAction {
    Press(Key, bool),
    Release(Key, bool),
}

/// The key names of each chord of a shortcut.
pub open spec fn shortcut_names(s: Shortcut) -> Seq<Seq<Seq<char>>> {
    s.chords@.map_values(|c: ShortcutChord| key_names(c.keys@))
}

/// Whether every `+`-separated piece of a chord text is a key name.
pub open spec fn chord_text_parses(c: Seq<char>) -> bool {
    forall|i: int| 0 <= i < split(c, '+').len() ==> (#[trigger] parse_key_name(split(c, '+')[i])) is Some
}

/// The key code names of a chord text.
pub open spec fn chord_text_names(c: Seq<char>) -> Seq<Seq<char>> {
    split(c, '+').map_values(|p: Seq<char>| parse_key_name(p).unwrap())
}

/// Whether every space-separated chord of a shortcut text parses.
pub open spec fn shortcut_text_parses(s: Seq<char>) -> bool {
    forall|i: int| 0 <= i < split(s, ' ').len() ==> chord_text_parses(#[trigger] split(s, ' ')[i])
}

/// The key code names of each chord of a shortcut text.
pub open spec fn shortcut_text_names(s: Seq<char>) -> Seq<Seq<Seq<char>>> {
    split(s, ' ').map_values(|c: Seq<char>| chord_text_names(c))
}

fn parse_chord(text: &str) -> (r: Option<Vec<Key>>)
    ensures
        r is Some <==> chord_text_parses(text@),
        r matches Some(keys) ==> key_names(keys@) == chord_text_names(text@),
{
    let pieces = split_str(text, '+');
    let ghost ps = split(text@, '+');
    let n = pieces.len();
    let mut keys: Vec<Key> = Vec::new();
    let mut i: usize = 0;
    while i < n
        invariant
            n == pieces@.len(),
            views(pieces@) == ps,
            ps == split(text@, '+'),
            i <= n,
            forall|j: int| 0 <= j < i ==> (#[trigger] parse_key_name(ps[j])) is Some,
            key_names(keys@) == ps.subrange(0, i as int).map_values(
                |p: Seq<char>| parse_key_name(p).unwrap(),
            ),
        decreases n - i,
    {
        assert(views(pieces@)[i as int] == pieces@[i as int]@);
        assert(pieces@[i as int]@ == ps[i as int]);
        match Key::parse(pieces[i].as_str()) {
            Ok(k) => {
                assert(parse_key_name(ps[i as int]) == Some(k@));
                let ghost before = keys@;
                keys.push(k);
                assert(key_names(keys@) == key_names(before).push(k@));
                assert(key_names(keys@) =~= ps.subrange(0, i as int + 1).map_values(
                    |p: Seq<char>| parse_key_name(p).unwrap(),
                ));
            },
            Err(_) => {
                assert(parse_key_name(ps[i as int]) is None);
                return None;
            },
        }
        i = i + 1;
    }
    assert(ps.subrange(0, n as int) =~= ps);
    Some(keys)
}

impl Shortcut {
    /// Parses a shortcut: chords separated by single spaces, keys within a chord
    /// separated by `+`, each key a key name (see [`Key::parse`]).
    pub fn parse(shortcut_str: &str) -> (r: Result<Shortcut, ShortcutParseError>)
        ensures
            r is Ok <==> shortcut_text_parses(shortcut_str@),
            r matches Ok(s) ==> shortcut_names(s) == shortcut_text_names(shortcut_str@),
            r matches Err(ShortcutParseError::Invalid(t)) ==> t@ == shortcut_str@,
    {
        let texts = split_str(shortcut_str, ' ');
        let ghost ts = split(shortcut_str@, ' ');
        let n = texts.len();
        let mut chords: Vec<ShortcutChord> = Vec::new();
        let mut i: usize = 0;
        while i < n
            invariant
                n == texts@.len(),
                views(texts@) == ts,
                ts == split(shortcut_str@, ' '),
                i <= n,
                forall|j: int| 0 <= j < i ==> chord_text_parses(#[trigger] ts[j]),
                chords@.map_values(|c: ShortcutChord| key_names(c.keys@)) == ts.subrange(
                    0,
                    i as int,
                ).map_values(|c: Seq<char>| chord_text_names(c)),
            decreases n - i,
        {
            assert(views(texts@)[i as int] == texts@[i as int]@);
            assert(texts@[i as int]@ == ts[i as int]);
            match parse_chord(texts[i].as_str()) {
                Some(keys) => {
                    let ghost before = chords@;
                    let ghost kn = key_names(keys@);
                    chords.push(ShortcutChord { keys });
                    assert(chords@.map_values(|c: ShortcutChord| key_names(c.keys@)) =~= before.map_values(|c: ShortcutChord| key_names(c.keys@)).push(kn));
                    assert(chords@.map_values(|c: ShortcutChord| key_names(c.keys@))
                        =~= ts.subrange(0, i as int + 1).map_values(
                        |c: Seq<char>| chord_text_names(c),
                    ));
                },
                None => {
                    return Err(ShortcutParseError::Invalid(owned(shortcut_str)));
                },
            }
            i = i + 1;
        }
        assert(ts.subrange(0, n as int) =~= ts);
        Ok(Shortcut { chords })
    }
}

/// Whether some chord of the shortcut holds a Shift key.
pub open spec fn holds_shift(chords: Seq<ShortcutChord>) -> bool {
    exists|i: int, j: int|
        0 <= i < chords.len() && 0 <= j < chords[i].keys@.len() && (#[trigger] chords[i].keys@[j]@
            == "ShiftLeft"@ || chords[i].keys@[j]@ == "ShiftRight"@)
}

/// Presses of the given keys, in order.
pub open spec fn presses(keys: Seq<Key>, suppress_shift: bool) -> Seq<ShortcutAction> {
    keys.map_values(|k: Key| ShortcutAction::Press(k, suppress_shift))
}

/// Releases of the given keys, in reverse order.
pub open spec fn releases_reversed(keys: Seq<Key>, suppress_shift: bool) -> Seq<ShortcutAction> {
    keys.reverse().map_values(|k: Key| ShortcutAction::Release(k, suppress_shift))
}

/// The actions for chord `i` when pressing: press its keys; unless it is the
/// last chord, release them again in reverse order.
pub open spec fn chord_press_actions(chords: Seq<ShortcutChord>, i: int, suppress_shift: bool) -> Seq<
    ShortcutAction,
> {
    if i + 1 != chords.len() {
        presses(chords[i].keys@, suppress_shift) + releases_reversed(chords[i].keys@, suppress_shift)
    } else {
        presses(chords[i].keys@, suppress_shift)
    }
}

/// The press actions of the first `n` chords.
pub open spec fn press_prefix(chords: Seq<ShortcutChord>, n: int, suppress_shift: bool) -> Seq<
    ShortcutAction,
>
    decreases n,
{
    if n <= 0 {
        Seq::empty()
    } else {
        press_prefix(chords, n - 1, suppress_shift) + chord_press_actions(chords, n - 1, suppress_shift)
    }
}

/// What pressing a shortcut sends: every chord is pressed, every chord but the last
/// is released again; Shift is suppressed unless the shortcut holds Shift.
pub open spec fn spec_press_actions(s: Shortcut) -> Seq<ShortcutAction> {
    press_prefix(s.chords@, s.chords@.len() as int, !holds_shift(s.chords@))
}

/// What releasing a shortcut sends: the keys of its last chord, in reverse order.
pub open spec fn spec_release_actions(s: Shortcut) -> Seq<ShortcutAction> {
    if s.chords@.len() == 0 {
        Seq::empty()
    } else {
        releases_reversed(s.chords@.last().keys@, !holds_shift(s.chords@))
    }
}

fn shortcut_holds_shift(chords: &Vec<ShortcutChord>) -> (r: bool)
    ensures
        r == holds_shift(chords@),
{
    let n = chords.len();
    let mut i: usize = 0;
    while i < n
        invariant
            n == chords@.len(),
            i <= n,
            forall|a: int, b: int|
                0 <= a < i && 0 <= b < chords@[a].keys@.len() ==> !(#[trigger] chords@[a].keys@[b]@
                    == "ShiftLeft"@ || chords@[a].keys@[b]@ == "ShiftRight"@),
        decreases n - i,
    {
        let keys = &chords[i].keys;
        let m = keys.len();
        let mut j: usize = 0;
        while j < m
            invariant
                n == chords@.len(),
                i < n,
                keys == chords@[i as int].keys,
                m == keys@.len(),
                j <= m,
                forall|b: int|
                    0 <= b < j ==> !(#[trigger] keys@[b]@ == "ShiftLeft"@ || keys@[b]@
                        == "ShiftRight"@),
            decreases m - j,
        {
            if keys[j].is("ShiftLeft") || keys[j].is("ShiftRight") {
                assert(chords@[i as int].keys@[j as int]@ == "ShiftLeft"@ || chords@[i as int].keys@[
                j as int]@ == "ShiftRight"@);
                return true;
            }
            j = j + 1;
        }
        i = i + 1;
    }
    false
}

fn push_presses(out: &mut Vec<ShortcutAction>, keys: &Vec<Key>, suppress_shift: bool)
    ensures
        final(out)@ == old(out)@ + presses(keys@, suppress_shift),
{
    let n = keys.len();
    let mut i: usize = 0;
    while i < n
        invariant
            n == keys@.len(),
            i <= n,
            out@ == old(out)@ + presses(keys@.subrange(0, i as int), suppress_shift),
        decreases n - i,
    {
        out.push(ShortcutAction::Press(keys[i].copy(), suppress_shift));
        i = i + 1;
        assert(out@ =~= old(out)@ + presses(keys@.subrange(0, i as int), suppress_shift));
    }
    assert(keys@.subrange(0, n as int) =~= keys@);
}

fn push_releases_reversed(out: &mut Vec<ShortcutAction>, keys: &Vec<Key>, suppress_shift: bool)
    ensures
        final(out)@ == old(out)@ + releases_reversed(keys@, suppress_shift),
{
    let n = keys.len();
    let mut i: usize = n;
    while i > 0
        invariant
            n == keys@.len(),
            i <= n,
            out@ == old(out)@ + releases_reversed(keys@.subrange(i as int, n as int), suppress_shift),
        decreases i,
    {
        i = i - 1;
        out.push(ShortcutAction::Release(keys[i].copy(), suppress_shift));
        assert(keys@.subrange(i as int, n as int).reverse() =~= keys@.subrange(
            i as int + 1,
            n as int,
        ).reverse().push(keys@[i as int]));
        assert(out@ =~= old(out)@ + releases_reversed(
            keys@.subrange(i as int, n as int),
            suppress_shift,
        ));
    }
    assert(keys@.subrange(0, n as int) =~= keys@);
}

/// The simulated key events that press a shortcut.
pub fn press_actions(shortcut: &Shortcut) -> (r: Vec<ShortcutAction>)
    ensures
        r@ == spec_press_actions(*shortcut),
{
    let has_shift = shortcut_holds_shift(&shortcut.chords);
    let suppress_shift = !has_shift;
    let chords = &shortcut.chords;
    let n = chords.len();
    let mut actions: Vec<ShortcutAction> = Vec::new();
    let mut i: usize = 0;
    while i < n
        invariant
            n == chords@.len(),
            chords == shortcut.chords,
            suppress_shift == !holds_shift(chords@),
            i <= n,
            actions@ == press_prefix(chords@, i as int, suppress_shift),
        decreases n - i,
    {
        push_presses(&mut actions, &chords[i].keys, suppress_shift);
        if i + 1 != n {
            push_releases_reversed(&mut actions, &chords[i].keys, suppress_shift);
        }
        assert(actions@ =~= press_prefix(chords@, i as int + 1, suppress_shift));
        i = i + 1;
    }
    actions
}

/// The simulated key events that release a shortcut.
pub fn release_actions(shortcut: &Shortcut) -> (r: Vec<ShortcutAction>)
    ensures
        r@ == spec_release_actions(*shortcut),
{
    let has_shift = shortcut_holds_shift(&shortcut.chords);
    let suppress_shift = !has_shift;
    let mut actions: Vec<ShortcutAction> = Vec::new();
    let n = shortcut.chords.len();
    if n > 0 {
        push_releases_reversed(&mut actions, &shortcut.chords[n - 1].keys, suppress_shift);
        assert(actions@ =~= spec_release_actions(*shortcut));
    } else {
        assert(actions@ =~= spec_release_actions(*shortcut));
    }
    actions
}

/// A copy of a shortcut.
pub fn copy_shortcut(s: &Shortcut) -> (r: Shortcut)
    ensures
        r.chords@.len() == s.chords@.len(),
        forall|i: int| 0 <= i < s.chords@.len() ==> #[trigger] r.chords@[i].keys@ == s.chords@[i].keys@,
        shortcut_names(r) == shortcut_names(*s),
{
    let n = s.chords.len();
    let mut chords: Vec<ShortcutChord> = Vec::new();
    let mut i: usize = 0;
    while i < n
        invariant
            n == s.chords@.len(),
            i <= n,
            chords@.len() == i,
            forall|j: int| 0 <= j < i ==> #[trigger] chords@[j].keys@ == s.chords@[j].keys@,
        decreases n - i,
    {
        chords.push(ShortcutChord { keys: copy_keys(&s.chords[i].keys) });
        i = i + 1;
    }
    let r = Shortcut { chords };
    assert(shortcut_names(r) =~= shortcut_names(*s));
    r
}


/// How many elements satisfy `p`.
pub open spec fn count_where<A>(s: Seq<A>, p: spec_fn(A) -> bool) -> nat
    decreases s.len(),
{
    if s.len() == 0 {
        0
    } else {
        count_where(s.drop_last(), p) + if p(s.last()) {
            1nat
        } else {
            0nat
        }
    }
}

proof fn lemma_count_concat<A>(a: Seq<A>, b: Seq<A>, p: spec_fn(A) -> bool)
    ensures
        count_where(a + b, p) == count_where(a, p) + count_where(b, p),
    decreases b.len(),
{
    if b.len() > 0 {
        lemma_count_concat(a, b.drop_last(), p);
        assert((a + b).drop_last() =~= a + b.drop_last());
    } else {
        assert(a + b =~= a);
    }
}

proof fn lemma_count_map<A, B>(s: Seq<A>, f: spec_fn(A) -> B, p: spec_fn(B) -> bool, q: spec_fn(A) -> bool)
    requires
        forall|x: A| #[trigger] q(x) == p(f(x)),
    ensures
        count_where(s.map_values(f), p) == count_where(s, q),
    decreases s.len(),
{
    if s.len() > 0 {
        lemma_count_map(s.drop_last(), f, p, q);
        assert(s.map_values(f).drop_last() =~= s.drop_last().map_values(f));
        assert(s.map_values(f).last() == f(s.last()));
    }
}

proof fn lemma_count_reverse<A>(s: Seq<A>, p: spec_fn(A) -> bool)
    ensures
        count_where(s.reverse(), p) == count_where(s, p),
    decreases s.len(),
{
    if s.len() > 0 {
        lemma_count_reverse(s.drop_last(), p);
        assert(s.reverse() =~= seq![s.last()] + s.drop_last().reverse());
        lemma_count_concat(seq![s.last()], s.drop_last().reverse(), p);
        assert(seq![s.last()].drop_last() =~= Seq::<A>::empty());
        assert(count_where(Seq::<A>::empty(), p) == 0);
        assert(seq![s.last()].last() == s.last());
    }
}

/// Whether an action presses the key named `k`.
pub open spec fn presses_key(a: ShortcutAction, k: Seq<char>) -> bool {
    a matches ShortcutAction::Press(x, _) && x@ == k
}

/// Whether an action releases the key named `k`.
pub open spec fn releases_key(a: ShortcutAction, k: Seq<char>) -> bool {
    a matches ShortcutAction::Release(x, _) && x@ == k
}

pub open spec fn press_of(k: Seq<char>) -> spec_fn(ShortcutAction) -> bool {
    |a: ShortcutAction| presses_key(a, k)
}

pub open spec fn release_of(k: Seq<char>) -> spec_fn(ShortcutAction) -> bool {
    |a: ShortcutAction| releases_key(a, k)
}

pub open spec fn key_is(k: Seq<char>) -> spec_fn(Key) -> bool {
    |x: Key| x@ == k
}

/// How many times the actions press the key named `k`.
pub open spec fn press_count(s: Seq<ShortcutAction>, k: Seq<char>) -> nat {
    count_where(s, press_of(k))
}

/// How many times the actions release the key named `k`.
pub open spec fn release_count(s: Seq<ShortcutAction>, k: Seq<char>) -> nat {
    count_where(s, release_of(k))
}

/// How many of the keys are named `k`.
pub open spec fn key_count(keys: Seq<Key>, k: Seq<char>) -> nat {
    count_where(keys, key_is(k))
}

proof fn lemma_presses_counts(keys: Seq<Key>, sup: bool, k: Seq<char>)
    ensures
        press_count(presses(keys, sup), k) == key_count(keys, k),
        release_count(presses(keys, sup), k) == 0,
        press_count(releases_reversed(keys, sup), k) == 0,
        release_count(releases_reversed(keys, sup), k) == key_count(keys, k),
{
    let pf = |x: Key| ShortcutAction::Press(x, sup);
    let rf = |x: Key| ShortcutAction::Release(x, sup);
    let never = |x: Key| false;
    lemma_count_map(keys, pf, press_of(k), key_is(k));
    lemma_count_map(keys, pf, release_of(k), never);
    lemma_count_map(keys.reverse(), rf, press_of(k), never);
    lemma_count_map(keys.reverse(), rf, release_of(k), key_is(k));
    lemma_count_reverse(keys, key_is(k));
    lemma_count_zero(keys, never);
    lemma_count_zero(keys.reverse(), never);
}

proof fn lemma_count_zero<A>(s: Seq<A>, p: spec_fn(A) -> bool)
    requires
        forall|x: A| !#[trigger] p(x),
    ensures
        count_where(s, p) == 0,
    decreases s.len(),
{
    if s.len() > 0 {
        lemma_count_zero(s.drop_last(), p);
    }
}

proof fn lemma_press_prefix_counts(chords: Seq<ShortcutChord>, n: int, sup: bool, k: Seq<char>)
    requires
        0 <= n <= chords.len(),
    ensures
        n < chords.len() ==> press_count(press_prefix(chords, n, sup), k) == release_count(
            press_prefix(chords, n, sup),
            k,
        ),
        n == chords.len() && n > 0 ==> press_count(press_prefix(chords, n, sup), k) == release_count(
            press_prefix(chords, n, sup),
            k,
        ) + key_count(chords[n - 1].keys@, k),
    decreases n,
{
    if n > 0 {
        lemma_press_prefix_counts(chords, n - 1, sup, k);
        let pre = press_prefix(chords, n - 1, sup);
        let c = chord_press_actions(chords, n - 1, sup);
        lemma_count_concat(pre, c, press_of(k));
        lemma_count_concat(pre, c, release_of(k));
        lemma_presses_counts(chords[n - 1].keys@, sup, k);
        if n != chords.len() {
            let ps = presses(chords[n - 1].keys@, sup);
            let rs = releases_reversed(chords[n - 1].keys@, sup);
            lemma_count_concat(ps, rs, press_of(k));
            lemma_count_concat(ps, rs, release_of(k));
        }
    } else {
        assert(press_prefix(chords, 0, sup) =~= Seq::<ShortcutAction>::empty());
    }
}

/// Pressing a shortcut leaves exactly the keys of its last chord down, and
/// tapping it (pressing, then releasing) releases every key as often as it
/// presses it.
pub proof fn lemma_tap_balanced(s: Shortcut, k: Seq<char>)
    ensures
        s.chords@.len() > 0 ==> press_count(spec_press_actions(s), k) == release_count(
            spec_press_actions(s),
            k,
        ) + key_count(s.chords@.last().keys@, k),
        press_count(spec_press_actions(s) + spec_release_actions(s), k) == release_count(
            spec_press_actions(s) + spec_release_actions(s),
            k,
        ),
{
    let sup = !holds_shift(s.chords@);
    let p = spec_press_actions(s);
    let r = spec_release_actions(s);
    lemma_count_concat(p, r, press_of(k));
    lemma_count_concat(p, r, release_of(k));
    if s.chords@.len() > 0 {
        lemma_press_prefix_counts(s.chords@, s.chords@.len() as int, sup, k);
        lemma_presses_counts(s.chords@.last().keys@, sup, k);
    } else {
        assert(p =~= Seq::<ShortcutAction>::empty());
        assert(r =~= Seq::<ShortcutAction>::empty());
    }
}

} // verus!
