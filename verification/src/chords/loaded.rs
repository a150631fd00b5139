//! All loaded chords: one runtime per application (plus the global one), the
//! resolution of `extends` between them, and the lookup of the runtime that a
//! typed sequence belongs to.
use crate::assoc::{
    assoc_map, lemma_assoc_absent, lemma_assoc_dom, lemma_assoc_finite, lemma_assoc_lookup,
    lemma_assoc_push, lemma_assoc_remove, lemma_assoc_update, unique_keys,
};
use crate::chords::chord::{
    opt_string_view, chord_pairs, is_global_chord_sequence, is_global_sequence, runtime_id_from_chords_path,
    spec_runtime_id, ChordTable, ChordView,
};
use crate::chords::chord_file::{
    AppChordMapValue, MapValueView, config_view, copy_config, shallow_chords, AppChordsFile, AppChordsFileConfig, ConfigView,
};
use crate::chords::chord_folder::{chords_file_entries, chords_file_list, ChordFolder};
use crate::chords::runtime::{
    copy_raw_chords, prefer, raw_map, raw_pairs, selected_chord, ChordPayload, ChordRuntime,
    RuntimeView,
};
use crate::input::key::{copy_keys, key_names, same_keys, Key};
use crate::text::{copy_string, views};
use vstd::prelude::*;

verus! {

/// All loaded chords: the runtime of each global chord sequence, and the
/// runtimes by id (an application's bundle identifier, or the global id).
#[derive(Debug, Clone)]
pub struct LoadedAppChords {
    pub global_chords_to_runtime_key: Vec<(Vec<Key>, String)>,
    pub runtimes: Vec<(String, ChordRuntime)>,
}

/// A runtime whose file names a script module: what loading that module takes.
#[derive(Debug, Clone)]
pub struct JsModuleLoad {
    pub bundle_id: String,
    /// The runtime's file, which names the module.
    pub path: String,
    /// The module's source.
    pub content: String,
    /// The file's chord entries, handed to the module.
    pub raw_chords: Vec<(String, AppChordMapValue)>,
}

impl View for JsModuleLoad {
    type V = (Seq<char>, Seq<char>, Seq<char>, Seq<(Seq<char>, MapValueView)>);

    open spec fn view(&self) -> Self::V {
        (self.bundle_id@, self.path@, self.content@, raw_pairs(self.raw_chords@))
    }
}

/// The script module that a config names, if any.
pub open spec fn config_module(c: Option<ConfigView>) -> Option<Seq<char>> {
    match c {
        Some(c) => match c.js_module {
            Some(Some(m)) => Some(m),
            _ => None,
        },
        None => None,
    }
}

/// The module loads of the runtimes whose config names a module, in order.
pub open spec fn module_loads(s: Seq<(String, ChordRuntime)>) -> Seq<
    (Seq<char>, Seq<char>, Seq<char>, Seq<(Seq<char>, MapValueView)>),
>
    decreases s.len(),
{
    if s.len() == 0 {
        Seq::empty()
    } else {
        let prev = module_loads(s.drop_last());
        let (id, rt) = s.last();
        match config_module(config_view(rt.config)) {
            Some(m) => prev.push((id@, rt.path@, m, raw_pairs(rt.raw_chords@))),
            None => prev,
        }
    }
}

pub open spec fn runtime_pairs(s: Seq<(String, ChordRuntime)>) -> Seq<(Seq<char>, RuntimeView)> {
    s.map_values(|p: (String, ChordRuntime)| (p.0@, p.1@))
}

/// Runtimes by id.
pub open spec fn runtimes_map(s: Seq<(String, ChordRuntime)>) -> Map<Seq<char>, RuntimeView> {
    assoc_map(runtime_pairs(s))
}

/// No id occurs twice and every runtime is well formed.
pub open spec fn runtimes_wf(s: Seq<(String, ChordRuntime)>) -> bool {
    &&& unique_keys(runtime_pairs(s))
    &&& forall|i: int| 0 <= i < s.len() ==> (#[trigger] s[i]).1.wf()
}

pub open spec fn global_pairs(s: Seq<(Vec<Key>, String)>) -> Seq<(Seq<Seq<char>>, Seq<char>)> {
    s.map_values(|p: (Vec<Key>, String)| (key_names(p.0@), p.1@))
}

/// Runtime ids by global chord sequence.
pub open spec fn global_map(s: Seq<(Vec<Key>, String)>) -> Map<Seq<Seq<char>>, Seq<char>> {
    assoc_map(global_pairs(s))
}

pub open spec fn config_pairs(s: Seq<(String, Option<AppChordsFileConfig>)>) -> Seq<
    (Seq<char>, Option<ConfigView>),
> {
    s.map_values(|p: (String, Option<AppChordsFileConfig>)| (p.0@, config_view(p.1)))
}

/// File configs by runtime id.
pub open spec fn configs_map(s: Seq<(String, Option<AppChordsFileConfig>)>) -> Map<
    Seq<char>,
    Option<ConfigView>,
> {
    assoc_map(config_pairs(s))
}

/// The runtime id that a runtime's config says it extends.
pub open spec fn extends_of(cfg: Map<Seq<char>, Option<ConfigView>>, id: Seq<char>) -> Option<
    Seq<char>,
> {
    if cfg.dom().contains(id) {
        match cfg[id] {
            Some(c) => c.extends,
            None => None,
        }
    } else {
        None
    }
}

/// The runtime that `id` extends, when that is another runtime that exists.
pub open spec fn valid_base(cfg: Map<Seq<char>, Option<ConfigView>>, dom: Set<Seq<char>>, id: Seq<char>) -> Option<
    Seq<char>,
> {
    match extends_of(cfg, id) {
        Some(b) => if dom.contains(b) && b != id {
            Some(b)
        } else {
            None
        },
        None => None,
    }
}

/// `cur` is `pre` with possibly more chords and entries (existing ones unchanged).
pub open spec fn grows(pre: RuntimeView, cur: RuntimeView) -> bool {
    &&& cur.path == pre.path
    &&& cur.config == pre.config
    &&& pre.chords.submap_of(cur.chords)
    &&& pre.raw.submap_of(cur.raw)
}

/// `cur` holds every chord and entry of `base`, with `base`'s value wherever
/// `own` has none.
pub open spec fn picks_up(cur: RuntimeView, own: RuntimeView, base: RuntimeView) -> bool {
    &&& base.chords.dom().subset_of(cur.chords.dom())
    &&& forall|k: Seq<Seq<char>>|
        #![trigger base.chords[k]]
        base.chords.dom().contains(k) && !own.chords.dom().contains(k) ==> cur.chords[k]
            == base.chords[k]
    &&& base.raw.dom().subset_of(cur.raw.dom())
    &&& forall|k: Seq<char>|
        #![trigger base.raw[k]]
        base.raw.dom().contains(k) && !own.raw.dom().contains(k) ==> cur.raw[k] == base.raw[k]
}

/// What holds during one pass of `extends` resolution, relative to the runtimes
/// `pre` at its start, with `r` the runtimes resolved so far.
pub open spec fn resolution_inv(
    cur: Map<Seq<char>, RuntimeView>,
    pre: Map<Seq<char>, RuntimeView>,
    cfg: Map<Seq<char>, Option<ConfigView>>,
    r: Set<Seq<char>>,
) -> bool {
    &&& cur.dom() == pre.dom()
    &&& forall|y: Seq<char>| #[trigger] pre.dom().contains(y) ==> grows(pre[y], cur[y])
    &&& forall|y: Seq<char>| #[trigger] pre.dom().contains(y) && !r.contains(y) ==> cur[y] == pre[y]
    &&& forall|y: Seq<char>|
        #[trigger] pre.dom().contains(y) && valid_base(cfg, pre.dom(), y) is None ==> cur[y] == pre[y]
    &&& forall|y: Seq<char>|
        #[trigger] pre.dom().contains(y) && r.contains(y) && valid_base(cfg, pre.dom(), y) is Some
            ==> picks_up(cur[y], pre[y], pre[valid_base(cfg, pre.dom(), y).unwrap()])
}

pub open spec fn strings_set(v: Seq<String>) -> Set<Seq<char>> {
    views(v).to_set()
}

pub open spec fn resolve_measure(dom: Set<Seq<char>>, rg: Set<Seq<char>>, x: Seq<char>) -> nat {
    2 * dom.difference(rg).len() + if dom.contains(x) {
        0nat
    } else {
        1nat
    }
}

proof fn lemma_measure_decreases(dom: Set<Seq<char>>, rg: Set<Seq<char>>, x: Seq<char>, b: Seq<char>)
    requires
        dom.finite(),
        dom.contains(b),
        !rg.contains(x),
    ensures
        resolve_measure(dom, rg.insert(x), b) < resolve_measure(dom, rg, x),
{
    let d0 = dom.difference(rg);
    let d1 = dom.difference(rg.insert(x));
    assert(d0.finite());
    if dom.contains(x) {
        assert(d1 =~= d0.remove(x));
        assert(d0.contains(x));
        assert(d1.len() == d0.len() - 1);
    } else {
        assert(d1 =~= d0);
    }
}

fn string_set_contains(v: &Vec<String>, s: &String) -> (r: bool)
    ensures
        r == strings_set(v@).contains(s@),
{
    let n = v.len();
    let mut i: usize = 0;
    while i < n
        invariant
            n == v@.len(),
            i <= n,
            forall|j: int| 0 <= j < i ==> v@[j]@ != s@,
        decreases n - i,
    {
        if v[i] == *s {
            assert(views(v@)[i as int] == s@);
            return true;
        }
        i = i + 1;
    }
    assert forall|j: int| 0 <= j < views(v@).len() implies views(v@)[j] != s@ by {
        assert(views(v@)[j] == v@[j]@);
    }
    false
}

proof fn lemma_strings_set_push(v: Seq<String>, s: String)
    ensures
        strings_set(v.push(s)) == strings_set(v).insert(s@),
{
    let a = views(v);
    let b = views(v.push(s));
    assert(b =~= a.push(s@));
    assert forall|x: Seq<char>| #[trigger] b.to_set().contains(x) == a.to_set().insert(s@).contains(x) by {
        if b.contains(x) {
            let i = choose|i: int| 0 <= i < b.len() && b[i] == x;
            if i < a.len() {
                assert(a[i] == x);
                assert(a.contains(x));
            }
        }
        if a.contains(x) {
            let i = choose|i: int| 0 <= i < a.len() && a[i] == x;
            assert(b[i] == x);
        }
        if x == s@ {
            assert(b[a.len() as int] == x);
        }
    }
    assert(b.to_set() =~= a.to_set().insert(s@));
}

fn runtime_position(rt: &Vec<(String, ChordRuntime)>, id: &String) -> (r: Option<usize>)
    requires
        unique_keys(runtime_pairs(rt@)),
    ensures
        r is None <==> !runtimes_map(rt@).dom().contains(id@),
        r matches Some(i) ==> i < rt@.len() && rt@[i as int].0@ == id@,
{
    let n = rt.len();
    let ghost p = runtime_pairs(rt@);
    let mut i: usize = 0;
    while i < n
        invariant
            n == rt@.len(),
            p == runtime_pairs(rt@),
            i <= n,
            forall|j: int| 0 <= j < i ==> #[trigger] p[j].0 != id@,
        decreases n - i,
    {
        if rt[i].0 == *id {
            proof {
                lemma_assoc_dom(p, id@);
                assert(p[i as int].0 == id@);
            }
            return Some(i);
        }
        assert(p[i as int].0 != id@);
        i = i + 1;
    }
    proof {
        lemma_assoc_absent(p, id@);
    }
    None
}

fn config_extends(cfg: &Vec<(String, Option<AppChordsFileConfig>)>, id: &String) -> (r: Option<String>)
    requires
        unique_keys(config_pairs(cfg@)),
    ensures
        match r {
            Some(b) => extends_of(configs_map(cfg@), id@) == Some(b@),
            None => extends_of(configs_map(cfg@), id@) is None,
        },
{
    let n = cfg.len();
    let ghost p = config_pairs(cfg@);
    let mut i: usize = 0;
    while i < n
        invariant
            n == cfg@.len(),
            p == config_pairs(cfg@),
            unique_keys(p),
            i <= n,
            forall|j: int| 0 <= j < i ==> #[trigger] p[j].0 != id@,
        decreases n - i,
    {
        if cfg[i].0 == *id {
            proof {
                lemma_assoc_lookup(p, i as int);
            }
            return match &cfg[i].1 {
                Some(c) => crate::chords::chord::copy_opt_string(&c.extends),
                None => None,
            };
        }
        assert(p[i as int].0 != id@);
        i = i + 1;
    }
    proof {
        lemma_assoc_absent(p, id@);
    }
    None
}

proof fn lemma_remove_push_runtime(s: Seq<(String, ChordRuntime)>, i: int, x: String, rt: ChordRuntime)
    requires
        runtimes_wf(s),
        0 <= i < s.len(),
        s[i].0@ == x@,
        rt.wf(),
    ensures
        runtimes_wf(s.remove(i).push((x, rt))),
        runtimes_map(s.remove(i).push((x, rt))) == runtimes_map(s).insert(x@, rt@),
        runtimes_map(s.remove(i)) == runtimes_map(s).remove(x@),
        unique_keys(runtime_pairs(s.remove(i))),
{
    let p = runtime_pairs(s);
    assert(runtime_pairs(s.remove(i)) =~= p.remove(i));
    lemma_assoc_remove(p, i);
    assert(p[i].0 == x@);
    lemma_assoc_dom(p.remove(i), x@);
    assert forall|j: int| 0 <= j < p.remove(i).len() implies #[trigger] p.remove(i)[j].0 != x@ by {
        let j2 = if j < i { j } else { j + 1 };
        assert(p.remove(i)[j] == p[j2]);
    }
    lemma_assoc_absent(p.remove(i), x@);
    lemma_assoc_push(p.remove(i), x@, rt@);
    assert(runtime_pairs(s.remove(i).push((x, rt))) =~= p.remove(i).push((x@, rt@)));
    assert(runtimes_map(s.remove(i).push((x, rt))) =~= runtimes_map(s).insert(x@, rt@));
    assert forall|j: int| 0 <= j < s.remove(i).push((x, rt)).len() implies (
    #[trigger] s.remove(i).push((x, rt))[j]).1.wf() by {
        if j < s.len() - 1 {
            let j2 = if j < i { j } else { j + 1 };
            assert(s.remove(i).push((x, rt))[j] == s[j2]);
        }
    }
}

proof fn lemma_resolve_extend(
    cur: Map<Seq<char>, RuntimeView>,
    pre: Map<Seq<char>, RuntimeView>,
    cfg: Map<Seq<char>, Option<ConfigView>>,
    r: Set<Seq<char>>,
    x: Seq<char>,
    b: Seq<char>,
    new_rt: RuntimeView,
)
    requires
        resolution_inv(cur, pre, cfg, r),
        pre.dom().contains(x),
        !r.contains(x),
        extends_of(cfg, x) == Some(b),
        pre.dom().contains(b),
        b != x,
        new_rt.path == cur[x].path,
        new_rt.config == cur[x].config,
        new_rt.chords == prefer(cur[x].chords, cur[b].chords),
        new_rt.raw == prefer(cur[x].raw, cur[b].raw),
    ensures
        resolution_inv(cur.insert(x, new_rt), pre, cfg, r.insert(x)),
{
    let c2 = cur.insert(x, new_rt);
    assert(cur[x] == pre[x]);
    assert(valid_base(cfg, pre.dom(), x) == Some(b));
    assert(grows(pre[b], cur[b]));
    assert(c2.dom() =~= pre.dom());
    assert forall|y: Seq<char>| #[trigger] pre.dom().contains(y) implies grows(pre[y], c2[y]) by {
        if y == x {
            assert(pre[x].chords.submap_of(new_rt.chords));
            assert(pre[x].raw.submap_of(new_rt.raw));
        }
    }
    assert(picks_up(c2[x], pre[x], pre[b]));
}

/// Resolves the `extends` of one runtime within a resolution pass: resolves its
/// base first, then adds the base's chords it lacks. `resolving` holds the runtimes
/// whose resolution is under way (a circular `extends` stops there), `resolved`
/// those that are done.
fn resolve_runtime_extends(
    application_id: &String,
    app_runtime_map: &mut Vec<(String, ChordRuntime)>,
    app_config_map: &Vec<(String, Option<AppChordsFileConfig>)>,
    resolved: &mut Vec<String>,
    resolving: &mut Vec<String>,
    Ghost(pre): Ghost<Map<Seq<char>, RuntimeView>>,
)
    requires
        runtimes_wf(old(app_runtime_map)@),
        unique_keys(config_pairs(app_config_map@)),
        resolution_inv(
            runtimes_map(old(app_runtime_map)@),
            pre,
            configs_map(app_config_map@),
            strings_set(old(resolved)@),
        ),
    ensures
        runtimes_wf(final(app_runtime_map)@),
        resolution_inv(
            runtimes_map(final(app_runtime_map)@),
            pre,
            configs_map(app_config_map@),
            strings_set(final(resolved)@),
        ),
        final(resolving)@ == old(resolving)@,
        strings_set(old(resolved)@).subset_of(strings_set(final(resolved)@)),
        forall|z: Seq<char>|
            #[trigger] strings_set(old(resolving)@).contains(z) ==> (strings_set(
                final(resolved)@,
            ).contains(z) == strings_set(old(resolved)@).contains(z)),
        strings_set(old(resolving)@).contains(application_id@) || strings_set(
            final(resolved)@,
        ).contains(application_id@) || !pre.dom().contains(application_id@),
    decreases resolve_measure(
        runtimes_map(app_runtime_map@).dom(),
        strings_set(resolving@),
        application_id@,
    ),
{
    if string_set_contains(resolved, application_id) {
        return;
    }
    if string_set_contains(resolving, application_id) {
        return;
    }
    let ghost cfg = configs_map(app_config_map@);
    let ghost rg0 = resolving@;
    let ghost r0 = resolved@;
    let ghost dom = pre.dom();
    resolving.push(copy_string(application_id));
    proof {
        lemma_strings_set_push(rg0, resolving@.last());
        assert(resolving@ == rg0.push(resolving@.last()));
    }
    let extends = config_extends(app_config_map, application_id);
    match extends {
        Some(base_application_id) => {
            match runtime_position(app_runtime_map, &base_application_id) {
                Some(_) => {
                    proof {
                        lemma_assoc_finite(runtime_pairs(app_runtime_map@));
                        lemma_measure_decreases(
                            runtimes_map(app_runtime_map@).dom(),
                            strings_set(rg0),
                            application_id@,
                            base_application_id@,
                        );
                    }
                    assert(strings_set(resolving@).contains(application_id@));
                    let ghost rg1 = resolving@;
                    resolve_runtime_extends(
                        &base_application_id,
                        app_runtime_map,
                        app_config_map,
                        resolved,
                        resolving,
                        Ghost(pre),
                    );
                    let ghost r1 = resolved@;
                    assert(!strings_set(r1).contains(application_id@));
                    assert forall|z: Seq<char>| #[trigger] strings_set(rg0).contains(z) implies (
                    strings_set(r1).contains(z) == strings_set(r0).contains(z)) by {
                        assert(strings_set(rg1).contains(z));
                    }
                    match runtime_position(app_runtime_map, application_id) {
                        None => {
                            resolving.pop();
                            assert(resolving@ =~= rg0);
                            return;
                        },
                        Some(i) => {
                            let ghost s = app_runtime_map@;
                            let ghost cur = runtimes_map(s);
                            proof {
                                lemma_assoc_lookup(runtime_pairs(s), i as int);
                                assert(runtime_pairs(s)[i as int] == (s[i as int].0@, s[i as int].1@));
                            }
                            let (x_id, mut app_runtime) = app_runtime_map.remove(i);
                            assert(s[i as int].1.wf());
                            assert(app_runtime@ == cur[application_id@]);
                            assert(cur[application_id@] == pre[application_id@]);
                            proof {
                                lemma_remove_push_runtime(s, i as int, x_id, app_runtime);
                            }
                            let ghost s2 = app_runtime_map@;
                            assert(s2 == s.remove(i as int));
                            match runtime_position(app_runtime_map, &base_application_id) {
                                Some(j) => {
                                    let ghost cur_b = cur[base_application_id@];
                                    proof {
                                        lemma_assoc_lookup(runtime_pairs(s2), j as int);
                                        assert(runtime_pairs(s2)[j as int] == (s2[j as int].0@, s2[j as int].1@));
                                        let j2 = if j < i { j as int } else { j as int + 1 };
                                        assert(s2[j as int] == s[j2]);
                                    }
                                    let base = &app_runtime_map[j].1;
                                    assert(base@ == cur[base_application_id@]);
                                    app_runtime.extend_runtime(base);
                                },
                                None => {
                                    assert(base_application_id@ == application_id@);
                                },
                            }
                            let ghost new_rt = app_runtime@;
                            app_runtime_map.push((x_id, app_runtime));
                            proof {
                                lemma_remove_push_runtime(s, i as int, x_id, app_runtime);
                                assert(app_runtime_map@ == s.remove(i as int).push((x_id, app_runtime)));
                                if base_application_id@ != application_id@ {
                                    lemma_resolve_extend(
                                        cur,
                                        pre,
                                        cfg,
                                        strings_set(r1),
                                        application_id@,
                                        base_application_id@,
                                        new_rt,
                                    );
                                } else {
                                    assert(cur.insert(application_id@, new_rt) =~= cur);
                                }
                            }
                            resolving.pop();
                            assert(resolving@ =~= rg0);
                            let ghost rb = resolved@;
                            resolved.push(copy_string(application_id));
                            proof {
                                lemma_strings_set_push(rb, resolved@.last());
                                assert(resolved@ == rb.push(resolved@.last()));
                                assert(strings_set(resolved@) =~= strings_set(rb).insert(application_id@));
                            }
                            return;
                        },
                    }
                },
                None => {},
            }
        },
        None => {},
    }
    resolving.pop();
    assert(resolving@ =~= rg0);
    let ghost rb = resolved@;
    resolved.push(copy_string(application_id));
    proof {
        lemma_strings_set_push(rb, resolved@.last());
        assert(resolved@ == rb.push(resolved@.last()));
        assert(strings_set(resolved@) =~= strings_set(rb).insert(application_id@));
    }
}


/// What one resolution pass guarantees, relative to the runtimes `pre` before it:
/// the same runtimes, each with at least its chords; a runtime that extends
/// another existing runtime holds all of that one's chords (with the base's value
/// wherever it had none); every other runtime is unchanged.
pub open spec fn pass_post(
    post: Map<Seq<char>, RuntimeView>,
    pre: Map<Seq<char>, RuntimeView>,
    cfg: Map<Seq<char>, Option<ConfigView>>,
) -> bool {
    &&& post.dom() == pre.dom()
    &&& forall|y: Seq<char>| #[trigger] pre.dom().contains(y) ==> grows(pre[y], post[y])
    &&& forall|y: Seq<char>|
        #[trigger] pre.dom().contains(y) && valid_base(cfg, pre.dom(), y) is None ==> post[y] == pre[y]
    &&& forall|y: Seq<char>|
        #[trigger] pre.dom().contains(y) && valid_base(cfg, pre.dom(), y) is Some ==> picks_up(
            post[y],
            pre[y],
            pre[valid_base(cfg, pre.dom(), y).unwrap()],
        )
}

/// Resolves `extends` for every runtime.
fn resolve_all_extends(
    app_runtime_map: &mut Vec<(String, ChordRuntime)>,
    app_config_map: &Vec<(String, Option<AppChordsFileConfig>)>,
)
    requires
        runtimes_wf(old(app_runtime_map)@),
        unique_keys(config_pairs(app_config_map@)),
    ensures
        runtimes_wf(final(app_runtime_map)@),
        pass_post(
            runtimes_map(final(app_runtime_map)@),
            runtimes_map(old(app_runtime_map)@),
            configs_map(app_config_map@),
        ),
{
    let ghost pre = runtimes_map(app_runtime_map@);
    let ghost cfg = configs_map(app_config_map@);
    let n = app_runtime_map.len();
    let mut ids: Vec<String> = Vec::new();
    let mut k: usize = 0;
    while k < n
        invariant
            n == app_runtime_map@.len(),
            k <= n,
            ids@.len() == k,
            forall|j: int| 0 <= j < k ==> #[trigger] ids@[j]@ == app_runtime_map@[j].0@,
        decreases n - k,
    {
        ids.push(copy_string(&app_runtime_map[k].0));
        k = k + 1;
    }
    let ghost keys0 = app_runtime_map@;
    let mut resolved: Vec<String> = Vec::new();
    let mut resolving: Vec<String> = Vec::new();
    proof {
        assert(strings_set(resolved@) =~= Set::empty());
        assert forall|j: int| 0 <= j < n implies pre.dom().contains(#[trigger] ids@[j]@) by {
            lemma_assoc_dom(runtime_pairs(keys0), ids@[j]@);
            assert(runtime_pairs(keys0)[j].0 == ids@[j]@);
        }
    }
    let mut i: usize = 0;
    while i < n
        invariant
            n == ids@.len(),
            i <= n,
            forall|j: int| 0 <= j < n ==> pre.dom().contains(#[trigger] ids@[j]@),
            runtimes_wf(app_runtime_map@),
            unique_keys(config_pairs(app_config_map@)),
            cfg == configs_map(app_config_map@),
            resolution_inv(runtimes_map(app_runtime_map@), pre, cfg, strings_set(resolved@)),
            resolving@ == Seq::<String>::empty(),
            forall|j: int| 0 <= j < i ==> strings_set(resolved@).contains(#[trigger] ids@[j]@),
        decreases n - i,
    {
        let ghost r_before = strings_set(resolved@);
        resolve_runtime_extends(
            &ids[i],
            app_runtime_map,
            app_config_map,
            &mut resolved,
            &mut resolving,
            Ghost(pre),
        );
        proof {
            assert(strings_set(Seq::<String>::empty()) =~= Set::empty());
            assert(pre.dom().contains(ids@[i as int]@));
            assert forall|j: int| 0 <= j < i + 1 implies strings_set(resolved@).contains(
                #[trigger] ids@[j]@,
            ) by {
                if j < i {
                    assert(r_before.contains(ids@[j]@));
                }
            }
        }
        i = i + 1;
    }
    proof {
        assert forall|y: Seq<char>| #[trigger] pre.dom().contains(y) implies strings_set(
            resolved@,
        ).contains(y) by {
            lemma_assoc_dom(runtime_pairs(keys0), y);
            let j = choose|j: int| 0 <= j < runtime_pairs(keys0).len() && #[trigger] runtime_pairs(
                keys0,
            )[j].0 == y;
            assert(ids@[j]@ == y);
        }
    }
}


/// The chords files of the given folders, in order.
pub open spec fn folder_files(folders: Seq<ChordFolder>) -> Seq<(String, AppChordsFile)>
    decreases folders.len(),
{
    if folders.len() == 0 {
        Seq::empty()
    } else {
        folder_files(folders.drop_last()) + chords_file_entries(folders.last().chords_files)
    }
}

/// Every file is well formed.
pub open spec fn files_wf(fs: Seq<(String, AppChordsFile)>) -> bool {
    forall|j: int| 0 <= j < fs.len() ==> (#[trigger] fs[j]).1.wf()
}

/// The ids of the runtimes that the files give.
pub open spec fn loaded_ids(fs: Seq<(String, AppChordsFile)>) -> Set<Seq<char>> {
    Set::new(
        |id: Seq<char>|
            exists|j: int| 0 <= j < fs.len() && spec_runtime_id(#[trigger] fs[j].0@) == Some(id),
    )
}

/// The position of the last file that gives the runtime `id`.
pub open spec fn last_file(fs: Seq<(String, AppChordsFile)>, id: Seq<char>) -> Option<int>
    decreases fs.len(),
{
    if fs.len() == 0 {
        None
    } else if spec_runtime_id(fs.last().0@) == Some(id) {
        Some(fs.len() - 1)
    } else {
        last_file(fs.drop_last(), id)
    }
}

/// The last file that gives the runtime `id`.
pub open spec fn last_file_of(fs: Seq<(String, AppChordsFile)>, id: Seq<char>) -> (
    String,
    AppChordsFile,
) {
    fs[last_file(fs, id).unwrap()]
}

/// The runtime id that a config says it extends.
pub open spec fn view_extends(c: Option<ConfigView>) -> Option<Seq<char>> {
    match c {
        Some(c) => c.extends,
        None => None,
    }
}

/// A runtime as loaded from the chords file at `path`: the file's path and
/// config, at least the file's own chords and entries, and exactly those when
/// the file extends nothing.
pub open spec fn runtime_of_file(r: RuntimeView, path: Seq<char>, file: AppChordsFile) -> bool {
    &&& r.path == path
    &&& r.config == config_view(file.config)
    &&& shallow_chords(file.chords@).submap_of(r.chords)
    &&& raw_map(file.chords@).submap_of(r.raw)
    &&& view_extends(r.config) is None ==> r.chords == shallow_chords(file.chords@) && r.raw
        == raw_map(file.chords@)
}

/// One runtime per id that the files give, loaded from the last file that gives it.
pub open spec fn loaded_from(rt: Map<Seq<char>, RuntimeView>, fs: Seq<(String, AppChordsFile)>) -> bool {
    &&& rt.dom() == loaded_ids(fs)
    &&& forall|id: Seq<char>|
        #[trigger] rt.dom().contains(id) ==> runtime_of_file(
            rt[id],
            last_file_of(fs, id).0@,
            last_file_of(fs, id).1,
        )
}

/// Every runtime that extends another loaded runtime holds the chords and
/// entries of that runtime's file.
pub open spec fn extends_followed(rt: Map<Seq<char>, RuntimeView>, fs: Seq<(String, AppChordsFile)>) -> bool {
    forall|id: Seq<char>|
        #[trigger] rt.dom().contains(id) ==> match view_extends(rt[id].config) {
            Some(b) => rt.dom().contains(b) && b != id ==> {
                &&& shallow_chords(last_file_of(fs, b).1.chords@).dom().subset_of(rt[id].chords.dom())
                &&& raw_map(last_file_of(fs, b).1.chords@).dom().subset_of(rt[id].raw.dom())
            },
            None => true,
        }
}

/// The global chord sequences of a runtime's chords, each mapped to the runtime.
pub open spec fn global_additions(chords: Map<Seq<Seq<char>>, ChordView>, id: Seq<char>) -> Map<
    Seq<Seq<char>>,
    Seq<char>,
> {
    Map::new(
        |k: Seq<Seq<char>>| chords.dom().contains(k) && is_global_sequence(k),
        |k: Seq<Seq<char>>| id,
    )
}

/// The runtime of each global chord sequence after loading the files in order
/// (a later file wins).
pub open spec fn global_fold(fs: Seq<(String, AppChordsFile)>) -> Map<Seq<Seq<char>>, Seq<char>>
    decreases fs.len(),
{
    if fs.len() == 0 {
        Map::empty()
    } else {
        let m = global_fold(fs.drop_last());
        match spec_runtime_id(fs.last().0@) {
            Some(id) => m.union_prefer_right(global_additions(shallow_chords(fs.last().1.chords@), id)),
            None => m,
        }
    }
}

/// The file configs by id are those of the runtimes.
pub open spec fn configs_agree(cfg: Map<Seq<char>, Option<ConfigView>>, rt: Map<Seq<char>, RuntimeView>) -> bool {
    &&& cfg.dom() == rt.dom()
    &&& forall|id: Seq<char>| #[trigger] rt.dom().contains(id) ==> cfg[id] == rt[id].config
}

proof fn lemma_last_file(fs: Seq<(String, AppChordsFile)>, id: Seq<char>)
    ensures
        last_file(fs, id) is Some <==> loaded_ids(fs).contains(id),
        last_file(fs, id) matches Some(j) ==> 0 <= j < fs.len() && spec_runtime_id(fs[j].0@) == Some(
            id,
        ),
    decreases fs.len(),
{
    if fs.len() > 0 {
        let d = fs.drop_last();
        lemma_last_file(d, id);
        if spec_runtime_id(fs.last().0@) == Some(id) {
            assert(spec_runtime_id(fs[fs.len() - 1].0@) == Some(id));
        } else {
            if loaded_ids(fs).contains(id) {
                let j = choose|j: int| 0 <= j < fs.len() && spec_runtime_id(#[trigger] fs[j].0@) == Some(id);
                assert(j < fs.len() - 1);
                assert(d[j] == fs[j]);
                assert(loaded_ids(d).contains(id));
            }
            if loaded_ids(d).contains(id) {
                let j = choose|j: int| 0 <= j < d.len() && spec_runtime_id(#[trigger] d[j].0@) == Some(id);
                assert(d[j] == fs[j]);
            }
            if let Some(j) = last_file(d, id) {
                assert(d[j] == fs[j]);
            }
        }
    }
}

proof fn lemma_push_file(fs: Seq<(String, AppChordsFile)>, f: (String, AppChordsFile))
    ensures
        forall|id: Seq<char>|
            #[trigger] last_file(fs.push(f), id) == if spec_runtime_id(f.0@) == Some(id) {
                Some(fs.len() as int)
            } else {
                last_file(fs, id)
            },
        loaded_ids(fs.push(f)) == match spec_runtime_id(f.0@) {
            Some(x) => loaded_ids(fs).insert(x),
            None => loaded_ids(fs),
        },
        global_fold(fs.push(f)) == match spec_runtime_id(f.0@) {
            Some(x) => global_fold(fs).union_prefer_right(global_additions(shallow_chords(f.1.chords@), x)),
            None => global_fold(fs),
        },
{
    let t = fs.push(f);
    assert(t.drop_last() =~= fs);
    assert(t.last() == f);
    let l = match spec_runtime_id(f.0@) {
        Some(x) => loaded_ids(fs).insert(x),
        None => loaded_ids(fs),
    };
    assert forall|id: Seq<char>| #[trigger] loaded_ids(t).contains(id) == l.contains(id) by {
        if loaded_ids(t).contains(id) {
            let j = choose|j: int| 0 <= j < t.len() && spec_runtime_id(#[trigger] t[j].0@) == Some(id);
            if j < fs.len() {
                assert(t[j] == fs[j]);
                assert(loaded_ids(fs).contains(id));
            }
        }
        if loaded_ids(fs).contains(id) {
            let j = choose|j: int| 0 <= j < fs.len() && spec_runtime_id(#[trigger] fs[j].0@) == Some(id);
            assert(t[j] == fs[j]);
        }
        if spec_runtime_id(f.0@) == Some(id) {
            assert(t[fs.len() as int] == f);
        }
    }
    assert(loaded_ids(t) =~= l);
}

proof fn lemma_folder_files_step(folders: Seq<ChordFolder>, k: int)
    requires
        0 <= k < folders.len(),
    ensures
        folder_files(folders.take(k + 1)) == folder_files(folders.take(k)) + chords_file_entries(folders[k].chords_files),
{
    let t = folders.take(k + 1);
    assert(t.drop_last() =~= folders.take(k));
    assert(t.last() == folders[k]);
}

/// After a resolution pass, the runtimes are still those loaded from the files,
/// and every `extends` of another loaded runtime is followed.
proof fn lemma_pass_loaded(
    post: Map<Seq<char>, RuntimeView>,
    pre: Map<Seq<char>, RuntimeView>,
    cfg: Map<Seq<char>, Option<ConfigView>>,
    fs: Seq<(String, AppChordsFile)>,
)
    requires
        pass_post(post, pre, cfg),
        loaded_from(pre, fs),
        configs_agree(cfg, pre),
    ensures
        loaded_from(post, fs),
        extends_followed(post, fs),
        configs_agree(cfg, post),
{
    assert forall|id: Seq<char>| #[trigger] post.dom().contains(id) implies runtime_of_file(
        post[id],
        last_file_of(fs, id).0@,
        last_file_of(fs, id).1,
    ) by {
        assert(pre.dom().contains(id));
        assert(grows(pre[id], post[id]));
        let file = last_file_of(fs, id).1;
        assert(runtime_of_file(pre[id], last_file_of(fs, id).0@, file));
        let sc = shallow_chords(file.chords@);
        let rw = raw_map(file.chords@);
        assert forall|k: Seq<Seq<char>>| #[trigger] sc.dom().contains(k) implies post[id].chords.dom().contains(k)
            && sc[k] == post[id].chords[k] by {
            assert(pre[id].chords.dom().contains(k));
        }
        assert forall|k: Seq<char>| #[trigger] rw.dom().contains(k) implies post[id].raw.dom().contains(k)
            && rw[k] == post[id].raw[k] by {
            assert(pre[id].raw.dom().contains(k));
        }
        if view_extends(post[id].config) is None {
            assert(extends_of(cfg, id) is None);
            assert(valid_base(cfg, pre.dom(), id) is None);
        }
    }
    assert forall|id: Seq<char>| #[trigger] post.dom().contains(id) implies match view_extends(
        post[id].config,
    ) {
        Some(b) => post.dom().contains(b) && b != id ==> {
            &&& shallow_chords(last_file_of(fs, b).1.chords@).dom().subset_of(post[id].chords.dom())
            &&& raw_map(last_file_of(fs, b).1.chords@).dom().subset_of(post[id].raw.dom())
        },
        None => true,
    } by {
        assert(pre.dom().contains(id));
        assert(grows(pre[id], post[id]));
        match view_extends(post[id].config) {
            Some(b) => {
                if post.dom().contains(b) && b != id {
                    assert(extends_of(cfg, id) == Some(b));
                    assert(valid_base(cfg, pre.dom(), id) == Some(b));
                    assert(picks_up(post[id], pre[id], pre[b]));
                    assert(pre.dom().contains(b));
                    let fb = last_file_of(fs, b).1;
                    assert(runtime_of_file(pre[b], last_file_of(fs, b).0@, fb));
                    assert(shallow_chords(fb.chords@).dom().subset_of(pre[b].chords.dom()));
                    assert(raw_map(fb.chords@).dom().subset_of(pre[b].raw.dom()));
                }
            },
            None => {},
        }
    }
    assert forall|id: Seq<char>| #[trigger] post.dom().contains(id) implies cfg[id] == post[id].config by {
        assert(pre.dom().contains(id));
        assert(grows(pre[id], post[id]));
    }
}

/// Adds a global chord sequence, replacing its runtime if it has one.
fn insert_global(g: &mut Vec<(Vec<Key>, String)>, keys: Vec<Key>, id: String)
    requires
        unique_keys(global_pairs(old(g)@)),
    ensures
        unique_keys(global_pairs(final(g)@)),
        global_map(final(g)@) == global_map(old(g)@).insert(key_names(keys@), id@),
{
    let ghost p = global_pairs(g@);
    let n = g.len();
    let mut i: usize = 0;
    while i < n
        invariant
            n == g@.len(),
            g@ == old(g)@,
            p == global_pairs(g@),
            unique_keys(p),
            i <= n,
            forall|j: int| 0 <= j < i ==> #[trigger] p[j].0 != key_names(keys@),
        decreases n - i,
    {
        if same_keys(&g[i].0, &keys) {
            assert(p[i as int].0 == key_names(keys@));
            proof {
                lemma_assoc_update(p, i as int, id@);
            }
            let old_keys = copy_keys(&g[i].0);
            g.set(i, (old_keys, id));
            assert(global_pairs(g@) =~= p.update(i as int, (p[i as int].0, id@)));
            return;
        }
        assert(p[i as int].0 != key_names(keys@));
        i = i + 1;
    }
    proof {
        lemma_assoc_absent(p, key_names(keys@));
        lemma_assoc_push(p, key_names(keys@), id@);
    }
    g.push((keys, id));
    assert(global_pairs(g@) =~= p.push((key_names(keys@), id@)));
}

/// Maps every global chord sequence of `table` to the runtime `id`.
fn add_global_chords(g: &mut Vec<(Vec<Key>, String)>, table: &ChordTable, id: &String)
    requires
        unique_keys(global_pairs(old(g)@)),
        table.wf(),
    ensures
        unique_keys(global_pairs(final(g)@)),
        global_map(final(g)@) == global_map(old(g)@).union_prefer_right(
            global_additions(table.map(), id@),
        ),
{
    let ghost g0 = global_map(g@);
    let ghost pairs = chord_pairs(table.entries@);
    let n = table.entries.len();
    let mut i: usize = 0;
    assert(global_additions(assoc_map(pairs.take(0)), id@) =~= Map::empty());
    assert(g0.union_prefer_right(Map::empty()) =~= g0);
    while i < n
        invariant
            n == table.entries@.len(),
            pairs == chord_pairs(table.entries@),
            i <= n,
            unique_keys(global_pairs(g@)),
            global_map(g@) == g0.union_prefer_right(global_additions(assoc_map(pairs.take(i as int)), id@)),
        decreases n - i,
    {
        let ghost before = global_map(g@);
        let ghost m = assoc_map(pairs.take(i as int));
        let ghost k = pairs[i as int].0;
        assert(pairs.take(i as int + 1).drop_last() =~= pairs.take(i as int));
        assert(pairs.take(i as int + 1).last() == pairs[i as int]);
        assert(assoc_map(pairs.take(i as int + 1)) == m.insert(k, pairs[i as int].1));
        assert(k == key_names(table.entries@[i as int].0@));
        if is_global_chord_sequence(&table.entries[i].0) {
            insert_global(g, copy_keys(&table.entries[i].0), copy_string(id));
            assert(global_additions(m.insert(k, pairs[i as int].1), id@) =~= global_additions(m, id@).insert(k, id@));
            assert(before.insert(k, id@) =~= g0.union_prefer_right(global_additions(m, id@).insert(k, id@)));
        } else {
            assert(global_additions(m.insert(k, pairs[i as int].1), id@) =~= global_additions(m, id@));
        }
        i = i + 1;
    }
    assert(pairs.take(n as int) =~= pairs);
}

/// Adds a runtime, replacing the one with the same id if there is one.
fn insert_runtime(rt: &mut Vec<(String, ChordRuntime)>, id: String, r: ChordRuntime)
    requires
        runtimes_wf(old(rt)@),
        r.wf(),
    ensures
        runtimes_wf(final(rt)@),
        runtimes_map(final(rt)@) == runtimes_map(old(rt)@).insert(id@, r@),
{
    let ghost s = rt@;
    match runtime_position(rt, &id) {
        Some(i) => {
            proof {
                lemma_assoc_update(runtime_pairs(s), i as int, r@);
            }
            rt.set(i, (id, r));
            assert(runtime_pairs(rt@) =~= runtime_pairs(s).update(
                i as int,
                (runtime_pairs(s)[i as int].0, r@),
            ));
            assert forall|j: int| 0 <= j < rt@.len() implies (#[trigger] rt@[j]).1.wf() by {
                if j != i {
                    assert(rt@[j] == s[j]);
                }
            }
        },
        None => {
            proof {
                lemma_assoc_push(runtime_pairs(s), id@, r@);
            }
            rt.push((id, r));
            assert(runtime_pairs(rt@) =~= runtime_pairs(s).push((id@, r@)));
            assert forall|j: int| 0 <= j < rt@.len() implies (#[trigger] rt@[j]).1.wf() by {
                if j < s.len() {
                    assert(rt@[j] == s[j]);
                }
            }
        },
    }
}

/// Records the config of a runtime, replacing the one with the same id if there is one.
fn insert_config(
    cfg: &mut Vec<(String, Option<AppChordsFileConfig>)>,
    id: String,
    c: Option<AppChordsFileConfig>,
)
    requires
        unique_keys(config_pairs(old(cfg)@)),
    ensures
        unique_keys(config_pairs(final(cfg)@)),
        configs_map(final(cfg)@) == configs_map(old(cfg)@).insert(id@, config_view(c)),
{
    let ghost p = config_pairs(cfg@);
    let n = cfg.len();
    let mut i: usize = 0;
    while i < n
        invariant
            n == cfg@.len(),
            cfg@ == old(cfg)@,
            p == config_pairs(cfg@),
            unique_keys(p),
            i <= n,
            forall|j: int| 0 <= j < i ==> #[trigger] p[j].0 != id@,
        decreases n - i,
    {
        if cfg[i].0 == id {
            assert(p[i as int].0 == id@);
            proof {
                lemma_assoc_update(p, i as int, config_view(c));
            }
            cfg.set(i, (id, c));
            assert(config_pairs(cfg@) =~= p.update(i as int, (p[i as int].0, config_view(c))));
            return;
        }
        assert(p[i as int].0 != id@);
        i = i + 1;
    }
    proof {
        lemma_assoc_absent(p, id@);
        lemma_assoc_push(p, id@, config_view(c));
    }
    cfg.push((id, c));
    assert(config_pairs(cfg@) =~= p.push((id@, config_view(c))));
}


proof fn lemma_load_file(
    rt: Map<Seq<char>, RuntimeView>,
    cfg: Map<Seq<char>, Option<ConfigView>>,
    fs: Seq<(String, AppChordsFile)>,
    f: (String, AppChordsFile),
    new_rt: RuntimeView,
)
    requires
        loaded_from(rt, fs),
        configs_agree(cfg, rt),
        spec_runtime_id(f.0@) is Some,
        new_rt.path == f.0@,
        new_rt.config == config_view(f.1.config),
        new_rt.chords == shallow_chords(f.1.chords@),
        new_rt.raw == raw_map(f.1.chords@),
    ensures
        loaded_from(rt.insert(spec_runtime_id(f.0@).unwrap(), new_rt), fs.push(f)),
        configs_agree(
            cfg.insert(spec_runtime_id(f.0@).unwrap(), new_rt.config),
            rt.insert(spec_runtime_id(f.0@).unwrap(), new_rt),
        ),
{
    let x = spec_runtime_id(f.0@).unwrap();
    let t = fs.push(f);
    let rt2 = rt.insert(x, new_rt);
    lemma_push_file(fs, f);
    assert(rt2.dom() =~= loaded_ids(t));
    assert forall|id: Seq<char>| #[trigger] rt2.dom().contains(id) implies runtime_of_file(
        rt2[id],
        last_file_of(t, id).0@,
        last_file_of(t, id).1,
    ) by {
        assert(last_file(t, id) == if id == x {
            Some(fs.len() as int)
        } else {
            last_file(fs, id)
        });
        if id == x {
            assert(t[fs.len() as int] == f);
        } else {
            lemma_last_file(fs, id);
            let j = last_file(fs, id).unwrap();
            assert(t[j] == fs[j]);
        }
    }
    assert(cfg.insert(x, new_rt.config).dom() =~= rt2.dom());
}

proof fn lemma_skip_file(
    rt: Map<Seq<char>, RuntimeView>,
    fs: Seq<(String, AppChordsFile)>,
    f: (String, AppChordsFile),
)
    requires
        loaded_from(rt, fs),
        spec_runtime_id(f.0@) is None,
    ensures
        loaded_from(rt, fs.push(f)),
{
    let t = fs.push(f);
    lemma_push_file(fs, f);
    assert forall|id: Seq<char>| #[trigger] rt.dom().contains(id) implies runtime_of_file(
        rt[id],
        last_file_of(t, id).0@,
        last_file_of(t, id).1,
    ) by {
        assert(last_file(t, id) == last_file(fs, id));
        lemma_last_file(fs, id);
        let j = last_file(fs, id).unwrap();
        assert(t[j] == fs[j]);
    }
}

impl LoadedAppChords {
    /// Loads the chords files of the folders in order. Each file
    /// `chords/**/macos.toml` gives the runtime of its id (a later file of the same
    /// id replaces an earlier one); its global chord sequences are mapped to that
    /// runtime (a later file wins). After each folder, every runtime whose config
    /// extends another loaded runtime takes in that runtime's chords.
    pub fn from_folders(chord_folders: Vec<ChordFolder>) -> (r: LoadedAppChords)
        requires
            files_wf(folder_files(chord_folders@)),
        ensures
            runtimes_wf(r.runtimes@),
            unique_keys(global_pairs(r.global_chords_to_runtime_key@)),
            global_map(r.global_chords_to_runtime_key@) == global_fold(folder_files(chord_folders@)),
            loaded_from(runtimes_map(r.runtimes@), folder_files(chord_folders@)),
            extends_followed(runtimes_map(r.runtimes@), folder_files(chord_folders@)),
    {
        let ghost folders0 = chord_folders@;
        let ghost nf = folders0.len() as int;
        let mut folders = chord_folders;
        let mut global: Vec<(Vec<Key>, String)> = Vec::new();
        let mut runtimes: Vec<(String, ChordRuntime)> = Vec::new();
        let mut configs: Vec<(String, Option<AppChordsFileConfig>)> = Vec::new();
        let ghost mut k: int = 0;
        proof {
            assert(folders0.take(0) =~= Seq::<ChordFolder>::empty());
            assert(folder_files(folders0.take(0)) == Seq::<(String, AppChordsFile)>::empty());
            assert(loaded_ids(Seq::<(String, AppChordsFile)>::empty()) =~= Set::empty());
            assert(runtime_pairs(runtimes@) =~= Seq::empty());
            assert(config_pairs(configs@) =~= Seq::empty());
            assert(global_pairs(global@) =~= Seq::empty());
            assert(folders@ =~= folders0.subrange(0, nf));
        }
        while folders.len() > 0
            invariant
                0 <= k <= nf,
                nf == folders0.len(),
                folders@ == folders0.subrange(k, nf),
                files_wf(folder_files(folders0)),
                runtimes_wf(runtimes@),
                unique_keys(config_pairs(configs@)),
                unique_keys(global_pairs(global@)),
                configs_agree(configs_map(configs@), runtimes_map(runtimes@)),
                loaded_from(runtimes_map(runtimes@), folder_files(folders0.take(k))),
                extends_followed(runtimes_map(runtimes@), folder_files(folders0.take(k))),
                global_map(global@) == global_fold(folder_files(folders0.take(k))),
            decreases folders.len(),
        {
            let ghost done = folder_files(folders0.take(k));
            proof {
                lemma_folder_files_step(folders0, k);
                lemma_files_prefix_wf(folders0, k + 1);
            }
            let folder = folders.remove(0);
            assert(folder == folders0[k]);
            let mut files = chords_file_list(folder.chords_files);
            let ghost files0 = files@;
            let ghost nfi = files0.len() as int;
            let ghost mut i: int = 0;
            assert(files0.take(0) =~= Seq::<(String, AppChordsFile)>::empty());
            assert(done + files0.take(0) =~= done);
            assert(files@ =~= files0.subrange(0, nfi));
            while files.len() > 0
                invariant
                    0 <= i <= nfi,
                    nfi == files0.len(),
                    files@ == files0.subrange(i, nfi),
                    files_wf(done + files0),
                    runtimes_wf(runtimes@),
                    unique_keys(config_pairs(configs@)),
                    unique_keys(global_pairs(global@)),
                    configs_agree(configs_map(configs@), runtimes_map(runtimes@)),
                    loaded_from(runtimes_map(runtimes@), done + files0.take(i)),
                    global_map(global@) == global_fold(done + files0.take(i)),
                decreases files.len(),
            {
                let ghost fs = done + files0.take(i);
                let (path, file) = files.remove(0);
                let ghost f = (path, file);
                assert(f == files0[i]);
                assert(fs.push(f) =~= done + files0.take(i + 1));
                assert((done + files0)[done.len() + i] == f);
                assert(file.wf());
                proof {
                    lemma_push_file(fs, f);
                }
                match runtime_id_from_chords_path(path.as_str()) {
                    None => {
                        proof {
                            lemma_skip_file(runtimes_map(runtimes@), fs, f);
                        }
                    },
                    Some(runtime_id) => {
                        let ghost rt0 = runtimes_map(runtimes@);
                        let ghost cfg0 = configs_map(configs@);
                        let config = copy_config(&file.config);
                        let runtime = ChordRuntime::from_file_shallow(path, file);
                        add_global_chords(&mut global, &runtime.chords, &runtime_id);
                        insert_config(&mut configs, copy_string(&runtime_id), config);
                        proof {
                            lemma_load_file(rt0, cfg0, fs, f, runtime@);
                        }
                        insert_runtime(&mut runtimes, runtime_id, runtime);
                    },
                }
                proof {
                    i = i + 1;
                }
                assert(files@ =~= files0.subrange(i, nfi));
            }
            assert(files0.take(nfi) =~= files0);
            let ghost pre = runtimes_map(runtimes@);
            resolve_all_extends(&mut runtimes, &configs);
            proof {
                lemma_pass_loaded(
                    runtimes_map(runtimes@),
                    pre,
                    configs_map(configs@),
                    folder_files(folders0.take(k + 1)),
                );
                k = k + 1;
            }
            assert(folders@ =~= folders0.subrange(k, nf));
        }
        assert(folders0.take(nf) =~= folders0);
        LoadedAppChords { global_chords_to_runtime_key: global, runtimes }
    }
}

proof fn lemma_files_prefix_wf(folders: Seq<ChordFolder>, k: int)
    requires
        0 <= k <= folders.len(),
        files_wf(folder_files(folders)),
    ensures
        files_wf(folder_files(folders.take(k))),
    decreases folders.len(),
{
    if k < folders.len() {
        let d = folders.drop_last();
        assert(folder_files(folders) == folder_files(d) + chords_file_entries(folders.last().chords_files));
        assert forall|j: int| 0 <= j < folder_files(d).len() implies (#[trigger] folder_files(d)[j]).1.wf() by {
            assert(folder_files(folders)[j] == folder_files(d)[j]);
        }
        lemma_files_prefix_wf(d, k);
        assert(d.take(k) =~= folders.take(k));
    } else {
        assert(folders.take(k) =~= folders);
    }
}


/// The runtime id that a typed sequence belongs to: a global sequence belongs
/// to the runtime it is mapped to, any other to the frontmost application's.
pub open spec fn sequence_runtime_id(
    global: Map<Seq<Seq<char>>, Seq<char>>,
    names: Seq<Seq<char>>,
    application_id: Option<Seq<char>>,
) -> Option<Seq<char>> {
    if is_global_sequence(names) {
        if global.dom().contains(names) {
            Some(global[names])
        } else {
            None
        }
    } else {
        application_id
    }
}

fn global_lookup<'a>(g: &'a Vec<(Vec<Key>, String)>, keys: &Vec<Key>) -> (r: Option<&'a String>)
    requires
        unique_keys(global_pairs(g@)),
    ensures
        r is None <==> !global_map(g@).dom().contains(key_names(keys@)),
        r matches Some(id) ==> global_map(g@)[key_names(keys@)] == id@,
{
    let ghost p = global_pairs(g@);
    let n = g.len();
    let mut i: usize = 0;
    while i < n
        invariant
            n == g@.len(),
            p == global_pairs(g@),
            unique_keys(p),
            i <= n,
            forall|j: int| 0 <= j < i ==> #[trigger] p[j].0 != key_names(keys@),
        decreases n - i,
    {
        if same_keys(&g[i].0, keys) {
            assert(p[i as int].0 == key_names(keys@));
            proof {
                lemma_assoc_lookup(p, i as int);
            }
            return Some(&g[i].1);
        }
        assert(p[i as int].0 != key_names(keys@));
        i = i + 1;
    }
    proof {
        lemma_assoc_absent(p, key_names(keys@));
    }
    None
}

impl LoadedAppChords {
    /// No runtime id and no global sequence occurs twice; every runtime is well formed.
    pub open spec fn wf(&self) -> bool {
        &&& runtimes_wf(self.runtimes@)
        &&& unique_keys(global_pairs(self.global_chords_to_runtime_key@))
    }

    /// The runtime that a typed sequence belongs to (see [`sequence_runtime_id`]),
    /// if it is loaded. `application_id` is that of the frontmost application.
    pub fn get_chord_runtime(&self, sequence: &Vec<Key>, application_id: Option<String>) -> (r: Option<
        &ChordRuntime,
    >)
        requires
            self.wf(),
        ensures
            r is Some <==> (sequence_runtime_id(
                global_map(self.global_chords_to_runtime_key@),
                key_names(sequence@),
                opt_string_view(application_id),
            ) matches Some(id) && runtimes_map(self.runtimes@).dom().contains(id)),
            r matches Some(rt) ==> rt@ == runtimes_map(self.runtimes@)[sequence_runtime_id(
                global_map(self.global_chords_to_runtime_key@),
                key_names(sequence@),
                opt_string_view(application_id),
            ).unwrap()] && rt.wf(),
    {
        if is_global_chord_sequence(sequence) {
            match global_lookup(&self.global_chords_to_runtime_key, sequence) {
                Some(runtime_key) => self.runtime(runtime_key),
                None => None,
            }
        } else {
            match application_id {
                Some(app_id) => self.runtime(&app_id),
                None => None,
            }
        }
    }

    /// The script modules to load: one for each runtime whose config names one.
    pub fn js_modules(&self) -> (r: Vec<JsModuleLoad>)
        ensures
            r@.map_values(|l: JsModuleLoad| l@) == module_loads(self.runtimes@),
    {
        let mut out: Vec<JsModuleLoad> = Vec::new();
        let n = self.runtimes.len();
        let mut i: usize = 0;
        while i < n
            invariant
                n == self.runtimes@.len(),
                i <= n,
                out@.map_values(|l: JsModuleLoad| l@) == module_loads(self.runtimes@.subrange(0, i as int)),
            decreases n - i,
        {
            let ghost before = out@;
            let rt = &self.runtimes[i].1;
            let ghost sub = self.runtimes@.subrange(0, i as int + 1);
            assert(sub.drop_last() =~= self.runtimes@.subrange(0, i as int));
            assert(sub.last() == self.runtimes@[i as int]);
            match &rt.config {
                Some(c) => match &c.js {
                    Some(j) => match &j.module {
                        Some(m) => {
                            let load = JsModuleLoad {
                                bundle_id: copy_string(&self.runtimes[i].0),
                                path: copy_string(&rt.path),
                                content: copy_string(m),
                                raw_chords: copy_raw_chords(&rt.raw_chords),
                            };
                            out.push(load);
                            assert(out@.map_values(|l: JsModuleLoad| l@) =~= before.map_values(
                                |l: JsModuleLoad| l@,
                            ).push(load@));
                        },
                        None => {},
                    },
                    None => {},
                },
                None => {},
            }
            i = i + 1;
        }
        assert(self.runtimes@.subrange(0, n as int) =~= self.runtimes@);
        out
    }

    /// The runtime with the given id.
    pub fn runtime(&self, id: &String) -> (r: Option<&ChordRuntime>)
        requires
            self.wf(),
        ensures
            r is Some <==> runtimes_map(self.runtimes@).dom().contains(id@),
            r matches Some(rt) ==> rt@ == runtimes_map(self.runtimes@)[id@] && rt.wf(),
    {
        match runtime_position(&self.runtimes, id) {
            Some(i) => {
                proof {
                    lemma_assoc_lookup(runtime_pairs(self.runtimes@), i as int);
                }
                Some(&self.runtimes[i].1)
            },
            None => None,
        }
    }
}


/// The chord a typed sequence runs: the runtime it belongs to (see
/// [`sequence_runtime_id`]) selects it (see [`selected_chord`]). Gives the
/// runtime's path, the chord and its repeat count.
pub open spec fn sequence_chord(
    global: Map<Seq<Seq<char>>, Seq<char>>,
    runtimes: Map<Seq<char>, RuntimeView>,
    names: Seq<Seq<char>>,
    application_id: Option<Seq<char>>,
) -> Option<(Seq<char>, ChordView, nat)> {
    match sequence_runtime_id(global, names, application_id) {
        Some(id) => if runtimes.dom().contains(id) {
            match selected_chord(runtimes[id].chords, names) {
                Some((c, n)) => Some((runtimes[id].path, c, n)),
                None => None,
            }
        } else {
            None
        },
        None => None,
    }
}

impl LoadedAppChords {
    pub open spec fn global(&self) -> Map<Seq<Seq<char>>, Seq<char>> {
        global_map(self.global_chords_to_runtime_key@)
    }

    pub open spec fn runtime_views(&self) -> Map<Seq<char>, RuntimeView> {
        runtimes_map(self.runtimes@)
    }

    /// The chord a typed sequence runs (see [`sequence_chord`]), with the path
    /// of the runtime it belongs to.
    pub fn get_chord(&self, sequence: &Vec<Key>, application_id: Option<String>) -> (r: Option<
        (ChordPayload, String),
    >)
        requires
            self.wf(),
        ensures
            match r {
                Some((p, path)) => sequence_chord(
                    self.global(),
                    self.runtime_views(),
                    key_names(sequence@),
                    opt_string_view(application_id),
                ) == Some((path@, p.chord@, p.num_times as nat)),
                None => sequence_chord(
                    self.global(),
                    self.runtime_views(),
                    key_names(sequence@),
                    opt_string_view(application_id),
                ) is None,
            },
    {
        match self.get_chord_runtime(sequence, application_id) {
            Some(rt) => {
                match rt.get_chord(sequence) {
                    Some(p) => Some((p, copy_string(&rt.path))),
                    None => None,
                }
            },
            None => None,
        }
    }
}

/// A global sequence belongs to the same runtime whichever application is
/// frontmost.
pub proof fn lemma_global_sequence_any_application(
    global: Map<Seq<Seq<char>>, Seq<char>>,
    names: Seq<Seq<char>>,
    a: Option<Seq<char>>,
    b: Option<Seq<char>>,
)
    requires
        is_global_sequence(names),
    ensures
        sequence_runtime_id(global, names, a) == sequence_runtime_id(global, names, b),
{
}

} // verus!
