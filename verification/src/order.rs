//! The order of strings (by characters, as `str`'s `Ord` compares their UTF-8
//! bytes), of lists of strings compared field by field, and a stable sort by
//! such keys.
use crate::text::{chars_of, views};
use vstd::prelude::*;
use vstd::seq_lib::{to_multiset_build, to_multiset_remove};

verus! {

/// Whether `a` comes before `b`: at the first position where they differ,
/// `a` has the smaller character, or `a` is a proper prefix of `b`.
pub open spec fn lex_lt(a: Seq<char>, b: Seq<char>) -> bool
    decreases a.len(),
{
    if b.len() == 0 {
        false
    } else if a.len() == 0 {
        true
    } else if a[0] != b[0] {
        a[0] < b[0]
    } else {
        lex_lt(a.drop_first(), b.drop_first())
    }
}

pub proof fn lemma_lex_irreflexive(a: Seq<char>)
    ensures
        !lex_lt(a, a),
    decreases a.len(),
{
    if a.len() > 0 {
        lemma_lex_irreflexive(a.drop_first());
    }
}

pub proof fn lemma_lex_transitive(a: Seq<char>, b: Seq<char>, c: Seq<char>)
    requires
        lex_lt(a, b),
        lex_lt(b, c),
    ensures
        lex_lt(a, c),
    decreases a.len(),
{
    if a.len() > 0 && a[0] == b[0] && b[0] == c[0] {
        lemma_lex_transitive(a.drop_first(), b.drop_first(), c.drop_first());
    }
}

pub proof fn lemma_lex_total(a: Seq<char>, b: Seq<char>)
    ensures
        a == b || lex_lt(a, b) || lex_lt(b, a),
    decreases a.len(),
{
    if a.len() > 0 && b.len() > 0 && a[0] == b[0] {
        lemma_lex_total(a.drop_first(), b.drop_first());
        if a.drop_first() == b.drop_first() {
            assert(a =~= seq![a[0]] + a.drop_first());
            assert(b =~= seq![b[0]] + b.drop_first());
        }
    } else if a.len() == 0 && b.len() == 0 {
        assert(a =~= b);
    }
}

/// Whether `a` comes before `b` (see [`lex_lt`]).
pub fn str_less(a: &str, b: &str) -> (r: bool)
    ensures
        r == lex_lt(a@, b@),
{
    let x = chars_of(a);
    let y = chars_of(b);
    let n = x.len();
    let m = y.len();
    let mut i: usize = 0;
    assert(a@.skip(0) =~= a@);
    assert(b@.skip(0) =~= b@);
    while i < n && i < m && x[i] == y[i]
        invariant
            x@ == a@,
            y@ == b@,
            n == x@.len(),
            m == y@.len(),
            i <= n,
            i <= m,
            lex_lt(a@, b@) == lex_lt(a@.skip(i as int), b@.skip(i as int)),
        decreases n - i,
    {
        assert(a@.skip(i as int).drop_first() =~= a@.skip(i as int + 1));
        assert(b@.skip(i as int).drop_first() =~= b@.skip(i as int + 1));
        i = i + 1;
    }
    if i == m {
        false
    } else if i == n {
        true
    } else {
        x[i] < y[i]
    }
}

/// Whether the list of fields `a` comes before `b`: at the first field where
/// they differ, `a`'s comes first.
pub open spec fn fields_lt(a: Seq<Seq<char>>, b: Seq<Seq<char>>) -> bool
    decreases a.len(),
{
    if a.len() == 0 || b.len() == 0 {
        false
    } else if a[0] != b[0] {
        lex_lt(a[0], b[0])
    } else {
        fields_lt(a.drop_first(), b.drop_first())
    }
}

pub proof fn lemma_fields_irreflexive(a: Seq<Seq<char>>)
    ensures
        !fields_lt(a, a),
    decreases a.len(),
{
    if a.len() > 0 {
        lemma_fields_irreflexive(a.drop_first());
    }
}

pub proof fn lemma_fields_transitive(a: Seq<Seq<char>>, b: Seq<Seq<char>>, c: Seq<Seq<char>>)
    requires
        fields_lt(a, b),
        fields_lt(b, c),
    ensures
        fields_lt(a, c),
    decreases a.len(),
{
    if a[0] != b[0] && b[0] != c[0] {
        lemma_lex_transitive(a[0], b[0], c[0]);
        if a[0] == c[0] {
            lemma_lex_transitive(a[0], b[0], a[0]);
            lemma_lex_irreflexive(a[0]);
        }
    } else if a[0] == b[0] && b[0] == c[0] {
        lemma_fields_transitive(a.drop_first(), b.drop_first(), c.drop_first());
    }
}

/// Lists of fields of one length are ordered totally.
pub proof fn lemma_fields_total(a: Seq<Seq<char>>, b: Seq<Seq<char>>)
    requires
        a.len() == b.len(),
    ensures
        a == b || fields_lt(a, b) || fields_lt(b, a),
    decreases a.len(),
{
    if a.len() > 0 {
        if a[0] != b[0] {
            lemma_lex_total(a[0], b[0]);
        } else {
            lemma_fields_total(a.drop_first(), b.drop_first());
            if a.drop_first() == b.drop_first() {
                assert(a =~= seq![a[0]] + a.drop_first());
                assert(b =~= seq![b[0]] + b.drop_first());
            }
        }
    } else {
        assert(a =~= b);
    }
}

/// Whether `a` comes before `b` (see [`fields_lt`]).
pub fn fields_less(a: &Vec<String>, b: &Vec<String>) -> (r: bool)
    ensures
        r == fields_lt(views(a@), views(b@)),
{
    let n = a.len();
    let m = b.len();
    let mut i: usize = 0;
    assert(views(a@).skip(0) =~= views(a@));
    assert(views(b@).skip(0) =~= views(b@));
    while i < n && i < m && a[i] == b[i]
        invariant
            n == a@.len(),
            m == b@.len(),
            i <= n,
            i <= m,
            fields_lt(views(a@), views(b@)) == fields_lt(views(a@).skip(i as int), views(b@).skip(i as int)),
        decreases n - i,
    {
        assert(views(a@).skip(i as int).drop_first() =~= views(a@).skip(i as int + 1));
        assert(views(b@).skip(i as int).drop_first() =~= views(b@).skip(i as int + 1));
        i = i + 1;
    }
    if i == n || i == m {
        false
    } else {
        assert(views(a@).skip(i as int)[0] == a@[i as int]@);
        assert(views(b@).skip(i as int)[0] == b@[i as int]@);
        str_less(a[i].as_str(), b[i].as_str())
    }
}

pub open spec fn pair_keys<T>(s: Seq<(Vec<String>, T)>) -> Seq<Seq<Seq<char>>> {
    s.map_values(|p: (Vec<String>, T)| views(p.0@))
}

/// No key comes after a later one.
pub open spec fn sorted_by_keys(keys: Seq<Seq<Seq<char>>>) -> bool {
    forall|i: int, j: int| 0 <= i < j < keys.len() ==> !fields_lt(#[trigger] keys[j], #[trigger] keys[i])
}

proof fn lemma_insert_multiset<A>(s: Seq<A>, p: int, x: A)
    requires
        0 <= p <= s.len(),
    ensures
        s.insert(p, x).to_multiset() == s.to_multiset().insert(x),
{
    broadcast use vstd::multiset::group_multiset_axioms;
    let t = s.insert(p, x);
    assert(t.remove(p) =~= s);
    to_multiset_remove(t, p);
    assert(t[p] == x);
    t.to_multiset_ensures();
    assert(t.contains(x));
    assert(t.to_multiset() =~= t.to_multiset().remove(x).insert(x));
}

/// Sorts pairs by their keys (see [`fields_lt`]), keys of one length; pairs
/// with equal keys keep their order.
pub fn sort_by_keys<T>(items: Vec<(Vec<String>, T)>, Ghost(width): Ghost<nat>) -> (r: Vec<(Vec<String>, T)>)
    requires
        forall|i: int| 0 <= i < items@.len() ==> (#[trigger] items@[i]).0@.len() == width,
    ensures
        r@.to_multiset() == items@.to_multiset(),
        sorted_by_keys(pair_keys(r@)),
        forall|i: int| 0 <= i < r@.len() ==> (#[trigger] r@[i]).0@.len() == width,
{
    let ghost all = items@;
    let mut rest = items;
    let mut out: Vec<(Vec<String>, T)> = Vec::new();
    let ghost mut k: int = 0;
    assert(all.take(0) =~= out@);
    assert(rest@ =~= all.skip(0));
    while rest.len() > 0
        invariant
            0 <= k <= all.len(),
            rest@ == all.skip(k),
            out@.to_multiset() == all.take(k).to_multiset(),
            sorted_by_keys(pair_keys(out@)),
            forall|i: int| 0 <= i < all.len() ==> (#[trigger] all[i]).0@.len() == width,
            forall|i: int| 0 <= i < out@.len() ==> (#[trigger] out@[i]).0@.len() == width,
        decreases rest@.len(),
    {
        let x = rest.remove(0);
        assert(x == all[k]);
        let ghost xk = views(x.0@);
        let n = out.len();
        let mut p: usize = 0;
        while p < n && !fields_less(&x.0, &out[p].0)
            invariant
                n == out@.len(),
                p <= n,
                xk == views(x.0@),
                forall|i: int| 0 <= i < p ==> !fields_lt(xk, #[trigger] pair_keys(out@)[i]),
            decreases n - p,
        {
            assert(pair_keys(out@)[p as int] == views(out@[p as int].0@));
            p = p + 1;
        }
        let ghost before = out@;
        proof {
            if p < n {
                assert(pair_keys(out@)[p as int] == views(out@[p as int].0@));
            }
        }
        out.insert(p, x);
        proof {
            lemma_insert_multiset(before, p as int, x);
            assert(all.take(k + 1) =~= all.take(k).push(x));
            to_multiset_build(all.take(k), x);
            let ks = pair_keys(out@);
            let kb = pair_keys(before);
            assert forall|i: int, j: int| 0 <= i < j < ks.len() implies !fields_lt(
                #[trigger] ks[j],
                #[trigger] ks[i],
            ) by {
                let ii = if i < p { i } else if i == p { -1 } else { i - 1 };
                let jj = if j < p { j } else if j == p { -1 } else { j - 1 };
                if i != p && j != p {
                    assert(ks[i] == kb[ii]);
                    assert(ks[j] == kb[jj]);
                } else if i == p {
                    assert(ks[i] == xk);
                    assert(ks[j] == kb[jj]);
                    assert(fields_lt(xk, kb[p as int]));
                    if fields_lt(kb[jj], xk) {
                        if jj > p {
                            assert(!fields_lt(kb[jj], kb[p as int]));
                            lemma_fields_transitive(kb[jj], xk, kb[p as int]);
                        } else {
                            lemma_fields_transitive(xk, kb[p as int], xk);
                            lemma_fields_irreflexive(xk);
                        }
                    }
                } else {
                    assert(ks[j] == xk);
                    assert(ks[i] == kb[ii]);
                    assert(!fields_lt(xk, kb[ii]));
                }
            }
            assert forall|i: int| 0 <= i < out@.len() implies (#[trigger] out@[i]).0@.len() == width by {
                if i < p {
                    assert(out@[i] == before[i]);
                } else if i > p {
                    assert(out@[i] == before[i - 1]);
                }
            }
            k = k + 1;
        }
        assert(rest@ =~= all.skip(k));
    }
    assert(all.take(all.len() as int) =~= all);
    out
}


/// Mapping two sequences with the same elements gives sequences with the same
/// elements.
pub proof fn lemma_map_values_multiset<A, B>(a: Seq<A>, b: Seq<A>, f: spec_fn(A) -> B)
    requires
        a.to_multiset() == b.to_multiset(),
    ensures
        a.map_values(f).to_multiset() == b.map_values(f).to_multiset(),
    decreases a.len(),
{
    broadcast use vstd::multiset::group_multiset_axioms;

    a.to_multiset_ensures();
    b.to_multiset_ensures();
    if a.len() == 0 {
        assert(a.map_values(f) =~= b.map_values(f));
    } else {
        let x = a.last();
        let a1 = a.drop_last();
        assert(a =~= a1.push(x));
        a1.to_multiset_ensures();
        assert(a.to_multiset().count(x) > 0);
        assert(b.contains(x));
        let k = choose|k: int| 0 <= k < b.len() && b[k] == x;
        let b1 = b.remove(k);
        assert(b1.to_multiset() =~= b.to_multiset().remove(x));
        assert(a1.to_multiset() =~= a.to_multiset().remove(x));
        lemma_map_values_multiset(a1, b1, f);
        let am = a.map_values(f);
        let bm = b.map_values(f);
        assert(am =~= a1.map_values(f).push(f(x)));
        assert(b1.map_values(f) =~= bm.remove(k));
        bm.to_multiset_ensures();
        a1.map_values(f).to_multiset_ensures();
        assert(bm[k] == f(x));
        assert(bm.contains(f(x)));
        assert(bm.to_multiset() =~= bm.remove(k).to_multiset().insert(f(x)));
    }
}

} // verus!
