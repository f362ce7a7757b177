//! Lists of file paths, ordered and compared as `std::path::Path` orders
//! them: component by component, each component by its kind and then by its
//! text.
use vstd::prelude::*;
use crate::text::{lemma_text_lt_order, lemma_text_lt_trans, str_eq, text_lt, text_lt_exec};

verus! {

broadcast use vstd::string::group_string_axioms;

/// A path component: its kind (in the order of `std::path::Component`:
/// prefix, root, `.`, `..`, a name) and its text.
pub open spec fn comp_view(c: (u8, String)) -> (u8, Seq<char>) {
    (c.0, c.1@)
}

/// The components of a path.
pub open spec fn comps_view(v: Seq<(u8, String)>) -> Seq<(u8, Seq<char>)> {
    v.map_values(|c: (u8, String)| comp_view(c))
}

/// One component before another: by kind, then by text.
pub open spec fn comp_lt(a: (u8, Seq<char>), b: (u8, Seq<char>)) -> bool {
    a.0 < b.0 || (a.0 == b.0 && text_lt(a.1, b.1))
}

/// One path before another: at the first component where they differ, or
/// the shorter first when one is a prefix of the other.
pub open spec fn path_lt(a: Seq<(u8, Seq<char>)>, b: Seq<(u8, Seq<char>)>) -> bool
    decreases a.len(),
{
    if a.len() == 0 {
        b.len() > 0
    } else if b.len() == 0 {
        false
    } else if a[0] != b[0] {
        comp_lt(a[0], b[0])
    } else {
        path_lt(a.drop_first(), b.drop_first())
    }
}

proof fn lemma_comp_lt_order(a: (u8, Seq<char>), b: (u8, Seq<char>))
    ensures
        !comp_lt(a, a),
        comp_lt(a, b) ==> !comp_lt(b, a),
        a != b ==> comp_lt(a, b) || comp_lt(b, a),
{
    lemma_text_lt_order(a.1, b.1);
}

/// `path_lt` is a strict total order.
pub proof fn lemma_path_lt_order(a: Seq<(u8, Seq<char>)>, b: Seq<(u8, Seq<char>)>)
    ensures
        !path_lt(a, a),
        path_lt(a, b) ==> !path_lt(b, a),
        a != b ==> path_lt(a, b) || path_lt(b, a),
    decreases a.len(),
{
    if a.len() > 0 && b.len() > 0 {
        lemma_path_lt_order(a.drop_first(), b.drop_first());
        lemma_path_lt_order(a.drop_first(), a.drop_first());
        lemma_comp_lt_order(a[0], b[0]);
        lemma_comp_lt_order(a[0], a[0]);
        if a[0] == b[0] && a.drop_first() == b.drop_first() {
            assert forall|i: int| 0 <= i < a.len() implies a[i] == b[i] by {
                if i > 0 {
                    assert(a[i] == a.drop_first()[i - 1]);
                    assert(b[i] == b.drop_first()[i - 1]);
                }
            }
            assert(a =~= b);
        }
    } else if a.len() > 0 {
        lemma_path_lt_order(a.drop_first(), a.drop_first());
    } else if b.len() == 0 {
        assert(a =~= b);
    }
}

/// `path_lt` is transitive.
pub proof fn lemma_path_lt_trans(a: Seq<(u8, Seq<char>)>, b: Seq<(u8, Seq<char>)>, c: Seq<(u8, Seq<char>)>)
    requires
        path_lt(a, b),
        path_lt(b, c),
    ensures
        path_lt(a, c),
    decreases a.len(),
{
    if a.len() > 0 && b.len() > 0 && c.len() > 0 {
        if a[0] == b[0] && b[0] == c[0] {
            lemma_path_lt_trans(a.drop_first(), b.drop_first(), c.drop_first());
        } else if a[0] != b[0] && b[0] != c[0] {
            if a[0].0 == b[0].0 && b[0].0 == c[0].0 {
                lemma_text_lt_trans(a[0].1, b[0].1, c[0].1);
            }
            lemma_comp_lt_order(a[0], c[0]);
            if a[0] == c[0] {
                lemma_comp_lt_order(a[0], b[0]);
            }
        }
    }
}

fn comp_lt_exec(a: &(u8, String), b: &(u8, String)) -> (r: bool)
    ensures
        r == comp_lt(comp_view(*a), comp_view(*b)),
{
    a.0 < b.0 || (a.0 == b.0 && text_lt_exec(a.1.as_str(), b.1.as_str()))
}

fn comp_eq_exec(a: &(u8, String), b: &(u8, String)) -> (r: bool)
    ensures
        r == (comp_view(*a) == comp_view(*b)),
{
    a.0 == b.0 && str_eq(a.1.as_str(), b.1.as_str())
}

/// Whether one path comes before another.
pub fn path_lt_exec(a: &Vec<(u8, String)>, b: &Vec<(u8, String)>) -> (r: bool)
    ensures
        r == path_lt(comps_view(a@), comps_view(b@)),
{
    let ghost av = comps_view(a@);
    let ghost bv = comps_view(b@);
    let mut i: usize = 0;
    assert(av.skip(0) =~= av);
    assert(bv.skip(0) =~= bv);
    while i < a.len() && i < b.len() && comp_eq_exec(&a[i], &b[i])
        invariant
            i <= a.len(),
            i <= b.len(),
            av == comps_view(a@),
            bv == comps_view(b@),
            path_lt(av, bv) == path_lt(av.skip(i as int), bv.skip(i as int)),
        decreases a.len() - i,
    {
        assert(av.skip(i as int).drop_first() =~= av.skip(i + 1));
        assert(bv.skip(i as int).drop_first() =~= bv.skip(i + 1));
        i += 1;
    }
    if i == a.len() {
        i < b.len()
    } else if i == b.len() {
        false
    } else {
        assert(av.skip(i as int)[0] == av[i as int]);
        assert(bv.skip(i as int)[0] == bv[i as int]);
        comp_lt_exec(&a[i], &b[i])
    }
}


/// The components of a listed path (the path is listed with its text).
pub open spec fn key_of(p: (Vec<(u8, String)>, String)) -> Seq<(u8, Seq<char>)> {
    comps_view(p.0@)
}

pub open spec fn keys(v: Seq<(Vec<(u8, String)>, String)>) -> Seq<Seq<(u8, Seq<char>)>> {
    v.map_values(|p: (Vec<(u8, String)>, String)| key_of(p))
}

/// Paths in strictly increasing order.
pub open spec fn sorted_paths(k: Seq<Seq<(u8, Seq<char>)>>) -> bool {
    forall|i: int, j: int| 0 <= i < j < k.len() ==> path_lt(#[trigger] k[i], #[trigger] k[j])
}

/// `inp[k]` is the first listing of the path `x` among `inp`, with the text `t`.
pub open spec fn first_listing(inp: Seq<(Vec<(u8, String)>, String)>, k: int, x: Seq<(u8, Seq<char>)>, t: Seq<char>) -> bool {
    &&& 0 <= k < inp.len()
    &&& key_of(inp[k]) == x
    &&& inp[k].1@ == t
    &&& forall|j: int| 0 <= j < k ==> key_of(#[trigger] inp[j]) != x
}

/// `firsts[m]` is the first listing, before `bound`, of the path `out[m]`.
pub open spec fn firsts_ok(
    inp: Seq<(Vec<(u8, String)>, String)>,
    firsts: Seq<int>,
    out: Seq<(Vec<(u8, String)>, String)>,
    bound: int,
) -> bool {
    &&& firsts.len() == out.len()
    &&& forall|m: int|
        0 <= m < out.len() ==> firsts[m] < bound && first_listing(inp, firsts[m], key_of(#[trigger] out[m]), out[m].1@)
}

/// `x` is listed among `inp`, first with the text `t`.
pub open spec fn listed_first(inp: Seq<(Vec<(u8, String)>, String)>, x: Seq<(u8, Seq<char>)>, t: Seq<char>) -> bool {
    exists|k: int| #[trigger] first_listing(inp, k, x, t)
}

/// `out` lists each path of `inp` once, with the text of its first listing.
pub open spec fn unique_of(out: Seq<(Vec<(u8, String)>, String)>, inp: Seq<(Vec<(u8, String)>, String)>) -> bool {
    &&& forall|x: Seq<(u8, Seq<char>)>| keys(out).contains(x) <==> keys(inp).contains(x)
    &&& forall|m: int| 0 <= m < out.len() ==> listed_first(inp, key_of(#[trigger] out[m]), out[m].1@)
}

proof fn lemma_push_contains<A>(s: Seq<A>, a: A, x: A)
    ensures
        s.push(a).contains(x) <==> (s.contains(x) || x == a),
{
    if s.push(a).contains(x) {
        let j = choose|j: int| 0 <= j < s.push(a).len() && s.push(a)[j] == x;
        if j < s.len() {
            assert(s[j] == x);
        }
    }
    if s.contains(x) {
        let j = choose|j: int| 0 <= j < s.len() && s[j] == x;
        assert(s.push(a)[j] == x);
    }
    if x == a {
        assert(s.push(a)[s.len() as int] == x);
    }
}

/// The listed paths sorted, each path once (the first listing of each
/// stays), as sorting and then removing repeats does.
pub fn sorted_unique_paths(paths: Vec<(Vec<(u8, String)>, String)>) -> (r: Vec<(Vec<(u8, String)>, String)>)
    ensures
        sorted_paths(keys(r@)),
        unique_of(r@, paths@),
{
    let ghost orig = paths@;
    let mut rest = paths;
    let mut out: Vec<(Vec<(u8, String)>, String)> = Vec::new();
    let ghost mut i: int = 0;
    let ghost mut firsts: Seq<int> = Seq::empty();
    assert(keys(out@) =~= Seq::<Seq<(u8, Seq<char>)>>::empty());
    assert(orig.take(0) =~= Seq::<(Vec<(u8, String)>, String)>::empty());
    assert(rest@ =~= orig.skip(0));
    while rest.len() > 0
        invariant
            0 <= i <= orig.len(),
            rest@ == orig.skip(i),
            sorted_paths(keys(out@)),
            forall|x: Seq<(u8, Seq<char>)>| keys(out@).contains(x) <==> keys(orig.take(i)).contains(x),
            firsts_ok(orig, firsts, out@, i),
        decreases rest.len(),
    {
        let ghost before = out@;
        assert(rest@[0] == orig[i]);
        let p = rest.remove(0);
        assert(rest@ =~= orig.skip(i + 1));
        let ghost px = key_of(p);
        let ghost take1 = orig.take(i + 1);
        assert(take1 =~= orig.take(i).push(p));
        assert(keys(take1) =~= keys(orig.take(i)).push(px));
        let mut k: usize = 0;
        while k < out.len() && path_lt_exec(&out[k].0, &p.0)
            invariant
                k <= out.len(),
                out@ == before,
                px == key_of(p),
                0 <= i < orig.len(),
                firsts_ok(orig, firsts, out@, i),
                forall|j: int| 0 <= j < k ==> path_lt(#[trigger] keys(out@)[j], px),
            decreases out.len() - k,
        {
            k += 1;
        }
        let seen = k < out.len() && !path_lt_exec(&p.0, &out[k].0);
        if seen {
            proof {
                lemma_path_lt_order(keys(before)[k as int], px);
                assert(keys(before)[k as int] == px);
                assert forall|x: Seq<(u8, Seq<char>)>| keys(before).contains(x) <==> keys(take1).contains(x) by {
                    lemma_push_contains(keys(orig.take(i)), px, x);
                    if x == px {
                        assert(keys(before)[k as int] == x);
                    }
                }
                assert forall|m: int| 0 <= m < out@.len() implies firsts[m] < i + 1 by {
                    assert(key_of(out@[m]) == key_of(before[m]));
                    assert(firsts[m] < i);
                }
                assert(firsts_ok(orig, firsts, out@, i + 1));
            }
        } else {
            proof {
                // every listed path differs from p
                assert forall|j: int| 0 <= j < before.len() implies #[trigger] keys(before)[j] != px by {
                    if j < k {
                        lemma_path_lt_order(keys(before)[j], px);
                    } else {
                        assert(path_lt(px, keys(before)[k as int]));
                        if j > k {
                            lemma_path_lt_trans(px, keys(before)[k as int], keys(before)[j]);
                        }
                        lemma_path_lt_order(px, keys(before)[j]);
                    }
                }
                assert(!keys(before).contains(px));
                assert(!keys(orig.take(i)).contains(px));
                assert forall|j: int| 0 <= j < i implies key_of(#[trigger] orig[j]) != px by {
                    assert(keys(orig.take(i))[j] == key_of(orig[j]));
                }
            }
            out.insert(k, p);
            proof {
                let after = out@;
                assert(after =~= before.insert(k as int, p));
                assert(keys(after) =~= keys(before).insert(k as int, px));
                let ka = keys(after);
                let kb = keys(before);
                assert forall|a: int, b: int| 0 <= a < b < ka.len() implies path_lt(#[trigger] ka[a], #[trigger] ka[b]) by {
                    if b < k {
                        assert(ka[a] == kb[a] && ka[b] == kb[b]);
                    } else if b == k {
                        assert(ka[a] == kb[a]);
                    } else if a == k {
                        assert(ka[b] == kb[b - 1]);
                        if b - 1 > k {
                            lemma_path_lt_trans(px, kb[k as int], kb[b - 1]);
                        }
                    } else if a < k {
                        assert(ka[a] == kb[a] && ka[b] == kb[b - 1]);
                    } else {
                        assert(ka[a] == kb[a - 1] && ka[b] == kb[b - 1]);
                    }
                }
                assert forall|x: Seq<(u8, Seq<char>)>| keys(after).contains(x) <==> keys(take1).contains(x) by {
                    lemma_push_contains(keys(orig.take(i)), px, x);
                    if keys(after).contains(x) {
                        let j = choose|j: int| 0 <= j < ka.len() && ka[j] == x;
                        if j < k {
                            assert(kb[j] == x);
                            assert(kb.contains(x));
                            assert(keys(orig.take(i)).contains(x));
                        } else if j > k {
                            assert(kb[j - 1] == x);
                            assert(kb.contains(x));
                            assert(keys(orig.take(i)).contains(x));
                        } else {
                            assert(x == px);
                        }
                        assert(keys(take1).contains(x));
                    }
                    if keys(take1).contains(x) {
                        if x == px {
                            assert(ka[k as int] == x);
                        } else {
                            assert(keys(orig.take(i)).contains(x));
                            assert(kb.contains(x));
                            let j = choose|j: int| 0 <= j < kb.len() && kb[j] == x;
                            if j < k {
                                assert(ka[j] == x);
                            } else {
                                assert(ka[j + 1] == x);
                            }
                        }
                        assert(keys(after).contains(x));
                    }
                }
                let old_firsts = firsts;
                firsts = old_firsts.insert(k as int, i);
                assert forall|m: int| 0 <= m < after.len() implies firsts[m] < i + 1 && first_listing(
                    orig,
                    firsts[m],
                    key_of(#[trigger] after[m]),
                    after[m].1@,
                ) by {
                    if m < k {
                        assert(after[m] == before[m] && firsts[m] == old_firsts[m]);
                    } else if m == k {
                        assert(after[m] == p && firsts[m] == i);
                    } else {
                        assert(after[m] == before[m - 1] && firsts[m] == old_firsts[m - 1]);
                    }
                }
                assert forall|m: int| 0 <= m < after.len() implies firsts[m] < i + 1 by {
                    assert(first_listing(orig, firsts[m], key_of(after[m]), after[m].1@));
                }
                assert(firsts_ok(orig, firsts, after, i + 1));
            }
        }
        proof {
            i = i + 1;
        }
    }
    assert(orig.take(i) =~= orig);
    assert forall|x: Seq<(u8, Seq<char>)>| keys(out@).contains(x) <==> keys(orig).contains(x) by {
        assert(keys(out@).contains(x) <==> keys(orig.take(i)).contains(x));
    }
    assert forall|m: int| 0 <= m < out@.len() implies listed_first(orig, key_of(#[trigger] out@[m]), out@[m].1@) by {
        assert(first_listing(orig, firsts[m], key_of(out@[m]), out@[m].1@));
    }
    assert(unique_of(out@, orig));
    out
}

} // verus!
