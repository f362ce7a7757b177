//! Device-to-mount-point maps, built from a list of mounts in which a later
//! mount of a device replaces an earlier one.
use vstd::prelude::*;
use crate::text::str_eq;

verus! {

broadcast use vstd::string::group_string_axioms;

pub open spec fn pair_views(v: Seq<(String, String)>) -> Seq<(Seq<char>, Seq<char>)> {
    v.map_values(|p: (String, String)| (p.0@, p.1@))
}

/// The value of the last pair of `pairs` with key `key`.
pub open spec fn last_for(pairs: Seq<(Seq<char>, Seq<char>)>, key: Seq<char>) -> Option<Seq<char>>
    decreases pairs.len(),
{
    if pairs.len() == 0 {
        None
    } else if pairs.last().0 == key {
        Some(pairs.last().1)
    } else {
        last_for(pairs.drop_last(), key)
    }
}

/// No key occurs twice.
pub open spec fn keys_distinct(s: Seq<(Seq<char>, Seq<char>)>) -> bool {
    forall|i: int, j: int| 0 <= i < j < s.len() ==> (#[trigger] s[i]).0 != (#[trigger] s[j]).0
}

/// The value of `key` in a map without repeated keys.
pub open spec fn lookup(s: Seq<(Seq<char>, Seq<char>)>, key: Seq<char>) -> Option<Seq<char>> {
    if exists|i: int| 0 <= i < s.len() && (#[trigger] s[i]).0 == key {
        Some(s[choose|i: int| 0 <= i < s.len() && (#[trigger] s[i]).0 == key].1)
    } else {
        None
    }
}

proof fn lemma_lookup_at(s: Seq<(Seq<char>, Seq<char>)>, m: int)
    requires
        keys_distinct(s),
        0 <= m < s.len(),
    ensures
        lookup(s, s[m].0) == Some(s[m].1),
{
    let c = choose|i: int| 0 <= i < s.len() && (#[trigger] s[i]).0 == s[m].0;
    if c != m {
        if c < m {
            assert(s[c].0 != s[m].0);
        } else {
            assert(s[m].0 != s[c].0);
        }
    }
}

fn find_key(out: &Vec<(String, String)>, key: &str) -> (r: Option<usize>)
    ensures
        match r {
            Some(j) => j < out@.len() && out@[j as int].0@ == key@,
            None => forall|m: int| 0 <= m < out@.len() ==> (#[trigger] out@[m]).0@ != key@,
        },
{
    let mut j: usize = 0;
    while j < out.len()
        invariant
            j <= out.len(),
            forall|m: int| 0 <= m < j ==> (#[trigger] out@[m]).0@ != key@,
        decreases out.len() - j,
    {
        if str_eq(out[j].0.as_str(), key) {
            return Some(j);
        }
        j += 1;
    }
    None
}

/// The map of `pairs`: each key once, with the value of its last pair.
pub fn mount_map(pairs: &Vec<(String, String)>) -> (r: Vec<(String, String)>)
    ensures
        keys_distinct(pair_views(r@)),
        forall|k: Seq<char>| #[trigger] lookup(pair_views(r@), k) == last_for(pair_views(pairs@), k),
{
    let ghost pv = pair_views(pairs@);
    let mut out: Vec<(String, String)> = Vec::new();
    let mut i: usize = 0;
    while i < pairs.len()
        invariant
            pv == pair_views(pairs@),
            i <= pairs.len(),
            keys_distinct(pair_views(out@)),
            forall|k: Seq<char>|
                #[trigger] lookup(pair_views(out@), k) == last_for(pv.take(i as int), k),
        decreases pairs.len() - i,
    {
        let key = pairs[i].0.clone();
        let value = pairs[i].1.clone();
        assert(pv[i as int] == (key@, value@));
        let ghost before = pair_views(out@);
        let ghost t = pv.take(i + 1);
        assert(t.drop_last() =~= pv.take(i as int));
        assert(t.last() == (key@, value@));
        let ghost pos: int;
        match find_key(&out, key.as_str()) {
            Some(j) => {
                let old_key = out[j].0.clone();
                out.set(j, (old_key, value));
                proof {
                    pos = j as int;
                    assert(pair_views(out@) =~= before.update(j as int, (key@, value@)));
                }
            },
            None => {
                out.push((key, value));
                proof {
                    pos = before.len() as int;
                    assert(pair_views(out@) =~= before.push((key@, value@)));
                }
            },
        }
        proof {
            let after = pair_views(out@);
            assert(after[pos] == (key@, value@));
            assert(forall|m: int| 0 <= m < after.len() && m != pos ==> after[m] == before[m]);
            assert(forall|m: int| 0 <= m < before.len() && m != pos ==> after[m] == before[m]);
            assert(keys_distinct(after)) by {
                assert forall|a: int, b: int| 0 <= a < b < after.len() implies (#[trigger] after[a]).0
                    != (#[trigger] after[b]).0 by {
                    if a != pos && b != pos {
                        assert(before[a].0 != before[b].0);
                    } else if a == pos {
                        assert(after[b] == before[b]);
                    } else {
                        assert(after[a] == before[a]);
                    }
                }
            }
            assert forall|k: Seq<char>| #[trigger] lookup(after, k) == last_for(t, k) by {
                if k == key@ {
                    lemma_lookup_at(after, pos);
                } else {
                    assert(last_for(t, k) == last_for(pv.take(i as int), k));
                    assert(lookup(before, k) == last_for(pv.take(i as int), k));
                    if exists|m: int| 0 <= m < before.len() && (#[trigger] before[m]).0 == k {
                        let m = choose|m: int| 0 <= m < before.len() && (#[trigger] before[m]).0 == k;
                        assert(m != pos);
                        lemma_lookup_at(before, m);
                        lemma_lookup_at(after, m);
                    } else {
                        assert forall|m: int| 0 <= m < after.len() implies (#[trigger] after[m]).0
                            != k by {
                            if m != pos {
                                assert(after[m] == before[m]);
                            }
                        }
                    }
                }
            }
        }
        i += 1;
    }
    assert(pv.take(pairs.len() as int) =~= pv);
    out
}


/// The value of the first pair of `pairs` with key `key`.
pub open spec fn first_for(pairs: Seq<(Seq<char>, Seq<char>)>, key: Seq<char>) -> Option<Seq<char>>
    decreases pairs.len(),
{
    if pairs.len() == 0 {
        None
    } else {
        match first_for(pairs.drop_last(), key) {
            Some(v) => Some(v),
            None => if pairs.last().0 == key {
                Some(pairs.last().1)
            } else {
                None
            },
        }
    }
}

/// The map of `pairs`: each key once, with the value of its first pair.
pub fn first_map(pairs: &Vec<(String, String)>) -> (r: Vec<(String, String)>)
    ensures
        keys_distinct(pair_views(r@)),
        forall|k: Seq<char>| #[trigger] lookup(pair_views(r@), k) == first_for(pair_views(pairs@), k),
{
    let ghost pv = pair_views(pairs@);
    let mut out: Vec<(String, String)> = Vec::new();
    let mut i: usize = 0;
    while i < pairs.len()
        invariant
            pv == pair_views(pairs@),
            i <= pairs.len(),
            keys_distinct(pair_views(out@)),
            forall|k: Seq<char>|
                #[trigger] lookup(pair_views(out@), k) == first_for(pv.take(i as int), k),
        decreases pairs.len() - i,
    {
        let ghost before = pair_views(out@);
        let ghost t = pv.take(i + 1);
        assert(t.drop_last() =~= pv.take(i as int));
        assert(t.last() == pv[i as int]);
        match find_key(&out, pairs[i].0.as_str()) {
            Some(j) => {
                proof {
                    assert forall|k: Seq<char>| #[trigger] lookup(before, k) == first_for(t, k) by {
                        if k == pv[i as int].0 {
                            lemma_lookup_at(before, j as int);
                        }
                    }
                }
            },
            None => {
                let key = pairs[i].0.clone();
                let value = pairs[i].1.clone();
                out.push((key, value));
                proof {
                    let after = pair_views(out@);
                    let pos = before.len() as int;
                    assert(after =~= before.push((key@, value@)));
                    assert(keys_distinct(after)) by {
                        assert forall|a: int, b: int| 0 <= a < b < after.len() implies (
                        #[trigger] after[a]).0 != (#[trigger] after[b]).0 by {
                            if b < pos {
                                assert(before[a].0 != before[b].0);
                            } else {
                                assert(after[a] == before[a]);
                            }
                        }
                    }
                    assert forall|k: Seq<char>| #[trigger] lookup(after, k) == first_for(t, k) by {
                        if k == key@ {
                            lemma_lookup_at(after, pos);
                            assert(lookup(before, k) is None);
                        } else {
                            if exists|m: int| 0 <= m < before.len() && (#[trigger] before[m]).0 == k {
                                let m = choose|m: int|
                                    0 <= m < before.len() && (#[trigger] before[m]).0 == k;
                                lemma_lookup_at(before, m);
                                lemma_lookup_at(after, m);
                            } else {
                                assert forall|m: int| 0 <= m < after.len() implies (
                                #[trigger] after[m]).0 != k by {
                                    if m < pos {
                                        assert(after[m] == before[m]);
                                    }
                                }
                            }
                        }
                    }
                }
            },
        }
        i += 1;
    }
    assert(pv.take(pairs.len() as int) =~= pv);
    out
}

} // verus!
