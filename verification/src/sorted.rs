//! Ordered sets and maps keyed by strings, kept as vectors in ascending
//! `str` order without repeated keys.
use vstd::prelude::*;

use crate::chars::{chars_of, chars_le, lemma_lex_antisym, lemma_lex_total, lemma_lex_trans, lex_le, str_eq, str_le, views};

verus! {

/// `a` comes strictly before `b` in `str` order.
pub open spec fn lex_lt(a: Seq<char>, b: Seq<char>) -> bool {
    lex_le(a, b) && a != b
}

/// The keys come in strictly ascending `str` order.
pub open spec fn strictly_sorted(s: Seq<Seq<char>>) -> bool {
    forall|i: int, j: int| 0 <= i < j < s.len() ==> lex_lt(#[trigger] s[i], #[trigger] s[j])
}

pub proof fn lemma_lex_lt_trans(a: Seq<char>, b: Seq<char>, c: Seq<char>)
    requires
        lex_lt(a, b),
        lex_le(b, c),
    ensures
        lex_lt(a, c),
{
    lemma_lex_trans(a, b, c);
    if a == c {
        lemma_lex_antisym(a, b);
    }
}

/// The keys of a string-keyed vector of entries.
pub open spec fn keys_of<V>(v: Seq<(String, V)>) -> Seq<Seq<char>> {
    v.map_values(|e: (String, V)| e.0@)
}

/// The value stored under `k` (the last entry with that key), if any.
pub open spec fn value_of<V>(v: Seq<(String, V)>, k: Seq<char>) -> Option<V>
    decreases v.len(),
{
    if v.len() == 0 {
        None
    } else if v.last().0@ == k {
        Some(v.last().1)
    } else {
        value_of(v.drop_last(), k)
    }
}

pub proof fn lemma_value_of_absent<V>(v: Seq<(String, V)>, k: Seq<char>)
    requires
        !keys_of(v).contains(k),
    ensures
        value_of(v, k).is_none(),
    decreases v.len(),
{
    if v.len() > 0 {
        assert(keys_of(v)[v.len() - 1] == v.last().0@);
        assert(keys_of(v.drop_last()) =~= keys_of(v).drop_last());
        lemma_value_of_absent(v.drop_last(), k);
    }
}

pub proof fn lemma_value_of_at<V>(v: Seq<(String, V)>, i: int)
    requires
        0 <= i < v.len(),
        strictly_sorted(keys_of(v)),
    ensures
        value_of(v, v[i].0@) == Some(v[i].1),
    decreases v.len(),
{
    if i < v.len() - 1 {
        assert(keys_of(v)[i] == v[i].0@);
        assert(keys_of(v)[v.len() - 1] == v.last().0@);
        assert(keys_of(v.drop_last()) =~= keys_of(v).drop_last());
        lemma_value_of_at(v.drop_last(), i);
    }
}

/// Where `x` belongs among strictly sorted keys: the first position whose
/// key is not below `x`, and whether that key is `x`.
pub fn find_key<V>(v: &Vec<(String, V)>, x: &str) -> (r: (usize, bool))
    requires
        strictly_sorted(keys_of(v@)),
    ensures
        r.0 <= v@.len(),
        forall|i: int| 0 <= i < r.0 ==> lex_lt(#[trigger] keys_of(v@)[i], x@),
        r.1 ==> r.0 < v@.len() && keys_of(v@)[r.0 as int] == x@,
        !r.1 ==> !keys_of(v@).contains(x@),
        !r.1 && r.0 < v@.len() ==> lex_lt(x@, keys_of(v@)[r.0 as int]),
{
    let ghost ks = keys_of(v@);
    let mut i: usize = 0;
    while i < v.len()
        invariant
            i <= v@.len(),
            ks == keys_of(v@),
            strictly_sorted(ks),
            forall|j: int| 0 <= j < i ==> lex_lt(#[trigger] ks[j], x@),
        decreases v.len() - i,
    {
        let k = v[i].0.as_str();
        proof {
            assert(ks[i as int] == v@[i as int].0@);
        }
        if str_eq(k, x) {
            return (i, true);
        }
        if !str_le(k, x) {
            proof {
                lemma_lex_total(ks[i as int], x@);
                assert forall|j: int| 0 <= j < ks.len() implies #[trigger] ks[j] != x@ by {
                    if j > i {
                        lemma_lex_lt_trans(x@, ks[i as int], ks[j]);
                    }
                }
            }
            return (i, false);
        }
        i = i + 1;
    }
    (i, false)
}

/// A sorted string set: strictly ascending keys.
pub fn set_insert(v: &mut Vec<String>, x: &str)
    requires
        strictly_sorted(views(old(v)@)),
    ensures
        strictly_sorted(views(final(v)@)),
        views(final(v)@).to_set() == views(old(v)@).to_set().insert(x@),
{
    let ghost ks = views(v@);
    let mut i: usize = 0;
    while i < v.len() && str_le(v[i].as_str(), x)
        invariant
            i <= v@.len(),
            ks == views(v@),
            v@ == old(v)@,
            strictly_sorted(ks),
            forall|j: int| 0 <= j < i ==> lex_lt(#[trigger] ks[j], x@),
        decreases v.len() - i,
    {
        let k = v[i].as_str();
        proof {
            assert(ks[i as int] == v@[i as int]@);
        }
        if str_eq(k, x) {
            proof {
                assert(ks.to_set().contains(x@));
                assert(ks.to_set().insert(x@) =~= ks.to_set());
            }
            return;
        }
        i = i + 1;
    }
    proof {
        if i < v@.len() {
            lemma_lex_total(ks[i as int], x@);
        }
    }
    v.insert(i, x.to_owned());
    proof {
        let nk = views(v@);
        assert(nk =~= ks.insert(i as int, x@));
        assert forall|a: int, b: int| 0 <= a < b < nk.len() implies lex_lt(#[trigger] nk[a], #[trigger] nk[b]) by {
            if b == i {
                assert(nk[a] == ks[a]);
            } else if a == i {
                assert(nk[b] == ks[b - 1]);
                if b - 1 > i {
                    lemma_lex_lt_trans(x@, ks[i as int], ks[b - 1]);
                }
            } else if a < i && b > i {
                assert(nk[a] == ks[a] && nk[b] == ks[b - 1]);
            } else if b < i {
                assert(nk[a] == ks[a] && nk[b] == ks[b]);
            } else {
                assert(nk[a] == ks[a - 1] && nk[b] == ks[b - 1]);
            }
        }
        assert(nk.to_set() =~= ks.to_set().insert(x@)) by {
            assert forall|y: Seq<char>| nk.to_set().contains(y) implies ks.to_set().insert(x@).contains(y) by {
                let j = choose|j: int| 0 <= j < nk.len() && nk[j] == y;
                if j < i {
                    assert(ks[j] == y);
                } else if j > i {
                    assert(ks[j - 1] == y);
                }
            }
            assert forall|y: Seq<char>| ks.to_set().insert(x@).contains(y) implies nk.to_set().contains(y) by {
                if y == x@ {
                    assert(nk[i as int] == y);
                } else {
                    let j = choose|j: int| 0 <= j < ks.len() && ks[j] == y;
                    if j < i {
                        assert(nk[j] == y);
                    } else {
                        assert(nk[j + 1] == y);
                    }
                }
            }
        }
    }
}

/// Inserting a new key at its place keeps the keys strictly sorted, and
/// the values of all other keys.
pub proof fn lemma_insert_entry<V>(old_v: Seq<(String, V)>, new_v: Seq<(String, V)>, i: int, e: (String, V))
    requires
        strictly_sorted(keys_of(old_v)),
        0 <= i <= old_v.len(),
        new_v == old_v.insert(i, e),
        forall|j: int| 0 <= j < i ==> lex_lt(#[trigger] keys_of(old_v)[j], e.0@),
        i < old_v.len() ==> lex_lt(e.0@, keys_of(old_v)[i]),
    ensures
        strictly_sorted(keys_of(new_v)),
        keys_of(new_v) == keys_of(old_v).insert(i, e.0@),
        forall|k: Seq<char>| k != e.0@ ==> value_of(new_v, k) == value_of(old_v, k),
        value_of(new_v, e.0@) == Some(e.1),
{
    let ks = keys_of(old_v);
    let nk = keys_of(new_v);
    assert(nk =~= ks.insert(i, e.0@));
    assert forall|a: int, b: int| 0 <= a < b < nk.len() implies lex_lt(#[trigger] nk[a], #[trigger] nk[b]) by {
        if b == i {
            assert(nk[a] == ks[a]);
        } else if a == i {
            assert(nk[b] == ks[b - 1]);
            if b - 1 > i {
                lemma_lex_lt_trans(e.0@, ks[i], ks[b - 1]);
            }
        } else if a < i && b > i {
            assert(nk[a] == ks[a] && nk[b] == ks[b - 1]);
        } else if b < i {
            assert(nk[a] == ks[a] && nk[b] == ks[b]);
        } else {
            assert(nk[a] == ks[a - 1] && nk[b] == ks[b - 1]);
        }
    }
    assert forall|j: int| 0 <= j < ks.len() implies #[trigger] ks[j] != e.0@ by {
        if j > i {
            lemma_lex_lt_trans(e.0@, ks[i], ks[j]);
        }
    }
    lemma_value_of_insert(old_v, i, e);
}

/// `value_of` after inserting an entry whose key is new.
pub proof fn lemma_value_of_insert<V>(v: Seq<(String, V)>, i: int, e: (String, V))
    requires
        0 <= i <= v.len(),
        !keys_of(v).contains(e.0@),
    ensures
        forall|k: Seq<char>| k != e.0@ ==> value_of(v.insert(i, e), k) == value_of(v, k),
        value_of(v.insert(i, e), e.0@) == Some(e.1),
    decreases v.len(),
{
    let w = v.insert(i, e);
    if i == v.len() {
        assert(w.drop_last() =~= v);
        assert(w.last() == e);
        assert forall|k: Seq<char>| k != e.0@ implies value_of(w, k) == value_of(v, k) by {}
    } else {
        assert(w.last() == v.last());
        assert(w.drop_last() =~= v.drop_last().insert(i, e));
        assert(keys_of(v.drop_last()) =~= keys_of(v).drop_last());
        assert(keys_of(v)[v.len() - 1] == v.last().0@);
        lemma_value_of_insert(v.drop_last(), i, e);
        assert forall|k: Seq<char>| k != e.0@ implies value_of(w, k) == value_of(v, k) by {
            if w.last().0@ != k {
                assert(value_of(w, k) == value_of(w.drop_last(), k));
                assert(value_of(v, k) == value_of(v.drop_last(), k));
                assert(value_of(v.drop_last().insert(i, e), k) == value_of(v.drop_last(), k));
            }
        }
    }
}

/// `value_of` after replacing the value at a position.
pub proof fn lemma_value_of_update<V>(v: Seq<(String, V)>, i: int, e: (String, V))
    requires
        0 <= i < v.len(),
        e.0@ == v[i].0@,
        strictly_sorted(keys_of(v)),
    ensures
        strictly_sorted(keys_of(v.update(i, e))),
        keys_of(v.update(i, e)) == keys_of(v),
        forall|k: Seq<char>| k != e.0@ ==> value_of(v.update(i, e), k) == value_of(v, k),
        value_of(v.update(i, e), e.0@) == Some(e.1),
    decreases v.len(),
{
    let w = v.update(i, e);
    assert(keys_of(w) =~= keys_of(v));
    if i == v.len() - 1 {
        assert(w.drop_last() =~= v.drop_last());
        assert(w.last() == e);
        assert forall|k: Seq<char>| k != e.0@ implies value_of(w, k) == value_of(v, k) by {}
    } else {
        assert(w.drop_last() =~= v.drop_last().update(i, e));
        assert(w.last() == v.last());
        assert(keys_of(v.drop_last()) =~= keys_of(v).drop_last());
        assert(keys_of(v)[v.len() - 1] == v.last().0@);
        assert(keys_of(v)[i] == v[i].0@);
        assert(lex_lt(keys_of(v)[i], keys_of(v)[v.len() - 1]));
        lemma_value_of_update(v.drop_last(), i, e);
        assert forall|k: Seq<char>| k != e.0@ implies value_of(w, k) == value_of(v, k) by {
            if w.last().0@ != k {
                assert(value_of(w, k) == value_of(w.drop_last(), k));
                assert(value_of(v, k) == value_of(v.drop_last(), k));
                assert(value_of(v.drop_last().update(i, e), k) == value_of(v.drop_last(), k));
            }
        }
    }
}

/// One more occurrence of `name` in a sorted counting map.
pub fn count_insert(v: &mut Vec<(String, u32)>, name: &str)
    requires
        strictly_sorted(keys_of(old(v)@)),
        match value_of(old(v)@, name@) {
            Some(c) => c < u32::MAX,
            None => true,
        },
    ensures
        strictly_sorted(keys_of(final(v)@)),
        forall|k: Seq<char>| k != name@ ==> value_of(final(v)@, k) == value_of(old(v)@, k),
        value_of(final(v)@, name@) == Some(
            match value_of(old(v)@, name@) {
                Some(c) => (c + 1) as u32,
                None => 1u32,
            },
        ),
{
    let (pos, found) = find_key(v, name);
    if found {
        proof {
            assert(keys_of(v@)[pos as int] == v@[pos as int].0@);
            lemma_value_of_at(v@, pos as int);
        }
        let c = v[pos].1;
        let e = (v[pos].0.clone(), c + 1);
        proof {
            lemma_value_of_update(v@, pos as int, e);
        }
        v.set(pos, e);
    } else {
        proof {
            lemma_value_of_absent(v@, name@);
        }
        let e = (name.to_owned(), 1u32);
        proof {
            lemma_insert_entry(v@, v@.insert(pos as int, e), pos as int, e);
        }
        v.insert(pos, e);
    }
}

/// Whether a map holds a key exactly when it has a value for it.
pub proof fn lemma_keys_values<V>(v: Seq<(String, V)>, k: Seq<char>)
    requires
        strictly_sorted(keys_of(v)),
    ensures
        keys_of(v).contains(k) <==> value_of(v, k).is_some(),
{
    if keys_of(v).contains(k) {
        let i = choose|i: int| 0 <= i < keys_of(v).len() && keys_of(v)[i] == k;
        lemma_value_of_at(v, i);
    } else {
        lemma_value_of_absent(v, k);
    }
}

} // verus!
