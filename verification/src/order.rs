//! Sorting strings in `str` order, by an insertion sort over indices.
use vstd::prelude::*;

use crate::chars::{chars_le, lemma_lex_total, lemma_lex_trans, lex_le};

verus! {

/// Whether position `k` occurs in `idx`.
pub open spec fn lists(idx: Seq<usize>, k: int) -> bool {
    exists|a: int| 0 <= a < idx.len() && #[trigger] idx[a] == k
}

/// `idx` lists the positions `0..n`, each exactly once.
pub open spec fn is_index_perm(idx: Seq<usize>, n: int) -> bool {
    &&& idx.len() == n
    &&& forall|a: int| 0 <= a < n ==> #[trigger] idx[a] < n
    &&& forall|a: int, b: int| 0 <= a < b < n ==> idx[a] != idx[b]
    &&& forall|k: int| 0 <= k < n ==> #[trigger] lists(idx, k)
}

/// The keys named by `idx` come in `str` order.
pub open spec fn sorted_by(keys: Seq<Seq<char>>, idx: Seq<usize>) -> bool {
    forall|a: int, b: int|
        0 <= a < b < idx.len() ==> lex_le(#[trigger] keys[idx[a] as int], #[trigger] keys[idx[b] as int])
}

/// The positions of `keys`, ordered so that the keys come in `str` order.
pub fn sorted_order(keys: &Vec<Vec<char>>) -> (idx: Vec<usize>)
    ensures
        is_index_perm(idx@, keys.len() as int),
        sorted_by(keys@.map_values(|k: Vec<char>| k@), idx@),
{
    let ghost kv = keys@.map_values(|k: Vec<char>| k@);
    let mut idx: Vec<usize> = Vec::new();
    let mut i: usize = 0;
    while i < keys.len()
        invariant
            i <= keys.len(),
            kv == keys@.map_values(|k: Vec<char>| k@),
            is_index_perm(idx@, i as int),
            sorted_by(kv, idx@),
        decreases keys.len() - i,
    {
        let mut pos: usize = 0;
        while pos < idx.len() && chars_le(&keys[idx[pos]], &keys[i])
            invariant
                pos <= idx.len(),
                idx.len() == i,
                i < keys.len(),
                kv == keys@.map_values(|k: Vec<char>| k@),
                is_index_perm(idx@, i as int),
                forall|a: int| 0 <= a < pos ==> lex_le(#[trigger] kv[idx@[a] as int], kv[i as int]),
            decreases idx.len() - pos,
        {
            pos = pos + 1;
        }
        let ghost old_idx = idx@;
        proof {
            if pos < idx.len() {
                lemma_lex_total(kv[idx@[pos as int] as int], kv[i as int]);
            }
        }
        idx.insert(pos, i);
        proof {
            let n = idx@;
            assert(n == old_idx.insert(pos as int, i));
            assert forall|a: int, b: int| 0 <= a < b < n.len() implies lex_le(
                #[trigger] kv[n[a] as int],
                #[trigger] kv[n[b] as int],
            ) by {
                if b < pos {
                    assert(n[a] == old_idx[a] && n[b] == old_idx[b]);
                } else if b == pos {
                    assert(n[a] == old_idx[a]);
                } else if a == pos {
                    assert(n[b] == old_idx[b - 1]);
                    if b - 1 > pos {
                        lemma_lex_trans(
                            kv[i as int],
                            kv[old_idx[pos as int] as int],
                            kv[old_idx[b - 1] as int],
                        );
                    }
                } else if a < pos {
                    assert(n[a] == old_idx[a] && n[b] == old_idx[b - 1]);
                } else {
                    assert(n[a] == old_idx[a - 1] && n[b] == old_idx[b - 1]);
                }
            }
            assert forall|k: int| 0 <= k < i + 1 implies #[trigger] lists(n, k) by {
                if k == i {
                    assert(n[pos as int] == k);
                } else {
                    assert(lists(old_idx, k));
                    let a0 = choose|a: int| 0 <= a < i && #[trigger] old_idx[a] == k;
                    if a0 < pos {
                        assert(n[a0] == k);
                    } else {
                        assert(n[a0 + 1] == k);
                    }
                }
            }
            assert forall|a: int| 0 <= a < i + 1 implies #[trigger] n[a] < i + 1 by {
                if a < pos {
                    assert(n[a] == old_idx[a]);
                } else if a > pos {
                    assert(n[a] == old_idx[a - 1]);
                }
            }
            assert forall|a: int, b: int| 0 <= a < b < i + 1 implies n[a] != n[b] by {
                if a < pos && b < pos {
                    assert(n[a] == old_idx[a] && n[b] == old_idx[b]);
                } else if a < pos && b == pos {
                    assert(n[a] == old_idx[a]);
                    assert(old_idx[a] < i);
                } else if a < pos && b > pos {
                    assert(n[a] == old_idx[a] && n[b] == old_idx[b - 1]);
                } else if a == pos {
                    assert(n[b] == old_idx[b - 1]);
                    assert(old_idx[b - 1] < i);
                } else {
                    assert(n[a] == old_idx[a - 1] && n[b] == old_idx[b - 1]);
                }
            }
        }
        i = i + 1;
    }
    idx
}

} // verus!
