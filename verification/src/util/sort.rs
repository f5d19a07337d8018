//! An ascending sort for vectors of 64-bit values, used to make per-tag
//! checksums order-independent before combining them.

use vstd::prelude::*;
use vstd::relations::{sorted_by, total_ordering};
use vstd::seq_lib::lemma_sorted_unique;

verus! {

/// The ascending order on `u64` values.
pub open spec fn u64_leq() -> spec_fn(u64, u64) -> bool {
    |x: u64, y: u64| x <= y
}

/// The ascending order on `u64` is total.
pub proof fn lemma_u64_leq_total()
    ensures
        total_ordering(u64_leq()),
{
}

/// Sorts the values ascending; the result is the (unique) sorted permutation
/// of the input.
pub fn sort_u64(v: &Vec<u64>) -> (r: Vec<u64>)
    ensures
        r@ == v@.sort_by(u64_leq()),
        sorted_by(r@, u64_leq()),
        r@.to_multiset() == v@.to_multiset(),
{
    broadcast use vstd::seq_lib::group_to_multiset_ensures;

    let mut r: Vec<u64> = Vec::new();
    let mut i: usize = 0;
    assert(v@.take(0).to_multiset() =~= r@.to_multiset());
    while i < v.len()
        invariant
            i <= v.len(),
            sorted_by(r@, u64_leq()),
            r@.to_multiset() == v@.take(i as int).to_multiset(),
        decreases v.len() - i,
    {
        let x = v[i];
        let mut p: usize = 0;
        while p < r.len() && r[p] <= x
            invariant
                p <= r.len(),
                forall|k: int| 0 <= k < p ==> r@[k] <= x,
            decreases r.len() - p,
        {
            p = p + 1;
        }
        let ghost old_r = r@;
        r.insert(p, x);
        proof {
            assert forall|a: int, b: int| 0 <= a < b < r@.len() implies u64_leq()(
                r@[a],
                r@[b],
            ) by {
                if b < p {
                    assert(r@[a] == old_r[a] && r@[b] == old_r[b]);
                } else if a > p {
                    assert(r@[a] == old_r[a - 1] && r@[b] == old_r[b - 1]);
                } else if a < p && b == p {
                    assert(r@[a] == old_r[a] && r@[b] == x);
                } else if a == p && b > p {
                    assert(r@[a] == x && r@[b] == old_r[b - 1]);
                    assert(p < old_r.len() && x < old_r[p as int]);
                    if b - 1 > p {
                        assert(u64_leq()(old_r[p as int], old_r[b - 1]));
                    }
                } else if a < p && b > p {
                    assert(r@[a] == old_r[a] && r@[b] == old_r[b - 1]);
                }
            }
            assert(v@.take(i + 1) =~= v@.take(i as int).push(x));
            vstd::seq_lib::to_multiset_build(v@.take(i as int), x);
            vstd::seq_lib::to_multiset_insert(old_r, p as int, x);
            assert(r@.to_multiset() =~= old_r.to_multiset().insert(x));
        }
        i = i + 1;
    }
    proof {
        assert(v@.take(v.len() as int) =~= v@);
        let s = v@.sort_by(u64_leq());
        v@.lemma_sort_by_ensures(u64_leq());
        lemma_sorted_unique(r@, s, u64_leq());
        assert(r@ =~= s);
    }
    r
}

} // verus!
