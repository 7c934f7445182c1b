//! Lookups in vectors of `(index, value)` pairs.
//!
//! Revealed messages, unrevealed messages and caller-supplied blindings are
//! all carried as vectors of pairs keyed by a message index. These helpers
//! define what it means for such a vector to hold an index, and perform the
//! lookup in executable code.

use vstd::prelude::*;
use crate::backend::Scalar;

verus! {

/// Whether some pair in `v` has index `i`.
pub open spec fn has_idx(v: Seq<(usize, Scalar)>, i: int) -> bool {
    exists|k: int| 0 <= k < v.len() && #[trigger] v[k].0 == i
}

/// The indices of `v` are pairwise distinct, so an index identifies at most
/// one value.
pub open spec fn distinct_indices(v: Seq<(usize, Scalar)>) -> bool {
    forall|k1: int, k2: int|
        0 <= k1 < k2 < v.len() ==> #[trigger] v[k1].0 != #[trigger] v[k2].0
}

/// The value paired with index `i` in `v`, where one exists.
pub open spec fn value_at(v: Seq<(usize, Scalar)>, i: int) -> Scalar {
    v[choose|k: int| 0 <= k < v.len() && #[trigger] v[k].0 == i].1
}

/// Looks an index up in a pair vector with distinct indices.
pub fn find_value(v: &Vec<(usize, Scalar)>, i: usize) -> (r: Option<Scalar>)
    requires
        distinct_indices(v@),
    ensures
        r is Some <==> has_idx(v@, i as int),
        r matches Some(s) ==> s == value_at(v@, i as int),
{
    let mut k: usize = 0;
    while k < v.len()
        invariant
            0 <= k <= v@.len(),
            distinct_indices(v@),
            forall|j: int| 0 <= j < k ==> #[trigger] v@[j].0 != i,
        decreases v@.len() - k,
    {
        if v[k].0 == i {
            let s = v[k].1.clone();
            assert(has_idx(v@, i as int));
            assert(s == value_at(v@, i as int));
            return Some(s);
        }
        k = k + 1;
    }
    assert(!has_idx(v@, i as int));
    None
}

} // verus!
