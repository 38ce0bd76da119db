//! Horizontal reduction: the minimum unsigned 16-bit lane and its index.

use vstd::prelude::*;

use crate::registers::U16x8;

verus! {

broadcast use vstd::array::group_array_axioms;

/// `v` is the minimum lane of `s` and `idx` the lowest index carrying it.
pub open spec fn spec_is_min_u16(s: Seq<u16>, v: u16, idx: int) -> bool {
    &&& 0 <= idx < 8
    &&& s[idx] == v
    &&& forall|j: int| 0 <= j < 8 ==> v <= s[j]
    &&& forall|j: int| 0 <= j < idx ==> v < s[j]
}

/// Finds the minimum unsigned 16-bit lane of `a` and its lane index, ties
/// broken by the lowest index.  Lane 0 of the result holds the minimum,
/// lane 1 its index, and every other lane is zero.
pub fn _mm_minpos_epu16(a: U16x8) -> (r: U16x8)
    ensures
        r@.len() == 8,
        spec_is_min_u16(a@, r@[0], r@[1] as int),
        forall|k: int| 2 <= k < 8 ==> r@[k] == 0,
{
    let mut best: u16 = a.lanes[0];
    let mut bidx: u16 = 0;
    let mut k: usize = 1;
    while k < 8
        invariant
            1 <= k <= 8,
            (bidx as int) < k,
            a@[bidx as int] == best,
            forall|j: int| 0 <= j < k ==> best <= a@[j],
            forall|j: int| 0 <= j < bidx as int ==> best < a@[j],
        decreases 8 - k,
    {
        if a.lanes[k] < best {
            best = a.lanes[k];
            bidx = k as u16;
        }
        k += 1;
    }
    U16x8 { lanes: [best, bidx, 0, 0, 0, 0, 0, 0] }
}

} // verus!
