//! The integer sub-steps of the dot-product bindings.
//!
//! A dot-product immediate carries two sub-fields: a condition mask naming
//! the lane pairs whose products enter the sum, and a broadcast mask naming
//! the result lanes that receive the sum (every other result lane is
//! zero).  Reading the sub-fields and broadcasting the sum are exact
//! bit-level operations and are verified here; only the floating-point
//! multiply and add themselves stay outside the library.

use vstd::prelude::*;

use crate::blend::spec_imm_bit;
use crate::registers::F32x4Bits;
use crate::registers::F64x2Bits;

verus! {

broadcast use vstd::array::group_array_axioms;

/// The 64-bit broadcast: result lane `k` receives `sum` when broadcast
/// mask bit `k` (bit `k` of the immediate) is set, and zero otherwise.
pub open spec fn spec_dp_broadcast_pd(sum: u64, imm: u8) -> Seq<u64> {
    Seq::new(2, |k: int| if spec_imm_bit(imm, k) { sum } else { 0u64 })
}

/// The 32-bit broadcast: result lane `k` receives `sum` when broadcast
/// mask bit `k` (bit `k` of the immediate) is set, and zero otherwise.
pub open spec fn spec_dp_broadcast_ps(sum: u32, imm: u8) -> Seq<u32> {
    Seq::new(4, |k: int| if spec_imm_bit(imm, k) { sum } else { 0u32 })
}

/// Reads the condition mask of a 64-bit dot-product immediate: bits 5:4
/// name the lane pairs whose products enter the sum.
pub fn dp_condition_pd(imm8: u8) -> (r: [bool; 2])
    ensures
        r@[0] == spec_imm_bit(imm8, 4),
        r@[1] == spec_imm_bit(imm8, 5),
{
    [(imm8 >> 4u8) & 1 == 1, (imm8 >> 5u8) & 1 == 1]
}

/// Reads the condition mask of a 32-bit dot-product immediate: bits 7:4
/// name the lane pairs whose products enter the sum.
pub fn dp_condition_ps(imm8: u8) -> (r: [bool; 4])
    ensures
        r@[0] == spec_imm_bit(imm8, 4),
        r@[1] == spec_imm_bit(imm8, 5),
        r@[2] == spec_imm_bit(imm8, 6),
        r@[3] == spec_imm_bit(imm8, 7),
{
    [
        (imm8 >> 4u8) & 1 == 1,
        (imm8 >> 5u8) & 1 == 1,
        (imm8 >> 6u8) & 1 == 1,
        (imm8 >> 7u8) & 1 == 1,
    ]
}

/// Broadcasts a 64-bit sum into the result lanes named by bits 1:0 of the
/// immediate; the other lanes are zero.
pub fn dp_broadcast_pd(sum: u64, imm8: u8) -> (r: F64x2Bits)
    ensures
        r@ == spec_dp_broadcast_pd(sum, imm8),
{
    let l0: u64 = if (imm8 >> 0u8) & 1 == 1 {
        sum
    } else {
        0
    };
    let l1: u64 = if (imm8 >> 1u8) & 1 == 1 {
        sum
    } else {
        0
    };
    let r = F64x2Bits { lanes: [l0, l1] };
    proof {
        assert(r@ =~= spec_dp_broadcast_pd(sum, imm8));
    }
    r
}

/// Broadcasts a 32-bit sum into the result lanes named by bits 3:0 of the
/// immediate; the other lanes are zero.
pub fn dp_broadcast_ps(sum: u32, imm8: u8) -> (r: F32x4Bits)
    ensures
        r@ == spec_dp_broadcast_ps(sum, imm8),
{
    let mut lanes: [u32; 4] = [0; 4];
    let mut k: usize = 0;
    while k < 4
        invariant
            k <= 4,
            forall|j: int| 0 <= j < k ==> lanes@[j] == spec_dp_broadcast_ps(sum, imm8)[j],
        decreases 4 - k,
    {
        lanes[k] = if (imm8 >> (k as u8)) & 1 == 1 {
            sum
        } else {
            0
        };
        k += 1;
    }
    let r = F32x4Bits { lanes };
    proof {
        assert(r@ =~= spec_dp_broadcast_ps(sum, imm8));
    }
    r
}

} // verus!
