//! Lane-wise multiplication and equality comparison.

use vstd::prelude::*;

use crate::registers::I32x4;
use crate::registers::I64x2;

verus! {

broadcast use vstd::array::group_array_axioms;

/// The low 32 bits of the product of two signed 32-bit lanes, reinterpreted
/// as a signed integer (wrapping multiplication).
pub open spec fn spec_mullo_epi32(x: i32, y: i32) -> i32 {
    ((x as int) * (y as int)) as i32
}

proof fn lemma_i32_mul_fits_i64(x: int, y: int)
    by (nonlinear_arith)
    requires
        -0x8000_0000 <= x < 0x8000_0000,
        -0x8000_0000 <= y < 0x8000_0000,
    ensures
        -0x4000_0000_0000_0000 <= x * y <= 0x4000_0000_0000_0000,
{
}

/// Compares packed 64-bit lanes of `a` and `b` for equality; an equal pair
/// yields an all-bits-set lane, an unequal one an all-bits-clear lane.
pub fn _mm_cmpeq_epi64(a: I64x2, b: I64x2) -> (r: I64x2)
    ensures
        r@ == Seq::new(2, |k: int| if a@[k] == b@[k] { -1i64 } else { 0i64 }),
{
    let r = a.eq_lanes(b);
    proof {
        assert(r@ =~= Seq::new(2, |k: int| if a@[k] == b@[k] { -1i64 } else { 0i64 }));
    }
    r
}

/// Multiplies the low (even-indexed) 32-bit lane of each 64-bit half of `a`
/// and `b`, sign-extended, and returns the full signed 64-bit products.
pub fn _mm_mul_epi32(a: I32x4, b: I32x4) -> (r: I64x2)
    ensures
        r@.len() == 2,
        r@[0] == (a@[0] as int) * (b@[0] as int),
        r@[1] == (a@[2] as int) * (b@[2] as int),
{
    proof {
        lemma_i32_mul_fits_i64(a@[0] as int, b@[0] as int);
        lemma_i32_mul_fits_i64(a@[2] as int, b@[2] as int);
    }
    let l0: i64 = (a.lanes[0] as i64) * (b.lanes[0] as i64);
    let l1: i64 = (a.lanes[2] as i64) * (b.lanes[2] as i64);
    I64x2 { lanes: [l0, l1] }
}

/// Multiplies packed signed 32-bit lanes of `a` and `b` and returns the low
/// 32 bits of each 64-bit product, reinterpreted as a signed integer
/// (wrapping arithmetic).
pub fn _mm_mullo_epi32(a: I32x4, b: I32x4) -> (r: I32x4)
    ensures
        r@ == Seq::new(4, |k: int| spec_mullo_epi32(a@[k], b@[k])),
{
    let mut lanes: [i32; 4] = [0; 4];
    let mut k: usize = 0;
    while k < 4
        invariant
            k <= 4,
            forall|j: int| 0 <= j < k ==> lanes@[j] == spec_mullo_epi32(a@[j], b@[j]),
        decreases 4 - k,
    {
        proof {
            lemma_i32_mul_fits_i64(a@[k as int] as int, b@[k as int] as int);
        }
        let p: i64 = (a.lanes[k] as i64) * (b.lanes[k] as i64);
        lanes[k] = #[verifier::truncate] (p as i32);
        k += 1;
    }
    let r = I32x4 { lanes };
    proof {
        assert(r@ =~= Seq::new(4, |k: int| spec_mullo_epi32(a@[k], b@[k])));
    }
    r
}

} // verus!
