//! Per-lane minimum and maximum across the signed and unsigned lane views.

use vstd::prelude::*;

use crate::registers::I32x4;
use crate::registers::I8x16;
use crate::registers::U16x8;
use crate::registers::U32x4;

verus! {

broadcast use vstd::array::group_array_axioms;

/// The per-lane maximum of two sequences of signed 8-bit lanes.
pub open spec fn spec_max_epi8(a: Seq<i8>, b: Seq<i8>) -> Seq<i8> {
    Seq::new(16, |k: int| if a[k] > b[k] { a[k] } else { b[k] })
}

/// Compares packed signed 8-bit lanes of `a` and `b` and returns the
/// per-lane maximum.
pub fn _mm_max_epi8(a: I8x16, b: I8x16) -> (r: I8x16)
    ensures
        r@ == spec_max_epi8(a@, b@),
{
    let mut lanes: [i8; 16] = [0; 16];
    let mut k: usize = 0;
    while k < 16
        invariant
            k <= 16,
            forall|j: int| 0 <= j < k ==> lanes@[j] == spec_max_epi8(a@, b@)[j],
        decreases 16 - k,
    {
        lanes[k] = if a.lanes[k] > b.lanes[k] {
            a.lanes[k]
        } else {
            b.lanes[k]
        };
        k += 1;
    }
    let r = I8x16 { lanes };
    proof {
        assert(r@ =~= spec_max_epi8(a@, b@));
    }
    r
}

/// The per-lane maximum of two sequences of unsigned 16-bit lanes.
pub open spec fn spec_max_epu16(a: Seq<u16>, b: Seq<u16>) -> Seq<u16> {
    Seq::new(8, |k: int| if a[k] > b[k] { a[k] } else { b[k] })
}

/// Compares packed unsigned 16-bit lanes of `a` and `b` and returns the
/// per-lane maximum.
pub fn _mm_max_epu16(a: U16x8, b: U16x8) -> (r: U16x8)
    ensures
        r@ == spec_max_epu16(a@, b@),
{
    let mut lanes: [u16; 8] = [0; 8];
    let mut k: usize = 0;
    while k < 8
        invariant
            k <= 8,
            forall|j: int| 0 <= j < k ==> lanes@[j] == spec_max_epu16(a@, b@)[j],
        decreases 8 - k,
    {
        lanes[k] = if a.lanes[k] > b.lanes[k] {
            a.lanes[k]
        } else {
            b.lanes[k]
        };
        k += 1;
    }
    let r = U16x8 { lanes };
    proof {
        assert(r@ =~= spec_max_epu16(a@, b@));
    }
    r
}

/// The per-lane maximum of two sequences of signed 32-bit lanes.
pub open spec fn spec_max_epi32(a: Seq<i32>, b: Seq<i32>) -> Seq<i32> {
    Seq::new(4, |k: int| if a[k] > b[k] { a[k] } else { b[k] })
}

/// Compares packed signed 32-bit lanes of `a` and `b` and returns the
/// per-lane maximum.
pub fn _mm_max_epi32(a: I32x4, b: I32x4) -> (r: I32x4)
    ensures
        r@ == spec_max_epi32(a@, b@),
{
    let mut lanes: [i32; 4] = [0; 4];
    let mut k: usize = 0;
    while k < 4
        invariant
            k <= 4,
            forall|j: int| 0 <= j < k ==> lanes@[j] == spec_max_epi32(a@, b@)[j],
        decreases 4 - k,
    {
        lanes[k] = if a.lanes[k] > b.lanes[k] {
            a.lanes[k]
        } else {
            b.lanes[k]
        };
        k += 1;
    }
    let r = I32x4 { lanes };
    proof {
        assert(r@ =~= spec_max_epi32(a@, b@));
    }
    r
}

/// The per-lane maximum of two sequences of unsigned 32-bit lanes.
pub open spec fn spec_max_epu32(a: Seq<u32>, b: Seq<u32>) -> Seq<u32> {
    Seq::new(4, |k: int| if a[k] > b[k] { a[k] } else { b[k] })
}

/// Compares packed unsigned 32-bit lanes of `a` and `b` and returns the
/// per-lane maximum.
pub fn _mm_max_epu32(a: U32x4, b: U32x4) -> (r: U32x4)
    ensures
        r@ == spec_max_epu32(a@, b@),
{
    let mut lanes: [u32; 4] = [0; 4];
    let mut k: usize = 0;
    while k < 4
        invariant
            k <= 4,
            forall|j: int| 0 <= j < k ==> lanes@[j] == spec_max_epu32(a@, b@)[j],
        decreases 4 - k,
    {
        lanes[k] = if a.lanes[k] > b.lanes[k] {
            a.lanes[k]
        } else {
            b.lanes[k]
        };
        k += 1;
    }
    let r = U32x4 { lanes };
    proof {
        assert(r@ =~= spec_max_epu32(a@, b@));
    }
    r
}

/// The per-lane minimum of two sequences of signed 8-bit lanes.
pub open spec fn spec_min_epi8(a: Seq<i8>, b: Seq<i8>) -> Seq<i8> {
    Seq::new(16, |k: int| if a[k] < b[k] { a[k] } else { b[k] })
}

/// Compares packed signed 8-bit lanes of `a` and `b` and returns the
/// per-lane minimum.
pub fn _mm_min_epi8(a: I8x16, b: I8x16) -> (r: I8x16)
    ensures
        r@ == spec_min_epi8(a@, b@),
{
    let mut lanes: [i8; 16] = [0; 16];
    let mut k: usize = 0;
    while k < 16
        invariant
            k <= 16,
            forall|j: int| 0 <= j < k ==> lanes@[j] == spec_min_epi8(a@, b@)[j],
        decreases 16 - k,
    {
        lanes[k] = if a.lanes[k] < b.lanes[k] {
            a.lanes[k]
        } else {
            b.lanes[k]
        };
        k += 1;
    }
    let r = I8x16 { lanes };
    proof {
        assert(r@ =~= spec_min_epi8(a@, b@));
    }
    r
}

/// The per-lane minimum of two sequences of unsigned 16-bit lanes.
pub open spec fn spec_min_epu16(a: Seq<u16>, b: Seq<u16>) -> Seq<u16> {
    Seq::new(8, |k: int| if a[k] < b[k] { a[k] } else { b[k] })
}

/// Compares packed unsigned 16-bit lanes of `a` and `b` and returns the
/// per-lane minimum.
pub fn _mm_min_epu16(a: U16x8, b: U16x8) -> (r: U16x8)
    ensures
        r@ == spec_min_epu16(a@, b@),
{
    let mut lanes: [u16; 8] = [0; 8];
    let mut k: usize = 0;
    while k < 8
        invariant
            k <= 8,
            forall|j: int| 0 <= j < k ==> lanes@[j] == spec_min_epu16(a@, b@)[j],
        decreases 8 - k,
    {
        lanes[k] = if a.lanes[k] < b.lanes[k] {
            a.lanes[k]
        } else {
            b.lanes[k]
        };
        k += 1;
    }
    let r = U16x8 { lanes };
    proof {
        assert(r@ =~= spec_min_epu16(a@, b@));
    }
    r
}

/// The per-lane minimum of two sequences of signed 32-bit lanes.
pub open spec fn spec_min_epi32(a: Seq<i32>, b: Seq<i32>) -> Seq<i32> {
    Seq::new(4, |k: int| if a[k] < b[k] { a[k] } else { b[k] })
}

/// Compares packed signed 32-bit lanes of `a` and `b` and returns the
/// per-lane minimum.
pub fn _mm_min_epi32(a: I32x4, b: I32x4) -> (r: I32x4)
    ensures
        r@ == spec_min_epi32(a@, b@),
{
    let mut lanes: [i32; 4] = [0; 4];
    let mut k: usize = 0;
    while k < 4
        invariant
            k <= 4,
            forall|j: int| 0 <= j < k ==> lanes@[j] == spec_min_epi32(a@, b@)[j],
        decreases 4 - k,
    {
        lanes[k] = if a.lanes[k] < b.lanes[k] {
            a.lanes[k]
        } else {
            b.lanes[k]
        };
        k += 1;
    }
    let r = I32x4 { lanes };
    proof {
        assert(r@ =~= spec_min_epi32(a@, b@));
    }
    r
}

/// The per-lane minimum of two sequences of unsigned 32-bit lanes.
pub open spec fn spec_min_epu32(a: Seq<u32>, b: Seq<u32>) -> Seq<u32> {
    Seq::new(4, |k: int| if a[k] < b[k] { a[k] } else { b[k] })
}

/// Compares packed unsigned 32-bit lanes of `a` and `b` and returns the
/// per-lane minimum.
pub fn _mm_min_epu32(a: U32x4, b: U32x4) -> (r: U32x4)
    ensures
        r@ == spec_min_epu32(a@, b@),
{
    let mut lanes: [u32; 4] = [0; 4];
    let mut k: usize = 0;
    while k < 4
        invariant
            k <= 4,
            forall|j: int| 0 <= j < k ==> lanes@[j] == spec_min_epu32(a@, b@)[j],
        decreases 4 - k,
    {
        lanes[k] = if a.lanes[k] < b.lanes[k] {
            a.lanes[k]
        } else {
            b.lanes[k]
        };
        k += 1;
    }
    let r = U32x4 { lanes };
    proof {
        assert(r@ =~= spec_min_epu32(a@, b@));
    }
    r
}

} // verus!
