//! Lane-width conversions: widening sign/zero extension and the saturating
//! narrowing pack.
//!
//! A widening conversion reads only the first `k` lanes of its input, where
//! `k` is the output lane count; the remaining input lanes are never read.
//! The saturating pack clamps each signed 32-bit lane to the unsigned
//! 16-bit range instead of wrapping.

use vstd::prelude::*;

use crate::registers::I16x8;
use crate::registers::I32x4;
use crate::registers::I64x2;
use crate::registers::I8x16;
use crate::registers::U16x8;
use crate::registers::U32x4;
use crate::registers::U8x16;

verus! {

broadcast use vstd::array::group_array_axioms;

/// A signed 32-bit value clamped to the unsigned 16-bit range.
pub open spec fn spec_sat_u16_of_i32(x: i32) -> u16 {
    if x < 0 {
        0u16
    } else if x > 0xFFFF {
        0xFFFFu16
    } else {
        x as u16
    }
}

/// The saturating pack of two sequences of signed 32-bit lanes into eight
/// unsigned 16-bit lanes: the lanes of `a` first, then the lanes of `b`.
pub open spec fn spec_packus_epi32(a: Seq<i32>, b: Seq<i32>) -> Seq<u16> {
    Seq::new(8, |k: int| if k < 4 { spec_sat_u16_of_i32(a[k]) } else { spec_sat_u16_of_i32(b[k - 4]) })
}

fn sat_u16_of_i32(x: i32) -> (r: u16)
    ensures
        r == spec_sat_u16_of_i32(x),
{
    if x < 0 {
        0
    } else if x > 0xFFFF {
        0xFFFF
    } else {
        x as u16
    }
}

/// Packs the signed 32-bit lanes of `a` and `b` into unsigned 16-bit lanes
/// with unsigned saturation: out-of-range values clamp to `0` or `0xFFFF`.
pub fn _mm_packus_epi32(a: I32x4, b: I32x4) -> (r: U16x8)
    ensures
        r@ == spec_packus_epi32(a@, b@),
{
    let mut lanes: [u16; 8] = [0; 8];
    let mut k: usize = 0;
    while k < 4
        invariant
            k <= 4,
            forall|j: int| 0 <= j < k ==> lanes@[j] == spec_packus_epi32(a@, b@)[j],
            forall|j: int| 4 <= j < 4 + k ==> lanes@[j] == spec_packus_epi32(a@, b@)[j],
        decreases 4 - k,
    {
        lanes[k] = sat_u16_of_i32(a.lanes[k]);
        lanes[k + 4] = sat_u16_of_i32(b.lanes[k]);
        k += 1;
    }
    let r = U16x8 { lanes };
    proof {
        assert(r@ =~= spec_packus_epi32(a@, b@));
    }
    r
}

/// Sign-extends the first 8 signed 8-bit lanes of `a` to 16-bit lanes.
///
/// Lanes of `a` beyond the first 8 are never read.
pub fn _mm_cvtepi8_epi16(a: I8x16) -> (r: I16x8)
    ensures
        r@ == Seq::new(8, |k: int| a@[k] as i16),
{
    let mut lanes: [i16; 8] = [0; 8];
    let mut k: usize = 0;
    while k < 8
        invariant
            k <= 8,
            forall|j: int| 0 <= j < k ==> lanes@[j] == a@[j] as i16,
        decreases 8 - k,
    {
        lanes[k] = a.lanes[k] as i16;
        k += 1;
    }
    let r = I16x8 { lanes };
    proof {
        assert(r@ =~= Seq::new(8, |k: int| a@[k] as i16));
    }
    r
}

/// Sign-extends the first 4 signed 8-bit lanes of `a` to 32-bit lanes.
///
/// Lanes of `a` beyond the first 4 are never read.
pub fn _mm_cvtepi8_epi32(a: I8x16) -> (r: I32x4)
    ensures
        r@ == Seq::new(4, |k: int| a@[k] as i32),
{
    let mut lanes: [i32; 4] = [0; 4];
    let mut k: usize = 0;
    while k < 4
        invariant
            k <= 4,
            forall|j: int| 0 <= j < k ==> lanes@[j] == a@[j] as i32,
        decreases 4 - k,
    {
        lanes[k] = a.lanes[k] as i32;
        k += 1;
    }
    let r = I32x4 { lanes };
    proof {
        assert(r@ =~= Seq::new(4, |k: int| a@[k] as i32));
    }
    r
}

/// Sign-extends the first 2 signed 8-bit lanes of `a` to 64-bit lanes.
///
/// Lanes of `a` beyond the first 2 are never read.
pub fn _mm_cvtepi8_epi64(a: I8x16) -> (r: I64x2)
    ensures
        r@ == Seq::new(2, |k: int| a@[k] as i64),
{
    let mut lanes: [i64; 2] = [0; 2];
    let mut k: usize = 0;
    while k < 2
        invariant
            k <= 2,
            forall|j: int| 0 <= j < k ==> lanes@[j] == a@[j] as i64,
        decreases 2 - k,
    {
        lanes[k] = a.lanes[k] as i64;
        k += 1;
    }
    let r = I64x2 { lanes };
    proof {
        assert(r@ =~= Seq::new(2, |k: int| a@[k] as i64));
    }
    r
}

/// Sign-extends the first 4 signed 16-bit lanes of `a` to 32-bit lanes.
///
/// Lanes of `a` beyond the first 4 are never read.
pub fn _mm_cvtepi16_epi32(a: I16x8) -> (r: I32x4)
    ensures
        r@ == Seq::new(4, |k: int| a@[k] as i32),
{
    let mut lanes: [i32; 4] = [0; 4];
    let mut k: usize = 0;
    while k < 4
        invariant
            k <= 4,
            forall|j: int| 0 <= j < k ==> lanes@[j] == a@[j] as i32,
        decreases 4 - k,
    {
        lanes[k] = a.lanes[k] as i32;
        k += 1;
    }
    let r = I32x4 { lanes };
    proof {
        assert(r@ =~= Seq::new(4, |k: int| a@[k] as i32));
    }
    r
}

/// Sign-extends the first 2 signed 16-bit lanes of `a` to 64-bit lanes.
///
/// Lanes of `a` beyond the first 2 are never read.
pub fn _mm_cvtepi16_epi64(a: I16x8) -> (r: I64x2)
    ensures
        r@ == Seq::new(2, |k: int| a@[k] as i64),
{
    let mut lanes: [i64; 2] = [0; 2];
    let mut k: usize = 0;
    while k < 2
        invariant
            k <= 2,
            forall|j: int| 0 <= j < k ==> lanes@[j] == a@[j] as i64,
        decreases 2 - k,
    {
        lanes[k] = a.lanes[k] as i64;
        k += 1;
    }
    let r = I64x2 { lanes };
    proof {
        assert(r@ =~= Seq::new(2, |k: int| a@[k] as i64));
    }
    r
}

/// Sign-extends the first 2 signed 32-bit lanes of `a` to 64-bit lanes.
///
/// Lanes of `a` beyond the first 2 are never read.
pub fn _mm_cvtepi32_epi64(a: I32x4) -> (r: I64x2)
    ensures
        r@ == Seq::new(2, |k: int| a@[k] as i64),
{
    let mut lanes: [i64; 2] = [0; 2];
    let mut k: usize = 0;
    while k < 2
        invariant
            k <= 2,
            forall|j: int| 0 <= j < k ==> lanes@[j] == a@[j] as i64,
        decreases 2 - k,
    {
        lanes[k] = a.lanes[k] as i64;
        k += 1;
    }
    let r = I64x2 { lanes };
    proof {
        assert(r@ =~= Seq::new(2, |k: int| a@[k] as i64));
    }
    r
}

/// Zero-extends the first 8 unsigned 8-bit lanes of `a` to 16-bit lanes.
///
/// Lanes of `a` beyond the first 8 are never read.
pub fn _mm_cvtepu8_epi16(a: U8x16) -> (r: I16x8)
    ensures
        r@ == Seq::new(8, |k: int| a@[k] as i16),
{
    let mut lanes: [i16; 8] = [0; 8];
    let mut k: usize = 0;
    while k < 8
        invariant
            k <= 8,
            forall|j: int| 0 <= j < k ==> lanes@[j] == a@[j] as i16,
        decreases 8 - k,
    {
        lanes[k] = a.lanes[k] as i16;
        k += 1;
    }
    let r = I16x8 { lanes };
    proof {
        assert(r@ =~= Seq::new(8, |k: int| a@[k] as i16));
    }
    r
}

/// Zero-extends the first 4 unsigned 8-bit lanes of `a` to 32-bit lanes.
///
/// Lanes of `a` beyond the first 4 are never read.
pub fn _mm_cvtepu8_epi32(a: U8x16) -> (r: I32x4)
    ensures
        r@ == Seq::new(4, |k: int| a@[k] as i32),
{
    let mut lanes: [i32; 4] = [0; 4];
    let mut k: usize = 0;
    while k < 4
        invariant
            k <= 4,
            forall|j: int| 0 <= j < k ==> lanes@[j] == a@[j] as i32,
        decreases 4 - k,
    {
        lanes[k] = a.lanes[k] as i32;
        k += 1;
    }
    let r = I32x4 { lanes };
    proof {
        assert(r@ =~= Seq::new(4, |k: int| a@[k] as i32));
    }
    r
}

/// Zero-extends the first 2 unsigned 8-bit lanes of `a` to 64-bit lanes.
///
/// Lanes of `a` beyond the first 2 are never read.
pub fn _mm_cvtepu8_epi64(a: U8x16) -> (r: I64x2)
    ensures
        r@ == Seq::new(2, |k: int| a@[k] as i64),
{
    let mut lanes: [i64; 2] = [0; 2];
    let mut k: usize = 0;
    while k < 2
        invariant
            k <= 2,
            forall|j: int| 0 <= j < k ==> lanes@[j] == a@[j] as i64,
        decreases 2 - k,
    {
        lanes[k] = a.lanes[k] as i64;
        k += 1;
    }
    let r = I64x2 { lanes };
    proof {
        assert(r@ =~= Seq::new(2, |k: int| a@[k] as i64));
    }
    r
}

/// Zero-extends the first 4 unsigned 16-bit lanes of `a` to 32-bit lanes.
///
/// Lanes of `a` beyond the first 4 are never read.
pub fn _mm_cvtepu16_epi32(a: U16x8) -> (r: I32x4)
    ensures
        r@ == Seq::new(4, |k: int| a@[k] as i32),
{
    let mut lanes: [i32; 4] = [0; 4];
    let mut k: usize = 0;
    while k < 4
        invariant
            k <= 4,
            forall|j: int| 0 <= j < k ==> lanes@[j] == a@[j] as i32,
        decreases 4 - k,
    {
        lanes[k] = a.lanes[k] as i32;
        k += 1;
    }
    let r = I32x4 { lanes };
    proof {
        assert(r@ =~= Seq::new(4, |k: int| a@[k] as i32));
    }
    r
}

/// Zero-extends the first 2 unsigned 16-bit lanes of `a` to 64-bit lanes.
///
/// Lanes of `a` beyond the first 2 are never read.
pub fn _mm_cvtepu16_epi64(a: U16x8) -> (r: I64x2)
    ensures
        r@ == Seq::new(2, |k: int| a@[k] as i64),
{
    let mut lanes: [i64; 2] = [0; 2];
    let mut k: usize = 0;
    while k < 2
        invariant
            k <= 2,
            forall|j: int| 0 <= j < k ==> lanes@[j] == a@[j] as i64,
        decreases 2 - k,
    {
        lanes[k] = a.lanes[k] as i64;
        k += 1;
    }
    let r = I64x2 { lanes };
    proof {
        assert(r@ =~= Seq::new(2, |k: int| a@[k] as i64));
    }
    r
}

/// Zero-extends the first 2 unsigned 32-bit lanes of `a` to 64-bit lanes.
///
/// Lanes of `a` beyond the first 2 are never read.
pub fn _mm_cvtepu32_epi64(a: U32x4) -> (r: I64x2)
    ensures
        r@ == Seq::new(2, |k: int| a@[k] as i64),
{
    let mut lanes: [i64; 2] = [0; 2];
    let mut k: usize = 0;
    while k < 2
        invariant
            k <= 2,
            forall|j: int| 0 <= j < k ==> lanes@[j] == a@[j] as i64,
        decreases 2 - k,
    {
        lanes[k] = a.lanes[k] as i64;
        k += 1;
    }
    let r = I64x2 { lanes };
    proof {
        assert(r@ =~= Seq::new(2, |k: int| a@[k] as i64));
    }
    r
}

} // verus!
