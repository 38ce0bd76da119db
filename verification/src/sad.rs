//! Windowed sums of absolute differences over 8-bit lanes.

use vstd::prelude::*;

use crate::registers::U16x8;
use crate::registers::U8x16;

verus! {

broadcast use vstd::array::group_array_axioms;

/// The absolute difference of two unsigned 8-bit lanes.
pub open spec fn spec_absdiff_u8(x: u8, y: u8) -> int {
    if x >= y {
        x - y
    } else {
        y - x
    }
}

/// The sum of absolute differences of the 4-byte windows of `a` at `ai` and
/// of `b` at `bi`.
pub open spec fn spec_sad4(a: Seq<u8>, b: Seq<u8>, ai: int, bi: int) -> int {
    spec_absdiff_u8(a[ai], b[bi]) + spec_absdiff_u8(a[ai + 1], b[bi + 1])
        + spec_absdiff_u8(a[ai + 2], b[bi + 2]) + spec_absdiff_u8(a[ai + 3], b[bi + 3])
}

/// The offset into `a` named by bit 2 of the immediate, in bytes.
pub open spec fn spec_sad_a_offset(imm: u8) -> int {
    (((imm >> 2) & 1) * 4) as int
}

/// The offset into `b` named by bits 1:0 of the immediate, in bytes.
pub open spec fn spec_sad_b_offset(imm: u8) -> int {
    ((imm & 3) * 4) as int
}

/// The eight windowed sums of absolute differences that `mpsadbw` computes:
/// result lane `k` compares the window of `a` at offset `a_offset + k` with
/// the fixed window of `b` at `b_offset`.
pub open spec fn spec_mpsadbw(a: Seq<u8>, b: Seq<u8>, imm: u8) -> Seq<u16> {
    Seq::new(8, |k: int| spec_sad4(a, b, spec_sad_a_offset(imm) + k, spec_sad_b_offset(imm)) as u16)
}

fn absdiff_u8(x: u8, y: u8) -> (r: u8)
    ensures
        r as int == spec_absdiff_u8(x, y),
{
    if x >= y {
        x - y
    } else {
        y - x
    }
}

/// The `mpsadbw` primitive: eight sliding-window sums of absolute
/// differences, with window offsets decoded from the immediate.
fn mpsadbw(a: U8x16, b: U8x16, imm8: u8) -> (r: U16x8)
    ensures
        r@ == spec_mpsadbw(a@, b@, imm8),
{
    proof {
        assert((imm8 >> 2) & 1 <= 1 && imm8 & 3 <= 3) by (bit_vector);
    }
    let ao: usize = (((imm8 >> 2) & 1) * 4) as usize;
    let bo: usize = ((imm8 & 3) * 4) as usize;
    let mut lanes: [u16; 8] = [0; 8];
    let mut k: usize = 0;
    while k < 8
        invariant
            k <= 8,
            ao as int == spec_sad_a_offset(imm8),
            bo as int == spec_sad_b_offset(imm8),
            ao <= 4,
            bo <= 12,
            forall|j: int| 0 <= j < k ==> lanes@[j] == spec_mpsadbw(a@, b@, imm8)[j],
        decreases 8 - k,
    {
        let d0 = absdiff_u8(a.lanes[ao + k], b.lanes[bo]);
        let d1 = absdiff_u8(a.lanes[ao + k + 1], b.lanes[bo + 1]);
        let d2 = absdiff_u8(a.lanes[ao + k + 2], b.lanes[bo + 2]);
        let d3 = absdiff_u8(a.lanes[ao + k + 3], b.lanes[bo + 3]);
        lanes[k] = (d0 as u16) + (d1 as u16) + (d2 as u16) + (d3 as u16);
        k += 1;
    }
    let r = U16x8 { lanes };
    proof {
        assert(r@ =~= spec_mpsadbw(a@, b@, imm8));
    }
    r
}

/// Computes eight sums of absolute differences over sliding 4-byte windows
/// of the 8-bit lanes of `a` and `b`.
///
/// Only the low 3 bits of `imm8` are read: bit 2 places the sliding window
/// base in `a` (offset 0 or 4), bits 1:0 place the fixed window in `b`
/// (offset 0, 4, 8 or 12).  Each of the 8 masked values selects its own
/// specialization.
pub fn _mm_mpsadbw_epu8(a: U8x16, b: U8x16, imm8: u8) -> (r: U16x8)
    ensures
        r@ == spec_mpsadbw(a@, b@, imm8 & 7),
{
    proof {
        assert(imm8 & 7 <= 7) by (bit_vector);
    }
    let m: u8 = imm8 & 7;
    if m == 0 {
        mpsadbw(a, b, 0)
    } else if m == 1 {
        mpsadbw(a, b, 1)
    } else if m == 2 {
        mpsadbw(a, b, 2)
    } else if m == 3 {
        mpsadbw(a, b, 3)
    } else if m == 4 {
        mpsadbw(a, b, 4)
    } else if m == 5 {
        mpsadbw(a, b, 5)
    } else if m == 6 {
        mpsadbw(a, b, 6)
    } else {
        mpsadbw(a, b, 7)
    }
}

} // verus!
