//! The vector register catalog: 128-bit values seen as packed lanes.
//!
//! Every register view stores its lanes directly; the 128-bit pattern of a
//! register is defined by `bits`, which packs the lanes in little-endian
//! order (lane 0 in the low bits).  Reinterpretation between views goes
//! through `to_bits` / `from_bits` and never alters the bit pattern: the
//! round-trip lemmas at the end of this module state that recovering a
//! view's lanes from its pattern is the identity, so reinterpreting a
//! register to any other view and back reproduces the original lanes.

use vstd::prelude::*;

verus! {

broadcast use vstd::array::group_array_axioms;

/// The unsigned 8-bit image of a signed 8-bit lane (two's complement).
pub open spec fn spec_u8_of_i8(x: i8) -> u8 {
    if x >= 0 {
        x as u8
    } else {
        (x + 0x100) as u8
    }
}

/// The signed 8-bit lane with the given unsigned image.
pub open spec fn spec_i8_of_u8(v: u8) -> i8 {
    if v < 0x80 {
        v as i8
    } else {
        (v - 0x100) as i8
    }
}

fn u8_of_i8(x: i8) -> (r: u8)
    ensures
        r == spec_u8_of_i8(x),
{
    if x >= 0 {
        x as u8
    } else {
        ((x as i32) + 0x100) as u8
    }
}

fn i8_of_u8(v: u8) -> (r: i8)
    ensures
        r == spec_i8_of_u8(v),
{
    if v < 0x80 {
        v as i8
    } else {
        ((v as i32) - 0x100) as i8
    }
}

proof fn lemma_i8_image_id(x: i8)
    ensures
        spec_i8_of_u8(spec_u8_of_i8(x)) == x,
{
}

proof fn lemma_u8_image_id(v: u8)
    ensures
        spec_u8_of_i8(spec_i8_of_u8(v)) == v,
{
}

/// Lane `k` of a 128-bit pattern read as packed 8-bit lanes.
pub open spec fn spec_lane_u8(b: u128, k: int) -> u8 {
    (b >> ((8 * k) as u128)) as u8
}

/// The 128-bit pattern of 16 8-bit lanes, lane 0 in the low bits.
pub open spec fn spec_bits_u8(l: Seq<u8>) -> u128
    recommends
        l.len() == 16,
{
    (l[0] as u128) | ((l[1] as u128) << 8) | ((l[2] as u128) << 16) | ((l[3] as u128) << 24) | ((l[4] as u128) << 32) | ((l[5] as u128) << 40) | ((l[6] as u128) << 48) | ((l[7] as u128) << 56) | ((l[8] as u128) << 64) | ((l[9] as u128) << 72) | ((l[10] as u128) << 80) | ((l[11] as u128) << 88) | ((l[12] as u128) << 96) | ((l[13] as u128) << 104) | ((l[14] as u128) << 112) | ((l[15] as u128) << 120)
}

proof fn lemma_u8_decompose_compose(l0: u8, l1: u8, l2: u8, l3: u8, l4: u8, l5: u8, l6: u8, l7: u8, l8: u8, l9: u8, l10: u8, l11: u8, l12: u8, l13: u8, l14: u8, l15: u8)
    by (bit_vector)
    ensures
        ({
            let b = (l0 as u128) | ((l1 as u128) << 8) | ((l2 as u128) << 16) | ((l3 as u128) << 24) | ((l4 as u128) << 32) | ((l5 as u128) << 40) | ((l6 as u128) << 48) | ((l7 as u128) << 56) | ((l8 as u128) << 64) | ((l9 as u128) << 72) | ((l10 as u128) << 80) | ((l11 as u128) << 88) | ((l12 as u128) << 96) | ((l13 as u128) << 104) | ((l14 as u128) << 112) | ((l15 as u128) << 120);
            (b >> 0) as u8 == l0 && (b >> 8) as u8 == l1 && (b >> 16) as u8 == l2 && (b >> 24) as u8 == l3 && (b >> 32) as u8 == l4 && (b >> 40) as u8 == l5 && (b >> 48) as u8 == l6 && (b >> 56) as u8 == l7 && (b >> 64) as u8 == l8 && (b >> 72) as u8 == l9 && (b >> 80) as u8 == l10 && (b >> 88) as u8 == l11 && (b >> 96) as u8 == l12 && (b >> 104) as u8 == l13 && (b >> 112) as u8 == l14 && (b >> 120) as u8 == l15
        }),
{
}

proof fn lemma_u8_compose_decompose(b: u128)
    by (bit_vector)
    ensures
        (((b >> 0) as u8) as u128) | ((((b >> 8) as u8) as u128) << 8) | ((((b >> 16) as u8) as u128) << 16) | ((((b >> 24) as u8) as u128) << 24) | ((((b >> 32) as u8) as u128) << 32) | ((((b >> 40) as u8) as u128) << 40) | ((((b >> 48) as u8) as u128) << 48) | ((((b >> 56) as u8) as u128) << 56) | ((((b >> 64) as u8) as u128) << 64) | ((((b >> 72) as u8) as u128) << 72) | ((((b >> 80) as u8) as u128) << 80) | ((((b >> 88) as u8) as u128) << 88) | ((((b >> 96) as u8) as u128) << 96) | ((((b >> 104) as u8) as u128) << 104) | ((((b >> 112) as u8) as u128) << 112) | ((((b >> 120) as u8) as u128) << 120) == b,
{
}

/// The unsigned 16-bit image of a signed 16-bit lane (two's complement).
pub open spec fn spec_u16_of_i16(x: i16) -> u16 {
    if x >= 0 {
        x as u16
    } else {
        (x + 0x10000) as u16
    }
}

/// The signed 16-bit lane with the given unsigned image.
pub open spec fn spec_i16_of_u16(v: u16) -> i16 {
    if v < 0x8000 {
        v as i16
    } else {
        (v - 0x10000) as i16
    }
}

fn u16_of_i16(x: i16) -> (r: u16)
    ensures
        r == spec_u16_of_i16(x),
{
    if x >= 0 {
        x as u16
    } else {
        ((x as i32) + 0x10000) as u16
    }
}

fn i16_of_u16(v: u16) -> (r: i16)
    ensures
        r == spec_i16_of_u16(v),
{
    if v < 0x8000 {
        v as i16
    } else {
        ((v as i32) - 0x10000) as i16
    }
}

proof fn lemma_i16_image_id(x: i16)
    ensures
        spec_i16_of_u16(spec_u16_of_i16(x)) == x,
{
}

proof fn lemma_u16_image_id(v: u16)
    ensures
        spec_u16_of_i16(spec_i16_of_u16(v)) == v,
{
}

/// Lane `k` of a 128-bit pattern read as packed 16-bit lanes.
pub open spec fn spec_lane_u16(b: u128, k: int) -> u16 {
    (b >> ((16 * k) as u128)) as u16
}

/// The 128-bit pattern of 8 16-bit lanes, lane 0 in the low bits.
pub open spec fn spec_bits_u16(l: Seq<u16>) -> u128
    recommends
        l.len() == 8,
{
    (l[0] as u128) | ((l[1] as u128) << 16) | ((l[2] as u128) << 32) | ((l[3] as u128) << 48) | ((l[4] as u128) << 64) | ((l[5] as u128) << 80) | ((l[6] as u128) << 96) | ((l[7] as u128) << 112)
}

proof fn lemma_u16_decompose_compose(l0: u16, l1: u16, l2: u16, l3: u16, l4: u16, l5: u16, l6: u16, l7: u16)
    by (bit_vector)
    ensures
        ({
            let b = (l0 as u128) | ((l1 as u128) << 16) | ((l2 as u128) << 32) | ((l3 as u128) << 48) | ((l4 as u128) << 64) | ((l5 as u128) << 80) | ((l6 as u128) << 96) | ((l7 as u128) << 112);
            (b >> 0) as u16 == l0 && (b >> 16) as u16 == l1 && (b >> 32) as u16 == l2 && (b >> 48) as u16 == l3 && (b >> 64) as u16 == l4 && (b >> 80) as u16 == l5 && (b >> 96) as u16 == l6 && (b >> 112) as u16 == l7
        }),
{
}

proof fn lemma_u16_compose_decompose(b: u128)
    by (bit_vector)
    ensures
        (((b >> 0) as u16) as u128) | ((((b >> 16) as u16) as u128) << 16) | ((((b >> 32) as u16) as u128) << 32) | ((((b >> 48) as u16) as u128) << 48) | ((((b >> 64) as u16) as u128) << 64) | ((((b >> 80) as u16) as u128) << 80) | ((((b >> 96) as u16) as u128) << 96) | ((((b >> 112) as u16) as u128) << 112) == b,
{
}

/// The unsigned 32-bit image of a signed 32-bit lane (two's complement).
pub open spec fn spec_u32_of_i32(x: i32) -> u32 {
    if x >= 0 {
        x as u32
    } else {
        (x + 0x1_0000_0000) as u32
    }
}

/// The signed 32-bit lane with the given unsigned image.
pub open spec fn spec_i32_of_u32(v: u32) -> i32 {
    if v < 0x8000_0000 {
        v as i32
    } else {
        (v - 0x1_0000_0000) as i32
    }
}

fn u32_of_i32(x: i32) -> (r: u32)
    ensures
        r == spec_u32_of_i32(x),
{
    if x >= 0 {
        x as u32
    } else {
        ((x as i64) + 0x1_0000_0000) as u32
    }
}

fn i32_of_u32(v: u32) -> (r: i32)
    ensures
        r == spec_i32_of_u32(v),
{
    if v < 0x8000_0000 {
        v as i32
    } else {
        ((v as i64) - 0x1_0000_0000) as i32
    }
}

proof fn lemma_i32_image_id(x: i32)
    ensures
        spec_i32_of_u32(spec_u32_of_i32(x)) == x,
{
}

proof fn lemma_u32_image_id(v: u32)
    ensures
        spec_u32_of_i32(spec_i32_of_u32(v)) == v,
{
}

/// Lane `k` of a 128-bit pattern read as packed 32-bit lanes.
pub open spec fn spec_lane_u32(b: u128, k: int) -> u32 {
    (b >> ((32 * k) as u128)) as u32
}

/// The 128-bit pattern of 4 32-bit lanes, lane 0 in the low bits.
pub open spec fn spec_bits_u32(l: Seq<u32>) -> u128
    recommends
        l.len() == 4,
{
    (l[0] as u128) | ((l[1] as u128) << 32) | ((l[2] as u128) << 64) | ((l[3] as u128) << 96)
}

proof fn lemma_u32_decompose_compose(l0: u32, l1: u32, l2: u32, l3: u32)
    by (bit_vector)
    ensures
        ({
            let b = (l0 as u128) | ((l1 as u128) << 32) | ((l2 as u128) << 64) | ((l3 as u128) << 96);
            (b >> 0) as u32 == l0 && (b >> 32) as u32 == l1 && (b >> 64) as u32 == l2 && (b >> 96) as u32 == l3
        }),
{
}

proof fn lemma_u32_compose_decompose(b: u128)
    by (bit_vector)
    ensures
        (((b >> 0) as u32) as u128) | ((((b >> 32) as u32) as u128) << 32) | ((((b >> 64) as u32) as u128) << 64) | ((((b >> 96) as u32) as u128) << 96) == b,
{
}

/// The unsigned 64-bit image of a signed 64-bit lane (two's complement).
pub open spec fn spec_u64_of_i64(x: i64) -> u64 {
    if x >= 0 {
        x as u64
    } else {
        (x + 0x1_0000_0000_0000_0000) as u64
    }
}

/// The signed 64-bit lane with the given unsigned image.
pub open spec fn spec_i64_of_u64(v: u64) -> i64 {
    if v < 0x8000_0000_0000_0000 {
        v as i64
    } else {
        (v - 0x1_0000_0000_0000_0000) as i64
    }
}

fn u64_of_i64(x: i64) -> (r: u64)
    ensures
        r == spec_u64_of_i64(x),
{
    if x >= 0 {
        x as u64
    } else {
        ((x as i128) + 0x1_0000_0000_0000_0000) as u64
    }
}

fn i64_of_u64(v: u64) -> (r: i64)
    ensures
        r == spec_i64_of_u64(v),
{
    if v < 0x8000_0000_0000_0000 {
        v as i64
    } else {
        ((v as i128) - 0x1_0000_0000_0000_0000) as i64
    }
}

proof fn lemma_i64_image_id(x: i64)
    ensures
        spec_i64_of_u64(spec_u64_of_i64(x)) == x,
{
}

proof fn lemma_u64_image_id(v: u64)
    ensures
        spec_u64_of_i64(spec_i64_of_u64(v)) == v,
{
}

/// Lane `k` of a 128-bit pattern read as packed 64-bit lanes.
pub open spec fn spec_lane_u64(b: u128, k: int) -> u64 {
    (b >> ((64 * k) as u128)) as u64
}

/// The 128-bit pattern of 2 64-bit lanes, lane 0 in the low bits.
pub open spec fn spec_bits_u64(l: Seq<u64>) -> u128
    recommends
        l.len() == 2,
{
    (l[0] as u128) | ((l[1] as u128) << 64)
}

proof fn lemma_u64_decompose_compose(l0: u64, l1: u64)
    by (bit_vector)
    ensures
        ({
            let b = (l0 as u128) | ((l1 as u128) << 64);
            (b >> 0) as u64 == l0 && (b >> 64) as u64 == l1
        }),
{
}

proof fn lemma_u64_compose_decompose(b: u128)
    by (bit_vector)
    ensures
        (((b >> 0) as u64) as u128) | ((((b >> 64) as u64) as u128) << 64) == b,
{
}

/// Sixteen signed 8-bit lanes packed into a 128-bit register.
#[derive(Clone, Copy, PartialEq, Eq, Debug)]
pub struct I8x16 {
    pub lanes: [i8; 16],
}

impl View for I8x16 {
    type V = Seq<i8>;

    open spec fn view(&self) -> Seq<i8> {
        self.lanes@
    }
}

impl I8x16 {
    /// The 128-bit pattern of this register.
    pub open spec fn bits(self) -> u128 {
        spec_bits_u8(Seq::new(16, |k: int| spec_u8_of_i8(self@[k])))
    }

    /// The lanes that a 128-bit pattern carries under this view.
    pub open spec fn decoded(b: u128) -> Seq<i8> {
        Seq::new(16, |k: int| spec_i8_of_u8(spec_lane_u8(b, k)))
    }

    /// Builds a register from its lanes, lane 0 first.
    pub fn from_lanes(lanes: [i8; 16]) -> (r: Self)
        ensures
            r@ == lanes@,
    {
        I8x16 { lanes }
    }

    /// Builds a register with every lane equal to `v`.
    pub fn splat(v: i8) -> (r: Self)
        ensures
            r@.len() == 16,
            forall|k: int| 0 <= k < 16 ==> r@[k] == v,
    {
        I8x16 { lanes: [v; 16] }
    }

    /// Reads lane `k % 16`; the index is wrapped, never rejected.
    pub fn extract(self, k: u32) -> (r: i8)
        ensures
            r == self@[(k % 16) as int],
    {
        self.lanes[(k % 16) as usize]
    }

    /// Returns a copy with lane `k % 16` replaced by `v`.
    pub fn replace(self, k: u32, v: i8) -> (r: Self)
        ensures
            r@ == self@.update((k % 16) as int, v),
    {
        let mut lanes = self.lanes;
        lanes[(k % 16) as usize] = v;
        I8x16 { lanes }
    }

    /// Compares the lanes of `self` and `other` for equality; an equal pair
    /// yields an all-bits-set lane, an unequal one an all-bits-clear lane.
    pub fn eq_lanes(self, other: Self) -> (r: Self)
        ensures
            r@ == Seq::new(16, |k: int| if self@[k] == other@[k] { -1i8 } else { 0i8 }),
    {
        let mut lanes: [i8; 16] = [0; 16];
        let mut k: usize = 0;
        while k < 16
            invariant
                k <= 16,
                forall|j: int| 0 <= j < k ==> lanes@[j] == (if self@[j] == other@[j] { -1i8 } else { 0i8 }),
            decreases 16 - k,
        {
            lanes[k] = if self.lanes[k] == other.lanes[k] {
                -1i8
            } else {
                0
            };
            k += 1;
        }
        let r = I8x16 { lanes };
        proof {
            assert(r@ =~= Seq::new(16, |k: int| if self@[k] == other@[k] { -1i8 } else { 0i8 }));
        }
        r
    }

    /// The register's 128-bit pattern, for reinterpretation under another view.
    pub fn to_bits(self) -> (r: u128)
        ensures
            r == self.bits(),
    {
        let v0: u8 = u8_of_i8(self.lanes[0]);
        let v1: u8 = u8_of_i8(self.lanes[1]);
        let v2: u8 = u8_of_i8(self.lanes[2]);
        let v3: u8 = u8_of_i8(self.lanes[3]);
        let v4: u8 = u8_of_i8(self.lanes[4]);
        let v5: u8 = u8_of_i8(self.lanes[5]);
        let v6: u8 = u8_of_i8(self.lanes[6]);
        let v7: u8 = u8_of_i8(self.lanes[7]);
        let v8: u8 = u8_of_i8(self.lanes[8]);
        let v9: u8 = u8_of_i8(self.lanes[9]);
        let v10: u8 = u8_of_i8(self.lanes[10]);
        let v11: u8 = u8_of_i8(self.lanes[11]);
        let v12: u8 = u8_of_i8(self.lanes[12]);
        let v13: u8 = u8_of_i8(self.lanes[13]);
        let v14: u8 = u8_of_i8(self.lanes[14]);
        let v15: u8 = u8_of_i8(self.lanes[15]);
        (v0 as u128) | ((v1 as u128) << 8) | ((v2 as u128) << 16) | ((v3 as u128) << 24) | ((v4 as u128) << 32) | ((v5 as u128) << 40) | ((v6 as u128) << 48) | ((v7 as u128) << 56) | ((v8 as u128) << 64) | ((v9 as u128) << 72) | ((v10 as u128) << 80) | ((v11 as u128) << 88) | ((v12 as u128) << 96) | ((v13 as u128) << 104) | ((v14 as u128) << 112) | ((v15 as u128) << 120)
    }

    /// Reads a 128-bit pattern under this view; no bit is altered.
    pub fn from_bits(b: u128) -> (r: Self)
        ensures
            r@ == Self::decoded(b),
            r.bits() == b,
    {
        let lanes: [i8; 16] = [
            i8_of_u8((b >> 0) as u8),
            i8_of_u8((b >> 8) as u8),
            i8_of_u8((b >> 16) as u8),
            i8_of_u8((b >> 24) as u8),
            i8_of_u8((b >> 32) as u8),
            i8_of_u8((b >> 40) as u8),
            i8_of_u8((b >> 48) as u8),
            i8_of_u8((b >> 56) as u8),
            i8_of_u8((b >> 64) as u8),
            i8_of_u8((b >> 72) as u8),
            i8_of_u8((b >> 80) as u8),
            i8_of_u8((b >> 88) as u8),
            i8_of_u8((b >> 96) as u8),
            i8_of_u8((b >> 104) as u8),
            i8_of_u8((b >> 112) as u8),
            i8_of_u8((b >> 120) as u8),
        ];
        let r = I8x16 { lanes };
        proof {
            assert(r@ =~= Self::decoded(b));
            lemma_u8_image_id((b >> 0) as u8);
            lemma_u8_image_id((b >> 8) as u8);
            lemma_u8_image_id((b >> 16) as u8);
            lemma_u8_image_id((b >> 24) as u8);
            lemma_u8_image_id((b >> 32) as u8);
            lemma_u8_image_id((b >> 40) as u8);
            lemma_u8_image_id((b >> 48) as u8);
            lemma_u8_image_id((b >> 56) as u8);
            lemma_u8_image_id((b >> 64) as u8);
            lemma_u8_image_id((b >> 72) as u8);
            lemma_u8_image_id((b >> 80) as u8);
            lemma_u8_image_id((b >> 88) as u8);
            lemma_u8_image_id((b >> 96) as u8);
            lemma_u8_image_id((b >> 104) as u8);
            lemma_u8_image_id((b >> 112) as u8);
            lemma_u8_image_id((b >> 120) as u8);
            lemma_u8_compose_decompose(b);
        }
        r
    }
}

/// Sixteen unsigned 8-bit lanes packed into a 128-bit register.
#[derive(Clone, Copy, PartialEq, Eq, Debug)]
pub struct U8x16 {
    pub lanes: [u8; 16],
}

impl View for U8x16 {
    type V = Seq<u8>;

    open spec fn view(&self) -> Seq<u8> {
        self.lanes@
    }
}

impl U8x16 {
    /// The 128-bit pattern of this register.
    pub open spec fn bits(self) -> u128 {
        spec_bits_u8(self@)
    }

    /// The lanes that a 128-bit pattern carries under this view.
    pub open spec fn decoded(b: u128) -> Seq<u8> {
        Seq::new(16, |k: int| spec_lane_u8(b, k))
    }

    /// Builds a register from its lanes, lane 0 first.
    pub fn from_lanes(lanes: [u8; 16]) -> (r: Self)
        ensures
            r@ == lanes@,
    {
        U8x16 { lanes }
    }

    /// Builds a register with every lane equal to `v`.
    pub fn splat(v: u8) -> (r: Self)
        ensures
            r@.len() == 16,
            forall|k: int| 0 <= k < 16 ==> r@[k] == v,
    {
        U8x16 { lanes: [v; 16] }
    }

    /// Reads lane `k % 16`; the index is wrapped, never rejected.
    pub fn extract(self, k: u32) -> (r: u8)
        ensures
            r == self@[(k % 16) as int],
    {
        self.lanes[(k % 16) as usize]
    }

    /// Returns a copy with lane `k % 16` replaced by `v`.
    pub fn replace(self, k: u32, v: u8) -> (r: Self)
        ensures
            r@ == self@.update((k % 16) as int, v),
    {
        let mut lanes = self.lanes;
        lanes[(k % 16) as usize] = v;
        U8x16 { lanes }
    }

    /// Compares the lanes of `self` and `other` for equality; an equal pair
    /// yields an all-bits-set lane, an unequal one an all-bits-clear lane.
    pub fn eq_lanes(self, other: Self) -> (r: Self)
        ensures
            r@ == Seq::new(16, |k: int| if self@[k] == other@[k] { 0xffu8 } else { 0u8 }),
    {
        let mut lanes: [u8; 16] = [0; 16];
        let mut k: usize = 0;
        while k < 16
            invariant
                k <= 16,
                forall|j: int| 0 <= j < k ==> lanes@[j] == (if self@[j] == other@[j] { 0xffu8 } else { 0u8 }),
            decreases 16 - k,
        {
            lanes[k] = if self.lanes[k] == other.lanes[k] {
                0xffu8
            } else {
                0
            };
            k += 1;
        }
        let r = U8x16 { lanes };
        proof {
            assert(r@ =~= Seq::new(16, |k: int| if self@[k] == other@[k] { 0xffu8 } else { 0u8 }));
        }
        r
    }

    /// The register's 128-bit pattern, for reinterpretation under another view.
    pub fn to_bits(self) -> (r: u128)
        ensures
            r == self.bits(),
    {
        let l = &self.lanes;
        (l[0] as u128) | ((l[1] as u128) << 8) | ((l[2] as u128) << 16) | ((l[3] as u128) << 24) | ((l[4] as u128) << 32) | ((l[5] as u128) << 40) | ((l[6] as u128) << 48) | ((l[7] as u128) << 56) | ((l[8] as u128) << 64) | ((l[9] as u128) << 72) | ((l[10] as u128) << 80) | ((l[11] as u128) << 88) | ((l[12] as u128) << 96) | ((l[13] as u128) << 104) | ((l[14] as u128) << 112) | ((l[15] as u128) << 120)
    }

    /// Reads a 128-bit pattern under this view; no bit is altered.
    pub fn from_bits(b: u128) -> (r: Self)
        ensures
            r@ == Self::decoded(b),
            r.bits() == b,
    {
        let lanes: [u8; 16] = [
            (b >> 0) as u8,
            (b >> 8) as u8,
            (b >> 16) as u8,
            (b >> 24) as u8,
            (b >> 32) as u8,
            (b >> 40) as u8,
            (b >> 48) as u8,
            (b >> 56) as u8,
            (b >> 64) as u8,
            (b >> 72) as u8,
            (b >> 80) as u8,
            (b >> 88) as u8,
            (b >> 96) as u8,
            (b >> 104) as u8,
            (b >> 112) as u8,
            (b >> 120) as u8,
        ];
        let r = U8x16 { lanes };
        proof {
            assert(r@ =~= Self::decoded(b));
            lemma_u8_compose_decompose(b);
        }
        r
    }
}

/// Eight signed 16-bit lanes packed into a 128-bit register.
#[derive(Clone, Copy, PartialEq, Eq, Debug)]
pub struct I16x8 {
    pub lanes: [i16; 8],
}

impl View for I16x8 {
    type V = Seq<i16>;

    open spec fn view(&self) -> Seq<i16> {
        self.lanes@
    }
}

impl I16x8 {
    /// The 128-bit pattern of this register.
    pub open spec fn bits(self) -> u128 {
        spec_bits_u16(Seq::new(8, |k: int| spec_u16_of_i16(self@[k])))
    }

    /// The lanes that a 128-bit pattern carries under this view.
    pub open spec fn decoded(b: u128) -> Seq<i16> {
        Seq::new(8, |k: int| spec_i16_of_u16(spec_lane_u16(b, k)))
    }

    /// Builds a register from its lanes, lane 0 first.
    pub fn from_lanes(lanes: [i16; 8]) -> (r: Self)
        ensures
            r@ == lanes@,
    {
        I16x8 { lanes }
    }

    /// Builds a register with every lane equal to `v`.
    pub fn splat(v: i16) -> (r: Self)
        ensures
            r@.len() == 8,
            forall|k: int| 0 <= k < 8 ==> r@[k] == v,
    {
        I16x8 { lanes: [v; 8] }
    }

    /// Reads lane `k % 8`; the index is wrapped, never rejected.
    pub fn extract(self, k: u32) -> (r: i16)
        ensures
            r == self@[(k % 8) as int],
    {
        self.lanes[(k % 8) as usize]
    }

    /// Returns a copy with lane `k % 8` replaced by `v`.
    pub fn replace(self, k: u32, v: i16) -> (r: Self)
        ensures
            r@ == self@.update((k % 8) as int, v),
    {
        let mut lanes = self.lanes;
        lanes[(k % 8) as usize] = v;
        I16x8 { lanes }
    }

    /// Compares the lanes of `self` and `other` for equality; an equal pair
    /// yields an all-bits-set lane, an unequal one an all-bits-clear lane.
    pub fn eq_lanes(self, other: Self) -> (r: Self)
        ensures
            r@ == Seq::new(8, |k: int| if self@[k] == other@[k] { -1i16 } else { 0i16 }),
    {
        let mut lanes: [i16; 8] = [0; 8];
        let mut k: usize = 0;
        while k < 8
            invariant
                k <= 8,
                forall|j: int| 0 <= j < k ==> lanes@[j] == (if self@[j] == other@[j] { -1i16 } else { 0i16 }),
            decreases 8 - k,
        {
            lanes[k] = if self.lanes[k] == other.lanes[k] {
                -1i16
            } else {
                0
            };
            k += 1;
        }
        let r = I16x8 { lanes };
        proof {
            assert(r@ =~= Seq::new(8, |k: int| if self@[k] == other@[k] { -1i16 } else { 0i16 }));
        }
        r
    }

    /// The register's 128-bit pattern, for reinterpretation under another view.
    pub fn to_bits(self) -> (r: u128)
        ensures
            r == self.bits(),
    {
        let v0: u16 = u16_of_i16(self.lanes[0]);
        let v1: u16 = u16_of_i16(self.lanes[1]);
        let v2: u16 = u16_of_i16(self.lanes[2]);
        let v3: u16 = u16_of_i16(self.lanes[3]);
        let v4: u16 = u16_of_i16(self.lanes[4]);
        let v5: u16 = u16_of_i16(self.lanes[5]);
        let v6: u16 = u16_of_i16(self.lanes[6]);
        let v7: u16 = u16_of_i16(self.lanes[7]);
        (v0 as u128) | ((v1 as u128) << 16) | ((v2 as u128) << 32) | ((v3 as u128) << 48) | ((v4 as u128) << 64) | ((v5 as u128) << 80) | ((v6 as u128) << 96) | ((v7 as u128) << 112)
    }

    /// Reads a 128-bit pattern under this view; no bit is altered.
    pub fn from_bits(b: u128) -> (r: Self)
        ensures
            r@ == Self::decoded(b),
            r.bits() == b,
    {
        let lanes: [i16; 8] = [
            i16_of_u16((b >> 0) as u16),
            i16_of_u16((b >> 16) as u16),
            i16_of_u16((b >> 32) as u16),
            i16_of_u16((b >> 48) as u16),
            i16_of_u16((b >> 64) as u16),
            i16_of_u16((b >> 80) as u16),
            i16_of_u16((b >> 96) as u16),
            i16_of_u16((b >> 112) as u16),
        ];
        let r = I16x8 { lanes };
        proof {
            assert(r@ =~= Self::decoded(b));
            lemma_u16_image_id((b >> 0) as u16);
            lemma_u16_image_id((b >> 16) as u16);
            lemma_u16_image_id((b >> 32) as u16);
            lemma_u16_image_id((b >> 48) as u16);
            lemma_u16_image_id((b >> 64) as u16);
            lemma_u16_image_id((b >> 80) as u16);
            lemma_u16_image_id((b >> 96) as u16);
            lemma_u16_image_id((b >> 112) as u16);
            lemma_u16_compose_decompose(b);
        }
        r
    }
}

/// Eight unsigned 16-bit lanes packed into a 128-bit register.
#[derive(Clone, Copy, PartialEq, Eq, Debug)]
pub struct U16x8 {
    pub lanes: [u16; 8],
}

impl View for U16x8 {
    type V = Seq<u16>;

    open spec fn view(&self) -> Seq<u16> {
        self.lanes@
    }
}

impl U16x8 {
    /// The 128-bit pattern of this register.
    pub open spec fn bits(self) -> u128 {
        spec_bits_u16(self@)
    }

    /// The lanes that a 128-bit pattern carries under this view.
    pub open spec fn decoded(b: u128) -> Seq<u16> {
        Seq::new(8, |k: int| spec_lane_u16(b, k))
    }

    /// Builds a register from its lanes, lane 0 first.
    pub fn from_lanes(lanes: [u16; 8]) -> (r: Self)
        ensures
            r@ == lanes@,
    {
        U16x8 { lanes }
    }

    /// Builds a register with every lane equal to `v`.
    pub fn splat(v: u16) -> (r: Self)
        ensures
            r@.len() == 8,
            forall|k: int| 0 <= k < 8 ==> r@[k] == v,
    {
        U16x8 { lanes: [v; 8] }
    }

    /// Reads lane `k % 8`; the index is wrapped, never rejected.
    pub fn extract(self, k: u32) -> (r: u16)
        ensures
            r == self@[(k % 8) as int],
    {
        self.lanes[(k % 8) as usize]
    }

    /// Returns a copy with lane `k % 8` replaced by `v`.
    pub fn replace(self, k: u32, v: u16) -> (r: Self)
        ensures
            r@ == self@.update((k % 8) as int, v),
    {
        let mut lanes = self.lanes;
        lanes[(k % 8) as usize] = v;
        U16x8 { lanes }
    }

    /// Compares the lanes of `self` and `other` for equality; an equal pair
    /// yields an all-bits-set lane, an unequal one an all-bits-clear lane.
    pub fn eq_lanes(self, other: Self) -> (r: Self)
        ensures
            r@ == Seq::new(8, |k: int| if self@[k] == other@[k] { 0xffffu16 } else { 0u16 }),
    {
        let mut lanes: [u16; 8] = [0; 8];
        let mut k: usize = 0;
        while k < 8
            invariant
                k <= 8,
                forall|j: int| 0 <= j < k ==> lanes@[j] == (if self@[j] == other@[j] { 0xffffu16 } else { 0u16 }),
            decreases 8 - k,
        {
            lanes[k] = if self.lanes[k] == other.lanes[k] {
                0xffffu16
            } else {
                0
            };
            k += 1;
        }
        let r = U16x8 { lanes };
        proof {
            assert(r@ =~= Seq::new(8, |k: int| if self@[k] == other@[k] { 0xffffu16 } else { 0u16 }));
        }
        r
    }

    /// The register's 128-bit pattern, for reinterpretation under another view.
    pub fn to_bits(self) -> (r: u128)
        ensures
            r == self.bits(),
    {
        let l = &self.lanes;
        (l[0] as u128) | ((l[1] as u128) << 16) | ((l[2] as u128) << 32) | ((l[3] as u128) << 48) | ((l[4] as u128) << 64) | ((l[5] as u128) << 80) | ((l[6] as u128) << 96) | ((l[7] as u128) << 112)
    }

    /// Reads a 128-bit pattern under this view; no bit is altered.
    pub fn from_bits(b: u128) -> (r: Self)
        ensures
            r@ == Self::decoded(b),
            r.bits() == b,
    {
        let lanes: [u16; 8] = [
            (b >> 0) as u16,
            (b >> 16) as u16,
            (b >> 32) as u16,
            (b >> 48) as u16,
            (b >> 64) as u16,
            (b >> 80) as u16,
            (b >> 96) as u16,
            (b >> 112) as u16,
        ];
        let r = U16x8 { lanes };
        proof {
            assert(r@ =~= Self::decoded(b));
            lemma_u16_compose_decompose(b);
        }
        r
    }
}

/// Four signed 32-bit lanes packed into a 128-bit register.
#[derive(Clone, Copy, PartialEq, Eq, Debug)]
pub struct I32x4 {
    pub lanes: [i32; 4],
}

impl View for I32x4 {
    type V = Seq<i32>;

    open spec fn view(&self) -> Seq<i32> {
        self.lanes@
    }
}

impl I32x4 {
    /// The 128-bit pattern of this register.
    pub open spec fn bits(self) -> u128 {
        spec_bits_u32(Seq::new(4, |k: int| spec_u32_of_i32(self@[k])))
    }

    /// The lanes that a 128-bit pattern carries under this view.
    pub open spec fn decoded(b: u128) -> Seq<i32> {
        Seq::new(4, |k: int| spec_i32_of_u32(spec_lane_u32(b, k)))
    }

    /// Builds a register from its lanes, lane 0 first.
    pub fn from_lanes(lanes: [i32; 4]) -> (r: Self)
        ensures
            r@ == lanes@,
    {
        I32x4 { lanes }
    }

    /// Builds a register with every lane equal to `v`.
    pub fn splat(v: i32) -> (r: Self)
        ensures
            r@.len() == 4,
            forall|k: int| 0 <= k < 4 ==> r@[k] == v,
    {
        I32x4 { lanes: [v; 4] }
    }

    /// Reads lane `k % 4`; the index is wrapped, never rejected.
    pub fn extract(self, k: u32) -> (r: i32)
        ensures
            r == self@[(k % 4) as int],
    {
        self.lanes[(k % 4) as usize]
    }

    /// Returns a copy with lane `k % 4` replaced by `v`.
    pub fn replace(self, k: u32, v: i32) -> (r: Self)
        ensures
            r@ == self@.update((k % 4) as int, v),
    {
        let mut lanes = self.lanes;
        lanes[(k % 4) as usize] = v;
        I32x4 { lanes }
    }

    /// Compares the lanes of `self` and `other` for equality; an equal pair
    /// yields an all-bits-set lane, an unequal one an all-bits-clear lane.
    pub fn eq_lanes(self, other: Self) -> (r: Self)
        ensures
            r@ == Seq::new(4, |k: int| if self@[k] == other@[k] { -1i32 } else { 0i32 }),
    {
        let mut lanes: [i32; 4] = [0; 4];
        let mut k: usize = 0;
        while k < 4
            invariant
                k <= 4,
                forall|j: int| 0 <= j < k ==> lanes@[j] == (if self@[j] == other@[j] { -1i32 } else { 0i32 }),
            decreases 4 - k,
        {
            lanes[k] = if self.lanes[k] == other.lanes[k] {
                -1i32
            } else {
                0
            };
            k += 1;
        }
        let r = I32x4 { lanes };
        proof {
            assert(r@ =~= Seq::new(4, |k: int| if self@[k] == other@[k] { -1i32 } else { 0i32 }));
        }
        r
    }

    /// The register's 128-bit pattern, for reinterpretation under another view.
    pub fn to_bits(self) -> (r: u128)
        ensures
            r == self.bits(),
    {
        let v0: u32 = u32_of_i32(self.lanes[0]);
        let v1: u32 = u32_of_i32(self.lanes[1]);
        let v2: u32 = u32_of_i32(self.lanes[2]);
        let v3: u32 = u32_of_i32(self.lanes[3]);
        (v0 as u128) | ((v1 as u128) << 32) | ((v2 as u128) << 64) | ((v3 as u128) << 96)
    }

    /// Reads a 128-bit pattern under this view; no bit is altered.
    pub fn from_bits(b: u128) -> (r: Self)
        ensures
            r@ == Self::decoded(b),
            r.bits() == b,
    {
        let lanes: [i32; 4] = [
            i32_of_u32((b >> 0) as u32),
            i32_of_u32((b >> 32) as u32),
            i32_of_u32((b >> 64) as u32),
            i32_of_u32((b >> 96) as u32),
        ];
        let r = I32x4 { lanes };
        proof {
            assert(r@ =~= Self::decoded(b));
            lemma_u32_image_id((b >> 0) as u32);
            lemma_u32_image_id((b >> 32) as u32);
            lemma_u32_image_id((b >> 64) as u32);
            lemma_u32_image_id((b >> 96) as u32);
            lemma_u32_compose_decompose(b);
        }
        r
    }
}

/// Four unsigned 32-bit lanes packed into a 128-bit register.
#[derive(Clone, Copy, PartialEq, Eq, Debug)]
pub struct U32x4 {
    pub lanes: [u32; 4],
}

impl View for U32x4 {
    type V = Seq<u32>;

    open spec fn view(&self) -> Seq<u32> {
        self.lanes@
    }
}

impl U32x4 {
    /// The 128-bit pattern of this register.
    pub open spec fn bits(self) -> u128 {
        spec_bits_u32(self@)
    }

    /// The lanes that a 128-bit pattern carries under this view.
    pub open spec fn decoded(b: u128) -> Seq<u32> {
        Seq::new(4, |k: int| spec_lane_u32(b, k))
    }

    /// Builds a register from its lanes, lane 0 first.
    pub fn from_lanes(lanes: [u32; 4]) -> (r: Self)
        ensures
            r@ == lanes@,
    {
        U32x4 { lanes }
    }

    /// Builds a register with every lane equal to `v`.
    pub fn splat(v: u32) -> (r: Self)
        ensures
            r@.len() == 4,
            forall|k: int| 0 <= k < 4 ==> r@[k] == v,
    {
        U32x4 { lanes: [v; 4] }
    }

    /// Reads lane `k % 4`; the index is wrapped, never rejected.
    pub fn extract(self, k: u32) -> (r: u32)
        ensures
            r == self@[(k % 4) as int],
    {
        self.lanes[(k % 4) as usize]
    }

    /// Returns a copy with lane `k % 4` replaced by `v`.
    pub fn replace(self, k: u32, v: u32) -> (r: Self)
        ensures
            r@ == self@.update((k % 4) as int, v),
    {
        let mut lanes = self.lanes;
        lanes[(k % 4) as usize] = v;
        U32x4 { lanes }
    }

    /// Compares the lanes of `self` and `other` for equality; an equal pair
    /// yields an all-bits-set lane, an unequal one an all-bits-clear lane.
    pub fn eq_lanes(self, other: Self) -> (r: Self)
        ensures
            r@ == Seq::new(4, |k: int| if self@[k] == other@[k] { 0xffffffffu32 } else { 0u32 }),
    {
        let mut lanes: [u32; 4] = [0; 4];
        let mut k: usize = 0;
        while k < 4
            invariant
                k <= 4,
                forall|j: int| 0 <= j < k ==> lanes@[j] == (if self@[j] == other@[j] { 0xffffffffu32 } else { 0u32 }),
            decreases 4 - k,
        {
            lanes[k] = if self.lanes[k] == other.lanes[k] {
                0xffffffffu32
            } else {
                0
            };
            k += 1;
        }
        let r = U32x4 { lanes };
        proof {
            assert(r@ =~= Seq::new(4, |k: int| if self@[k] == other@[k] { 0xffffffffu32 } else { 0u32 }));
        }
        r
    }

    /// The register's 128-bit pattern, for reinterpretation under another view.
    pub fn to_bits(self) -> (r: u128)
        ensures
            r == self.bits(),
    {
        let l = &self.lanes;
        (l[0] as u128) | ((l[1] as u128) << 32) | ((l[2] as u128) << 64) | ((l[3] as u128) << 96)
    }

    /// Reads a 128-bit pattern under this view; no bit is altered.
    pub fn from_bits(b: u128) -> (r: Self)
        ensures
            r@ == Self::decoded(b),
            r.bits() == b,
    {
        let lanes: [u32; 4] = [
            (b >> 0) as u32,
            (b >> 32) as u32,
            (b >> 64) as u32,
            (b >> 96) as u32,
        ];
        let r = U32x4 { lanes };
        proof {
            assert(r@ =~= Self::decoded(b));
            lemma_u32_compose_decompose(b);
        }
        r
    }
}

/// Four 32-bit lanes holding IEEE binary32 bit patterns.
///
/// The library never does floating-point arithmetic: a float lane is
/// carried as its bit pattern, and the bindings on this view (blends,
/// insertion, extraction) are bit-level.
#[derive(Clone, Copy, PartialEq, Eq, Debug)]
pub struct F32x4Bits {
    pub lanes: [u32; 4],
}

impl View for F32x4Bits {
    type V = Seq<u32>;

    open spec fn view(&self) -> Seq<u32> {
        self.lanes@
    }
}

impl F32x4Bits {
    /// The 128-bit pattern of this register.
    pub open spec fn bits(self) -> u128 {
        spec_bits_u32(self@)
    }

    /// The lanes that a 128-bit pattern carries under this view.
    pub open spec fn decoded(b: u128) -> Seq<u32> {
        Seq::new(4, |k: int| spec_lane_u32(b, k))
    }

    /// Builds a register from its lanes, lane 0 first.
    pub fn from_lanes(lanes: [u32; 4]) -> (r: Self)
        ensures
            r@ == lanes@,
    {
        F32x4Bits { lanes }
    }

    /// Builds a register with every lane equal to `v`.
    pub fn splat(v: u32) -> (r: Self)
        ensures
            r@.len() == 4,
            forall|k: int| 0 <= k < 4 ==> r@[k] == v,
    {
        F32x4Bits { lanes: [v; 4] }
    }

    /// Reads lane `k % 4`; the index is wrapped, never rejected.
    pub fn extract(self, k: u32) -> (r: u32)
        ensures
            r == self@[(k % 4) as int],
    {
        self.lanes[(k % 4) as usize]
    }

    /// Returns a copy with lane `k % 4` replaced by `v`.
    pub fn replace(self, k: u32, v: u32) -> (r: Self)
        ensures
            r@ == self@.update((k % 4) as int, v),
    {
        let mut lanes = self.lanes;
        lanes[(k % 4) as usize] = v;
        F32x4Bits { lanes }
    }

    /// The register's 128-bit pattern, for reinterpretation under another view.
    pub fn to_bits(self) -> (r: u128)
        ensures
            r == self.bits(),
    {
        let l = &self.lanes;
        (l[0] as u128) | ((l[1] as u128) << 32) | ((l[2] as u128) << 64) | ((l[3] as u128) << 96)
    }

    /// Reads a 128-bit pattern under this view; no bit is altered.
    pub fn from_bits(b: u128) -> (r: Self)
        ensures
            r@ == Self::decoded(b),
            r.bits() == b,
    {
        let lanes: [u32; 4] = [
            (b >> 0) as u32,
            (b >> 32) as u32,
            (b >> 64) as u32,
            (b >> 96) as u32,
        ];
        let r = F32x4Bits { lanes };
        proof {
            assert(r@ =~= Self::decoded(b));
            lemma_u32_compose_decompose(b);
        }
        r
    }
}

/// Two signed 64-bit lanes packed into a 128-bit register.
#[derive(Clone, Copy, PartialEq, Eq, Debug)]
pub struct I64x2 {
    pub lanes: [i64; 2],
}

impl View for I64x2 {
    type V = Seq<i64>;

    open spec fn view(&self) -> Seq<i64> {
        self.lanes@
    }
}

impl I64x2 {
    /// The 128-bit pattern of this register.
    pub open spec fn bits(self) -> u128 {
        spec_bits_u64(Seq::new(2, |k: int| spec_u64_of_i64(self@[k])))
    }

    /// The lanes that a 128-bit pattern carries under this view.
    pub open spec fn decoded(b: u128) -> Seq<i64> {
        Seq::new(2, |k: int| spec_i64_of_u64(spec_lane_u64(b, k)))
    }

    /// Builds a register from its lanes, lane 0 first.
    pub fn from_lanes(lanes: [i64; 2]) -> (r: Self)
        ensures
            r@ == lanes@,
    {
        I64x2 { lanes }
    }

    /// Builds a register with every lane equal to `v`.
    pub fn splat(v: i64) -> (r: Self)
        ensures
            r@.len() == 2,
            forall|k: int| 0 <= k < 2 ==> r@[k] == v,
    {
        I64x2 { lanes: [v; 2] }
    }

    /// Reads lane `k % 2`; the index is wrapped, never rejected.
    pub fn extract(self, k: u32) -> (r: i64)
        ensures
            r == self@[(k % 2) as int],
    {
        self.lanes[(k % 2) as usize]
    }

    /// Returns a copy with lane `k % 2` replaced by `v`.
    pub fn replace(self, k: u32, v: i64) -> (r: Self)
        ensures
            r@ == self@.update((k % 2) as int, v),
    {
        let mut lanes = self.lanes;
        lanes[(k % 2) as usize] = v;
        I64x2 { lanes }
    }

    /// Compares the lanes of `self` and `other` for equality; an equal pair
    /// yields an all-bits-set lane, an unequal one an all-bits-clear lane.
    pub fn eq_lanes(self, other: Self) -> (r: Self)
        ensures
            r@ == Seq::new(2, |k: int| if self@[k] == other@[k] { -1i64 } else { 0i64 }),
    {
        let mut lanes: [i64; 2] = [0; 2];
        let mut k: usize = 0;
        while k < 2
            invariant
                k <= 2,
                forall|j: int| 0 <= j < k ==> lanes@[j] == (if self@[j] == other@[j] { -1i64 } else { 0i64 }),
            decreases 2 - k,
        {
            lanes[k] = if self.lanes[k] == other.lanes[k] {
                -1i64
            } else {
                0
            };
            k += 1;
        }
        let r = I64x2 { lanes };
        proof {
            assert(r@ =~= Seq::new(2, |k: int| if self@[k] == other@[k] { -1i64 } else { 0i64 }));
        }
        r
    }

    /// The register's 128-bit pattern, for reinterpretation under another view.
    pub fn to_bits(self) -> (r: u128)
        ensures
            r == self.bits(),
    {
        let v0: u64 = u64_of_i64(self.lanes[0]);
        let v1: u64 = u64_of_i64(self.lanes[1]);
        (v0 as u128) | ((v1 as u128) << 64)
    }

    /// Reads a 128-bit pattern under this view; no bit is altered.
    pub fn from_bits(b: u128) -> (r: Self)
        ensures
            r@ == Self::decoded(b),
            r.bits() == b,
    {
        let lanes: [i64; 2] = [
            i64_of_u64((b >> 0) as u64),
            i64_of_u64((b >> 64) as u64),
        ];
        let r = I64x2 { lanes };
        proof {
            assert(r@ =~= Self::decoded(b));
            lemma_u64_image_id((b >> 0) as u64);
            lemma_u64_image_id((b >> 64) as u64);
            lemma_u64_compose_decompose(b);
        }
        r
    }
}

/// Two unsigned 64-bit lanes packed into a 128-bit register.
#[derive(Clone, Copy, PartialEq, Eq, Debug)]
pub struct U64x2 {
    pub lanes: [u64; 2],
}

impl View for U64x2 {
    type V = Seq<u64>;

    open spec fn view(&self) -> Seq<u64> {
        self.lanes@
    }
}

impl U64x2 {
    /// The 128-bit pattern of this register.
    pub open spec fn bits(self) -> u128 {
        spec_bits_u64(self@)
    }

    /// The lanes that a 128-bit pattern carries under this view.
    pub open spec fn decoded(b: u128) -> Seq<u64> {
        Seq::new(2, |k: int| spec_lane_u64(b, k))
    }

    /// Builds a register from its lanes, lane 0 first.
    pub fn from_lanes(lanes: [u64; 2]) -> (r: Self)
        ensures
            r@ == lanes@,
    {
        U64x2 { lanes }
    }

    /// Builds a register with every lane equal to `v`.
    pub fn splat(v: u64) -> (r: Self)
        ensures
            r@.len() == 2,
            forall|k: int| 0 <= k < 2 ==> r@[k] == v,
    {
        U64x2 { lanes: [v; 2] }
    }

    /// Reads lane `k % 2`; the index is wrapped, never rejected.
    pub fn extract(self, k: u32) -> (r: u64)
        ensures
            r == self@[(k % 2) as int],
    {
        self.lanes[(k % 2) as usize]
    }

    /// Returns a copy with lane `k % 2` replaced by `v`.
    pub fn replace(self, k: u32, v: u64) -> (r: Self)
        ensures
            r@ == self@.update((k % 2) as int, v),
    {
        let mut lanes = self.lanes;
        lanes[(k % 2) as usize] = v;
        U64x2 { lanes }
    }

    /// Compares the lanes of `self` and `other` for equality; an equal pair
    /// yields an all-bits-set lane, an unequal one an all-bits-clear lane.
    pub fn eq_lanes(self, other: Self) -> (r: Self)
        ensures
            r@ == Seq::new(2, |k: int| if self@[k] == other@[k] { 0xffffffffffffffffu64 } else { 0u64 }),
    {
        let mut lanes: [u64; 2] = [0; 2];
        let mut k: usize = 0;
        while k < 2
            invariant
                k <= 2,
                forall|j: int| 0 <= j < k ==> lanes@[j] == (if self@[j] == other@[j] { 0xffffffffffffffffu64 } else { 0u64 }),
            decreases 2 - k,
        {
            lanes[k] = if self.lanes[k] == other.lanes[k] {
                0xffffffffffffffffu64
            } else {
                0
            };
            k += 1;
        }
        let r = U64x2 { lanes };
        proof {
            assert(r@ =~= Seq::new(2, |k: int| if self@[k] == other@[k] { 0xffffffffffffffffu64 } else { 0u64 }));
        }
        r
    }

    /// The register's 128-bit pattern, for reinterpretation under another view.
    pub fn to_bits(self) -> (r: u128)
        ensures
            r == self.bits(),
    {
        let l = &self.lanes;
        (l[0] as u128) | ((l[1] as u128) << 64)
    }

    /// Reads a 128-bit pattern under this view; no bit is altered.
    pub fn from_bits(b: u128) -> (r: Self)
        ensures
            r@ == Self::decoded(b),
            r.bits() == b,
    {
        let lanes: [u64; 2] = [
            (b >> 0) as u64,
            (b >> 64) as u64,
        ];
        let r = U64x2 { lanes };
        proof {
            assert(r@ =~= Self::decoded(b));
            lemma_u64_compose_decompose(b);
        }
        r
    }
}

/// Two 64-bit lanes holding IEEE binary64 bit patterns.
///
/// The library never does floating-point arithmetic: a float lane is
/// carried as its bit pattern, and the bindings on this view are
/// bit-level.
#[derive(Clone, Copy, PartialEq, Eq, Debug)]
pub struct F64x2Bits {
    pub lanes: [u64; 2],
}

impl View for F64x2Bits {
    type V = Seq<u64>;

    open spec fn view(&self) -> Seq<u64> {
        self.lanes@
    }
}

impl F64x2Bits {
    /// The 128-bit pattern of this register.
    pub open spec fn bits(self) -> u128 {
        spec_bits_u64(self@)
    }

    /// The lanes that a 128-bit pattern carries under this view.
    pub open spec fn decoded(b: u128) -> Seq<u64> {
        Seq::new(2, |k: int| spec_lane_u64(b, k))
    }

    /// Builds a register from its lanes, lane 0 first.
    pub fn from_lanes(lanes: [u64; 2]) -> (r: Self)
        ensures
            r@ == lanes@,
    {
        F64x2Bits { lanes }
    }

    /// Builds a register with every lane equal to `v`.
    pub fn splat(v: u64) -> (r: Self)
        ensures
            r@.len() == 2,
            forall|k: int| 0 <= k < 2 ==> r@[k] == v,
    {
        F64x2Bits { lanes: [v; 2] }
    }

    /// Reads lane `k % 2`; the index is wrapped, never rejected.
    pub fn extract(self, k: u32) -> (r: u64)
        ensures
            r == self@[(k % 2) as int],
    {
        self.lanes[(k % 2) as usize]
    }

    /// Returns a copy with lane `k % 2` replaced by `v`.
    pub fn replace(self, k: u32, v: u64) -> (r: Self)
        ensures
            r@ == self@.update((k % 2) as int, v),
    {
        let mut lanes = self.lanes;
        lanes[(k % 2) as usize] = v;
        F64x2Bits { lanes }
    }

    /// The register's 128-bit pattern, for reinterpretation under another view.
    pub fn to_bits(self) -> (r: u128)
        ensures
            r == self.bits(),
    {
        let l = &self.lanes;
        (l[0] as u128) | ((l[1] as u128) << 64)
    }

    /// Reads a 128-bit pattern under this view; no bit is altered.
    pub fn from_bits(b: u128) -> (r: Self)
        ensures
            r@ == Self::decoded(b),
            r.bits() == b,
    {
        let lanes: [u64; 2] = [
            (b >> 0) as u64,
            (b >> 64) as u64,
        ];
        let r = F64x2Bits { lanes };
        proof {
            assert(r@ =~= Self::decoded(b));
            lemma_u64_compose_decompose(b);
        }
        r
    }
}

/// Reinterpretation round trip: recovering the lanes of a `I8x16` from
/// its 128-bit pattern gives back the original lanes, so reinterpreting a
/// register to any other view and back to this one is the identity.
pub proof fn lemma_i8x16_roundtrip(a: I8x16)
    ensures
        I8x16::decoded(a.bits()) == a@,
{
    lemma_u8_decompose_compose(spec_u8_of_i8(a@[0]), spec_u8_of_i8(a@[1]), spec_u8_of_i8(a@[2]), spec_u8_of_i8(a@[3]), spec_u8_of_i8(a@[4]), spec_u8_of_i8(a@[5]), spec_u8_of_i8(a@[6]), spec_u8_of_i8(a@[7]), spec_u8_of_i8(a@[8]), spec_u8_of_i8(a@[9]), spec_u8_of_i8(a@[10]), spec_u8_of_i8(a@[11]), spec_u8_of_i8(a@[12]), spec_u8_of_i8(a@[13]), spec_u8_of_i8(a@[14]), spec_u8_of_i8(a@[15]));
    lemma_i8_image_id(a@[0]);
    lemma_i8_image_id(a@[1]);
    lemma_i8_image_id(a@[2]);
    lemma_i8_image_id(a@[3]);
    lemma_i8_image_id(a@[4]);
    lemma_i8_image_id(a@[5]);
    lemma_i8_image_id(a@[6]);
    lemma_i8_image_id(a@[7]);
    lemma_i8_image_id(a@[8]);
    lemma_i8_image_id(a@[9]);
    lemma_i8_image_id(a@[10]);
    lemma_i8_image_id(a@[11]);
    lemma_i8_image_id(a@[12]);
    lemma_i8_image_id(a@[13]);
    lemma_i8_image_id(a@[14]);
    lemma_i8_image_id(a@[15]);
    assert(I8x16::decoded(a.bits()) =~= a@);
}

/// Reinterpretation round trip: recovering the lanes of a `U8x16` from
/// its 128-bit pattern gives back the original lanes, so reinterpreting a
/// register to any other view and back to this one is the identity.
pub proof fn lemma_u8x16_roundtrip(a: U8x16)
    ensures
        U8x16::decoded(a.bits()) == a@,
{
    lemma_u8_decompose_compose(a@[0], a@[1], a@[2], a@[3], a@[4], a@[5], a@[6], a@[7], a@[8], a@[9], a@[10], a@[11], a@[12], a@[13], a@[14], a@[15]);
    assert(U8x16::decoded(a.bits()) =~= a@);
}

/// Reinterpretation round trip: recovering the lanes of a `I16x8` from
/// its 128-bit pattern gives back the original lanes, so reinterpreting a
/// register to any other view and back to this one is the identity.
pub proof fn lemma_i16x8_roundtrip(a: I16x8)
    ensures
        I16x8::decoded(a.bits()) == a@,
{
    lemma_u16_decompose_compose(spec_u16_of_i16(a@[0]), spec_u16_of_i16(a@[1]), spec_u16_of_i16(a@[2]), spec_u16_of_i16(a@[3]), spec_u16_of_i16(a@[4]), spec_u16_of_i16(a@[5]), spec_u16_of_i16(a@[6]), spec_u16_of_i16(a@[7]));
    lemma_i16_image_id(a@[0]);
    lemma_i16_image_id(a@[1]);
    lemma_i16_image_id(a@[2]);
    lemma_i16_image_id(a@[3]);
    lemma_i16_image_id(a@[4]);
    lemma_i16_image_id(a@[5]);
    lemma_i16_image_id(a@[6]);
    lemma_i16_image_id(a@[7]);
    assert(I16x8::decoded(a.bits()) =~= a@);
}

/// Reinterpretation round trip: recovering the lanes of a `U16x8` from
/// its 128-bit pattern gives back the original lanes, so reinterpreting a
/// register to any other view and back to this one is the identity.
pub proof fn lemma_u16x8_roundtrip(a: U16x8)
    ensures
        U16x8::decoded(a.bits()) == a@,
{
    lemma_u16_decompose_compose(a@[0], a@[1], a@[2], a@[3], a@[4], a@[5], a@[6], a@[7]);
    assert(U16x8::decoded(a.bits()) =~= a@);
}

/// Reinterpretation round trip: recovering the lanes of a `I32x4` from
/// its 128-bit pattern gives back the original lanes, so reinterpreting a
/// register to any other view and back to this one is the identity.
pub proof fn lemma_i32x4_roundtrip(a: I32x4)
    ensures
        I32x4::decoded(a.bits()) == a@,
{
    lemma_u32_decompose_compose(spec_u32_of_i32(a@[0]), spec_u32_of_i32(a@[1]), spec_u32_of_i32(a@[2]), spec_u32_of_i32(a@[3]));
    lemma_i32_image_id(a@[0]);
    lemma_i32_image_id(a@[1]);
    lemma_i32_image_id(a@[2]);
    lemma_i32_image_id(a@[3]);
    assert(I32x4::decoded(a.bits()) =~= a@);
}

/// Reinterpretation round trip: recovering the lanes of a `U32x4` from
/// its 128-bit pattern gives back the original lanes, so reinterpreting a
/// register to any other view and back to this one is the identity.
pub proof fn lemma_u32x4_roundtrip(a: U32x4)
    ensures
        U32x4::decoded(a.bits()) == a@,
{
    lemma_u32_decompose_compose(a@[0], a@[1], a@[2], a@[3]);
    assert(U32x4::decoded(a.bits()) =~= a@);
}

/// Reinterpretation round trip: recovering the lanes of a `F32x4Bits` from
/// its 128-bit pattern gives back the original lanes, so reinterpreting a
/// register to any other view and back to this one is the identity.
pub proof fn lemma_f32x4bits_roundtrip(a: F32x4Bits)
    ensures
        F32x4Bits::decoded(a.bits()) == a@,
{
    lemma_u32_decompose_compose(a@[0], a@[1], a@[2], a@[3]);
    assert(F32x4Bits::decoded(a.bits()) =~= a@);
}

/// Reinterpretation round trip: recovering the lanes of a `I64x2` from
/// its 128-bit pattern gives back the original lanes, so reinterpreting a
/// register to any other view and back to this one is the identity.
pub proof fn lemma_i64x2_roundtrip(a: I64x2)
    ensures
        I64x2::decoded(a.bits()) == a@,
{
    lemma_u64_decompose_compose(spec_u64_of_i64(a@[0]), spec_u64_of_i64(a@[1]));
    lemma_i64_image_id(a@[0]);
    lemma_i64_image_id(a@[1]);
    assert(I64x2::decoded(a.bits()) =~= a@);
}

/// Reinterpretation round trip: recovering the lanes of a `U64x2` from
/// its 128-bit pattern gives back the original lanes, so reinterpreting a
/// register to any other view and back to this one is the identity.
pub proof fn lemma_u64x2_roundtrip(a: U64x2)
    ensures
        U64x2::decoded(a.bits()) == a@,
{
    lemma_u64_decompose_compose(a@[0], a@[1]);
    assert(U64x2::decoded(a.bits()) =~= a@);
}

/// Reinterpretation round trip: recovering the lanes of a `F64x2Bits` from
/// its 128-bit pattern gives back the original lanes, so reinterpreting a
/// register to any other view and back to this one is the identity.
pub proof fn lemma_f64x2bits_roundtrip(a: F64x2Bits)
    ensures
        F64x2Bits::decoded(a.bits()) == a@,
{
    lemma_u64_decompose_compose(a@[0], a@[1]);
    assert(F64x2Bits::decoded(a.bits()) =~= a@);
}

} // verus!
