//! Blend bindings: per-lane selection between two registers.
//!
//! The variable blends (`blendv`) read the selection from the high bit of
//! each lane of a mask register.  The immediate blends read it from one bit
//! of an immediate operand per lane; the immediate is masked to its declared
//! width and dispatched over one branch per masked value, so every
//! specialization is reachable and each branch bakes its literal into the
//! call.

use vstd::prelude::*;

use crate::registers::F32x4Bits;
use crate::registers::F64x2Bits;
use crate::registers::I16x8;
use crate::registers::I8x16;

verus! {

broadcast use vstd::array::group_array_axioms;

/// Bit `k` of an immediate operand.
pub open spec fn spec_imm_bit(imm: u8, k: int) -> bool {
    (imm >> (k as u8)) & 1 == 1
}

/// Per-lane selection by the high bit of each 8-bit mask lane: a set high
/// bit picks the lane of `b`, a clear one the lane of `a`.
pub open spec fn spec_blendv_epi8(a: Seq<i8>, b: Seq<i8>, mask: Seq<i8>) -> Seq<i8> {
    Seq::new(16, |k: int| if mask[k] < 0 { b[k] } else { a[k] })
}

/// Per-lane selection by bit `k` of an immediate: a set bit picks the lane
/// of `b`, a clear one the lane of `a`.
pub open spec fn spec_blend_epi16(a: Seq<i16>, b: Seq<i16>, imm: u8) -> Seq<i16> {
    Seq::new(8, |k: int| if spec_imm_bit(imm, k) { b[k] } else { a[k] })
}

/// Per-lane selection by the high (sign) bit of each 64-bit mask lane.
pub open spec fn spec_blendv_bits64(a: Seq<u64>, b: Seq<u64>, mask: Seq<u64>) -> Seq<u64> {
    Seq::new(2, |k: int| if mask[k] >= 0x8000_0000_0000_0000 { b[k] } else { a[k] })
}

/// Per-lane selection by the high (sign) bit of each 32-bit mask lane.
pub open spec fn spec_blendv_bits32(a: Seq<u32>, b: Seq<u32>, mask: Seq<u32>) -> Seq<u32> {
    Seq::new(4, |k: int| if mask[k] >= 0x8000_0000 { b[k] } else { a[k] })
}

/// Per-lane selection by bit `k` of an immediate, on 64-bit lanes.
pub open spec fn spec_blend_bits64(a: Seq<u64>, b: Seq<u64>, imm: u8) -> Seq<u64> {
    Seq::new(2, |k: int| if spec_imm_bit(imm, k) { b[k] } else { a[k] })
}

/// Per-lane selection by bit `k` of an immediate, on 32-bit lanes.
pub open spec fn spec_blend_bits32(a: Seq<u32>, b: Seq<u32>, imm: u8) -> Seq<u32> {
    Seq::new(4, |k: int| if spec_imm_bit(imm, k) { b[k] } else { a[k] })
}

/// Blends packed 8-bit lanes of `a` and `b` under the control of `mask`.
///
/// A set high bit in a mask lane selects the lane of `b`, a clear one the
/// lane of `a`.
pub fn _mm_blendv_epi8(a: I8x16, b: I8x16, mask: I8x16) -> (r: I8x16)
    ensures
        r@ == spec_blendv_epi8(a@, b@, mask@),
{
    let mut lanes: [i8; 16] = [0; 16];
    let mut k: usize = 0;
    while k < 16
        invariant
            k <= 16,
            forall|j: int| 0 <= j < k ==> lanes@[j] == spec_blendv_epi8(a@, b@, mask@)[j],
        decreases 16 - k,
    {
        lanes[k] = if mask.lanes[k] < 0 {
            b.lanes[k]
        } else {
            a.lanes[k]
        };
        k += 1;
    }
    let r = I8x16 { lanes };
    proof {
        assert(r@ =~= spec_blendv_epi8(a@, b@, mask@));
    }
    r
}

/// The `pblendw` primitive: blends packed 16-bit lanes of `a` and `b` by
/// the bits of a compile-time immediate.
fn pblendw(a: I16x8, b: I16x8, imm8: u8) -> (r: I16x8)
    ensures
        r@ == spec_blend_epi16(a@, b@, imm8),
{
    let mut lanes: [i16; 8] = [0; 8];
    let mut k: usize = 0;
    while k < 8
        invariant
            k <= 8,
            forall|j: int| 0 <= j < k ==> lanes@[j] == spec_blend_epi16(a@, b@, imm8)[j],
        decreases 8 - k,
    {
        lanes[k] = if (imm8 >> (k as u8)) & 1 == 1 {
            b.lanes[k]
        } else {
            a.lanes[k]
        };
        k += 1;
    }
    let r = I16x8 { lanes };
    proof {
        assert(r@ =~= spec_blend_epi16(a@, b@, imm8));
    }
    r
}

/// Blends packed 16-bit lanes of `a` and `b` by the bits of `imm8`.
///
/// Bit `k` of `imm8` controls lane `k`: a set bit selects the lane of `b`,
/// a clear one the lane of `a`.  The immediate is 8 bits wide, and every
/// one of its 256 values selects its own specialization below.
pub fn _mm_blend_epi16(a: I16x8, b: I16x8, imm8: u8) -> (r: I16x8)
    ensures
        r@ == spec_blend_epi16(a@, b@, imm8),
{
    match imm8 {
        0u8 => pblendw(a, b, 0),
        1u8 => pblendw(a, b, 1),
        2u8 => pblendw(a, b, 2),
        3u8 => pblendw(a, b, 3),
        4u8 => pblendw(a, b, 4),
        5u8 => pblendw(a, b, 5),
        6u8 => pblendw(a, b, 6),
        7u8 => pblendw(a, b, 7),
        8u8 => pblendw(a, b, 8),
        9u8 => pblendw(a, b, 9),
        10u8 => pblendw(a, b, 10),
        11u8 => pblendw(a, b, 11),
        12u8 => pblendw(a, b, 12),
        13u8 => pblendw(a, b, 13),
        14u8 => pblendw(a, b, 14),
        15u8 => pblendw(a, b, 15),
        16u8 => pblendw(a, b, 16),
        17u8 => pblendw(a, b, 17),
        18u8 => pblendw(a, b, 18),
        19u8 => pblendw(a, b, 19),
        20u8 => pblendw(a, b, 20),
        21u8 => pblendw(a, b, 21),
        22u8 => pblendw(a, b, 22),
        23u8 => pblendw(a, b, 23),
        24u8 => pblendw(a, b, 24),
        25u8 => pblendw(a, b, 25),
        26u8 => pblendw(a, b, 26),
        27u8 => pblendw(a, b, 27),
        28u8 => pblendw(a, b, 28),
        29u8 => pblendw(a, b, 29),
        30u8 => pblendw(a, b, 30),
        31u8 => pblendw(a, b, 31),
        32u8 => pblendw(a, b, 32),
        33u8 => pblendw(a, b, 33),
        34u8 => pblendw(a, b, 34),
        35u8 => pblendw(a, b, 35),
        36u8 => pblendw(a, b, 36),
        37u8 => pblendw(a, b, 37),
        38u8 => pblendw(a, b, 38),
        39u8 => pblendw(a, b, 39),
        40u8 => pblendw(a, b, 40),
        41u8 => pblendw(a, b, 41),
        42u8 => pblendw(a, b, 42),
        43u8 => pblendw(a, b, 43),
        44u8 => pblendw(a, b, 44),
        45u8 => pblendw(a, b, 45),
        46u8 => pblendw(a, b, 46),
        47u8 => pblendw(a, b, 47),
        48u8 => pblendw(a, b, 48),
        49u8 => pblendw(a, b, 49),
        50u8 => pblendw(a, b, 50),
        51u8 => pblendw(a, b, 51),
        52u8 => pblendw(a, b, 52),
        53u8 => pblendw(a, b, 53),
        54u8 => pblendw(a, b, 54),
        55u8 => pblendw(a, b, 55),
        56u8 => pblendw(a, b, 56),
        57u8 => pblendw(a, b, 57),
        58u8 => pblendw(a, b, 58),
        59u8 => pblendw(a, b, 59),
        60u8 => pblendw(a, b, 60),
        61u8 => pblendw(a, b, 61),
        62u8 => pblendw(a, b, 62),
        63u8 => pblendw(a, b, 63),
        64u8 => pblendw(a, b, 64),
        65u8 => pblendw(a, b, 65),
        66u8 => pblendw(a, b, 66),
        67u8 => pblendw(a, b, 67),
        68u8 => pblendw(a, b, 68),
        69u8 => pblendw(a, b, 69),
        70u8 => pblendw(a, b, 70),
        71u8 => pblendw(a, b, 71),
        72u8 => pblendw(a, b, 72),
        73u8 => pblendw(a, b, 73),
        74u8 => pblendw(a, b, 74),
        75u8 => pblendw(a, b, 75),
        76u8 => pblendw(a, b, 76),
        77u8 => pblendw(a, b, 77),
        78u8 => pblendw(a, b, 78),
        79u8 => pblendw(a, b, 79),
        80u8 => pblendw(a, b, 80),
        81u8 => pblendw(a, b, 81),
        82u8 => pblendw(a, b, 82),
        83u8 => pblendw(a, b, 83),
        84u8 => pblendw(a, b, 84),
        85u8 => pblendw(a, b, 85),
        86u8 => pblendw(a, b, 86),
        87u8 => pblendw(a, b, 87),
        88u8 => pblendw(a, b, 88),
        89u8 => pblendw(a, b, 89),
        90u8 => pblendw(a, b, 90),
        91u8 => pblendw(a, b, 91),
        92u8 => pblendw(a, b, 92),
        93u8 => pblendw(a, b, 93),
        94u8 => pblendw(a, b, 94),
        95u8 => pblendw(a, b, 95),
        96u8 => pblendw(a, b, 96),
        97u8 => pblendw(a, b, 97),
        98u8 => pblendw(a, b, 98),
        99u8 => pblendw(a, b, 99),
        100u8 => pblendw(a, b, 100),
        101u8 => pblendw(a, b, 101),
        102u8 => pblendw(a, b, 102),
        103u8 => pblendw(a, b, 103),
        104u8 => pblendw(a, b, 104),
        105u8 => pblendw(a, b, 105),
        106u8 => pblendw(a, b, 106),
        107u8 => pblendw(a, b, 107),
        108u8 => pblendw(a, b, 108),
        109u8 => pblendw(a, b, 109),
        110u8 => pblendw(a, b, 110),
        111u8 => pblendw(a, b, 111),
        112u8 => pblendw(a, b, 112),
        113u8 => pblendw(a, b, 113),
        114u8 => pblendw(a, b, 114),
        115u8 => pblendw(a, b, 115),
        116u8 => pblendw(a, b, 116),
        117u8 => pblendw(a, b, 117),
        118u8 => pblendw(a, b, 118),
        119u8 => pblendw(a, b, 119),
        120u8 => pblendw(a, b, 120),
        121u8 => pblendw(a, b, 121),
        122u8 => pblendw(a, b, 122),
        123u8 => pblendw(a, b, 123),
        124u8 => pblendw(a, b, 124),
        125u8 => pblendw(a, b, 125),
        126u8 => pblendw(a, b, 126),
        127u8 => pblendw(a, b, 127),
        128u8 => pblendw(a, b, 128),
        129u8 => pblendw(a, b, 129),
        130u8 => pblendw(a, b, 130),
        131u8 => pblendw(a, b, 131),
        132u8 => pblendw(a, b, 132),
        133u8 => pblendw(a, b, 133),
        134u8 => pblendw(a, b, 134),
        135u8 => pblendw(a, b, 135),
        136u8 => pblendw(a, b, 136),
        137u8 => pblendw(a, b, 137),
        138u8 => pblendw(a, b, 138),
        139u8 => pblendw(a, b, 139),
        140u8 => pblendw(a, b, 140),
        141u8 => pblendw(a, b, 141),
        142u8 => pblendw(a, b, 142),
        143u8 => pblendw(a, b, 143),
        144u8 => pblendw(a, b, 144),
        145u8 => pblendw(a, b, 145),
        146u8 => pblendw(a, b, 146),
        147u8 => pblendw(a, b, 147),
        148u8 => pblendw(a, b, 148),
        149u8 => pblendw(a, b, 149),
        150u8 => pblendw(a, b, 150),
        151u8 => pblendw(a, b, 151),
        152u8 => pblendw(a, b, 152),
        153u8 => pblendw(a, b, 153),
        154u8 => pblendw(a, b, 154),
        155u8 => pblendw(a, b, 155),
        156u8 => pblendw(a, b, 156),
        157u8 => pblendw(a, b, 157),
        158u8 => pblendw(a, b, 158),
        159u8 => pblendw(a, b, 159),
        160u8 => pblendw(a, b, 160),
        161u8 => pblendw(a, b, 161),
        162u8 => pblendw(a, b, 162),
        163u8 => pblendw(a, b, 163),
        164u8 => pblendw(a, b, 164),
        165u8 => pblendw(a, b, 165),
        166u8 => pblendw(a, b, 166),
        167u8 => pblendw(a, b, 167),
        168u8 => pblendw(a, b, 168),
        169u8 => pblendw(a, b, 169),
        170u8 => pblendw(a, b, 170),
        171u8 => pblendw(a, b, 171),
        172u8 => pblendw(a, b, 172),
        173u8 => pblendw(a, b, 173),
        174u8 => pblendw(a, b, 174),
        175u8 => pblendw(a, b, 175),
        176u8 => pblendw(a, b, 176),
        177u8 => pblendw(a, b, 177),
        178u8 => pblendw(a, b, 178),
        179u8 => pblendw(a, b, 179),
        180u8 => pblendw(a, b, 180),
        181u8 => pblendw(a, b, 181),
        182u8 => pblendw(a, b, 182),
        183u8 => pblendw(a, b, 183),
        184u8 => pblendw(a, b, 184),
        185u8 => pblendw(a, b, 185),
        186u8 => pblendw(a, b, 186),
        187u8 => pblendw(a, b, 187),
        188u8 => pblendw(a, b, 188),
        189u8 => pblendw(a, b, 189),
        190u8 => pblendw(a, b, 190),
        191u8 => pblendw(a, b, 191),
        192u8 => pblendw(a, b, 192),
        193u8 => pblendw(a, b, 193),
        194u8 => pblendw(a, b, 194),
        195u8 => pblendw(a, b, 195),
        196u8 => pblendw(a, b, 196),
        197u8 => pblendw(a, b, 197),
        198u8 => pblendw(a, b, 198),
        199u8 => pblendw(a, b, 199),
        200u8 => pblendw(a, b, 200),
        201u8 => pblendw(a, b, 201),
        202u8 => pblendw(a, b, 202),
        203u8 => pblendw(a, b, 203),
        204u8 => pblendw(a, b, 204),
        205u8 => pblendw(a, b, 205),
        206u8 => pblendw(a, b, 206),
        207u8 => pblendw(a, b, 207),
        208u8 => pblendw(a, b, 208),
        209u8 => pblendw(a, b, 209),
        210u8 => pblendw(a, b, 210),
        211u8 => pblendw(a, b, 211),
        212u8 => pblendw(a, b, 212),
        213u8 => pblendw(a, b, 213),
        214u8 => pblendw(a, b, 214),
        215u8 => pblendw(a, b, 215),
        216u8 => pblendw(a, b, 216),
        217u8 => pblendw(a, b, 217),
        218u8 => pblendw(a, b, 218),
        219u8 => pblendw(a, b, 219),
        220u8 => pblendw(a, b, 220),
        221u8 => pblendw(a, b, 221),
        222u8 => pblendw(a, b, 222),
        223u8 => pblendw(a, b, 223),
        224u8 => pblendw(a, b, 224),
        225u8 => pblendw(a, b, 225),
        226u8 => pblendw(a, b, 226),
        227u8 => pblendw(a, b, 227),
        228u8 => pblendw(a, b, 228),
        229u8 => pblendw(a, b, 229),
        230u8 => pblendw(a, b, 230),
        231u8 => pblendw(a, b, 231),
        232u8 => pblendw(a, b, 232),
        233u8 => pblendw(a, b, 233),
        234u8 => pblendw(a, b, 234),
        235u8 => pblendw(a, b, 235),
        236u8 => pblendw(a, b, 236),
        237u8 => pblendw(a, b, 237),
        238u8 => pblendw(a, b, 238),
        239u8 => pblendw(a, b, 239),
        240u8 => pblendw(a, b, 240),
        241u8 => pblendw(a, b, 241),
        242u8 => pblendw(a, b, 242),
        243u8 => pblendw(a, b, 243),
        244u8 => pblendw(a, b, 244),
        245u8 => pblendw(a, b, 245),
        246u8 => pblendw(a, b, 246),
        247u8 => pblendw(a, b, 247),
        248u8 => pblendw(a, b, 248),
        249u8 => pblendw(a, b, 249),
        250u8 => pblendw(a, b, 250),
        251u8 => pblendw(a, b, 251),
        252u8 => pblendw(a, b, 252),
        253u8 => pblendw(a, b, 253),
        254u8 => pblendw(a, b, 254),
        255u8 => pblendw(a, b, 255),
    }
}

/// The `blendvpd` primitive on 64-bit lane patterns.
fn blendvpd(a: F64x2Bits, b: F64x2Bits, mask: F64x2Bits) -> (r: F64x2Bits)
    ensures
        r@ == spec_blendv_bits64(a@, b@, mask@),
{
    let l0: u64 = if mask.lanes[0] >= 0x8000_0000_0000_0000 {
        b.lanes[0]
    } else {
        a.lanes[0]
    };
    let l1: u64 = if mask.lanes[1] >= 0x8000_0000_0000_0000 {
        b.lanes[1]
    } else {
        a.lanes[1]
    };
    let r = F64x2Bits { lanes: [l0, l1] };
    proof {
        assert(r@ =~= spec_blendv_bits64(a@, b@, mask@));
    }
    r
}

/// Blends 64-bit float lanes of `a` and `b` under the control of `mask`.
///
/// A set high (sign) bit in a mask lane selects the lane of `b`, a clear
/// one the lane of `a`.  Lanes are carried as IEEE binary64 bit patterns;
/// the selection never alters them.
pub fn _mm_blendv_pd(a: F64x2Bits, b: F64x2Bits, mask: F64x2Bits) -> (r: F64x2Bits)
    ensures
        r@ == spec_blendv_bits64(a@, b@, mask@),
{
    blendvpd(a, b, mask)
}

/// The `blendvps` primitive on 32-bit lane patterns.
fn blendvps(a: F32x4Bits, b: F32x4Bits, mask: F32x4Bits) -> (r: F32x4Bits)
    ensures
        r@ == spec_blendv_bits32(a@, b@, mask@),
{
    let mut lanes: [u32; 4] = [0; 4];
    let mut k: usize = 0;
    while k < 4
        invariant
            k <= 4,
            forall|j: int| 0 <= j < k ==> lanes@[j] == spec_blendv_bits32(a@, b@, mask@)[j],
        decreases 4 - k,
    {
        lanes[k] = if mask.lanes[k] >= 0x8000_0000 {
            b.lanes[k]
        } else {
            a.lanes[k]
        };
        k += 1;
    }
    let r = F32x4Bits { lanes };
    proof {
        assert(r@ =~= spec_blendv_bits32(a@, b@, mask@));
    }
    r
}

/// Blends 32-bit float lanes of `a` and `b` under the control of `mask`.
///
/// A set high (sign) bit in a mask lane selects the lane of `b`, a clear
/// one the lane of `a`.  Lanes are carried as IEEE binary32 bit patterns;
/// the selection never alters them.
pub fn _mm_blendv_ps(a: F32x4Bits, b: F32x4Bits, mask: F32x4Bits) -> (r: F32x4Bits)
    ensures
        r@ == spec_blendv_bits32(a@, b@, mask@),
{
    blendvps(a, b, mask)
}

/// The `blendpd` primitive on 64-bit lane patterns.
fn blendpd(a: F64x2Bits, b: F64x2Bits, imm2: u8) -> (r: F64x2Bits)
    ensures
        r@ == spec_blend_bits64(a@, b@, imm2),
{
    let l0: u64 = if imm2 & 1 == 1 {
        b.lanes[0]
    } else {
        a.lanes[0]
    };
    let l1: u64 = if (imm2 >> 1) & 1 == 1 {
        b.lanes[1]
    } else {
        a.lanes[1]
    };
    let r = F64x2Bits { lanes: [l0, l1] };
    proof {
        assert(imm2 & 1 == (imm2 >> 0) & 1) by (bit_vector);
        assert(r@ =~= spec_blend_bits64(a@, b@, imm2));
    }
    r
}

/// Blends 64-bit float lanes of `a` and `b` by the bits of `imm2`.
///
/// Only the low 2 bits of `imm2` are read: bit `k` controls lane `k`, a set
/// bit selecting the lane of `b`.  Each of the 4 masked values selects its
/// own specialization.
pub fn _mm_blend_pd(a: F64x2Bits, b: F64x2Bits, imm2: u8) -> (r: F64x2Bits)
    ensures
        r@ == spec_blend_bits64(a@, b@, imm2 & 3),
{
    proof {
        assert(imm2 & 3 <= 3) by (bit_vector);
    }
    let m: u8 = imm2 & 3;
    if m == 0 {
        blendpd(a, b, 0)
    } else if m == 1 {
        blendpd(a, b, 1)
    } else if m == 2 {
        blendpd(a, b, 2)
    } else {
        blendpd(a, b, 3)
    }
}

/// The `blendps` primitive on 32-bit lane patterns.
fn blendps(a: F32x4Bits, b: F32x4Bits, imm4: u8) -> (r: F32x4Bits)
    ensures
        r@ == spec_blend_bits32(a@, b@, imm4),
{
    let mut lanes: [u32; 4] = [0; 4];
    let mut k: usize = 0;
    while k < 4
        invariant
            k <= 4,
            forall|j: int| 0 <= j < k ==> lanes@[j] == spec_blend_bits32(a@, b@, imm4)[j],
        decreases 4 - k,
    {
        lanes[k] = if (imm4 >> (k as u8)) & 1 == 1 {
            b.lanes[k]
        } else {
            a.lanes[k]
        };
        k += 1;
    }
    let r = F32x4Bits { lanes };
    proof {
        assert(r@ =~= spec_blend_bits32(a@, b@, imm4));
    }
    r
}

/// Blends 32-bit float lanes of `a` and `b` by the bits of `imm4`.
///
/// Only the low 4 bits of `imm4` are read: bit `k` controls lane `k`, a set
/// bit selecting the lane of `b`.  Each of the 16 masked values selects its
/// own specialization.
pub fn _mm_blend_ps(a: F32x4Bits, b: F32x4Bits, imm4: u8) -> (r: F32x4Bits)
    ensures
        r@ == spec_blend_bits32(a@, b@, imm4 & 15),
{
    proof {
        assert(imm4 & 15 <= 15) by (bit_vector);
    }
    let m: u8 = imm4 & 15;
    if m == 0 {
        blendps(a, b, 0)
    } else if m == 1 {
        blendps(a, b, 1)
    } else if m == 2 {
        blendps(a, b, 2)
    } else if m == 3 {
        blendps(a, b, 3)
    } else if m == 4 {
        blendps(a, b, 4)
    } else if m == 5 {
        blendps(a, b, 5)
    } else if m == 6 {
        blendps(a, b, 6)
    } else if m == 7 {
        blendps(a, b, 7)
    } else if m == 8 {
        blendps(a, b, 8)
    } else if m == 9 {
        blendps(a, b, 9)
    } else if m == 10 {
        blendps(a, b, 10)
    } else if m == 11 {
        blendps(a, b, 11)
    } else if m == 12 {
        blendps(a, b, 12)
    } else if m == 13 {
        blendps(a, b, 13)
    } else if m == 14 {
        blendps(a, b, 14)
    } else {
        blendps(a, b, 15)
    }
}

} // verus!
