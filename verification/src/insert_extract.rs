//! Insertion and extraction of single lanes, keyed by an immediate.
//!
//! Lane indices taken from an immediate are masked to the lane count, never
//! range-checked: the low bits select the lane and all higher bits are
//! discarded.  Extracting a 32-bit float lane returns its IEEE binary32 bit
//! pattern reinterpreted as an integer, never a numeric conversion.

use vstd::prelude::*;

use crate::blend::spec_imm_bit;
use crate::registers::F32x4Bits;
use crate::registers::I32x4;
use crate::registers::I8x16;
use crate::registers::spec_i32_of_u32;
use crate::registers::spec_u8_of_i8;

verus! {

broadcast use vstd::array::group_array_axioms;

/// Lane insertion with zeroing, as `insertps` decodes its immediate: bits
/// 7:6 select the source lane of `b`, bits 5:4 the destination lane in `a`,
/// and each set bit among bits 3:0 clears the corresponding result lane.
pub open spec fn spec_insert_ps(a: Seq<u32>, b: Seq<u32>, imm: u8) -> Seq<u32> {
    let src = b[((imm >> 6) & 3) as int];
    let tmp = a.update(((imm >> 4) & 3) as int, src);
    Seq::new(4, |k: int| if spec_imm_bit(imm, k) { 0u32 } else { tmp[k] })
}

/// Extracts the bit pattern of 32-bit float lane `imm8 & 3` of `a`,
/// reinterpreted as a signed 32-bit integer.
pub fn _mm_extract_ps(a: F32x4Bits, imm8: u8) -> (r: i32)
    ensures
        r == spec_i32_of_u32(a@[(imm8 & 3) as int]),
{
    proof {
        assert(imm8 & 3 < 4) by (bit_vector);
    }
    let bits = a.lanes[(imm8 & 3) as usize];
    if bits < 0x8000_0000 {
        bits as i32
    } else {
        ((bits as i64) - 0x1_0000_0000) as i32
    }
}

/// Extracts 8-bit lane `imm8 & 15` of `a`, zero-extended to 32 bits.
pub fn _mm_extract_epi8(a: I8x16, imm8: i32) -> (r: i32)
    ensures
        r == spec_u8_of_i8(a@[(imm8 & 15) as int]) as i32,
{
    proof {
        assert(0 <= imm8 & 15 < 16) by (bit_vector);
    }
    let x = a.lanes[(imm8 & 15) as usize];
    if x >= 0 {
        x as i32
    } else {
        (x as i32) + 0x100
    }
}

/// Extracts 32-bit lane `imm8 & 3` of `a`.
pub fn _mm_extract_epi32(a: I32x4, imm8: i32) -> (r: i32)
    ensures
        r == a@[(imm8 & 3) as int],
{
    proof {
        assert(0 <= imm8 & 3 < 4) by (bit_vector);
    }
    a.lanes[(imm8 & 3) as usize]
}

/// The `insertps` primitive: copies one 32-bit float lane of `b` into one
/// lane of `a` and clears the lanes named by the immediate's zero mask.
fn insertps(a: F32x4Bits, b: F32x4Bits, imm8: u8) -> (r: F32x4Bits)
    ensures
        r@ == spec_insert_ps(a@, b@, imm8),
{
    proof {
        assert((imm8 >> 6) & 3 < 4 && (imm8 >> 4) & 3 < 4 && imm8 & 1 == (imm8 >> 0) & 1)
            by (bit_vector);
    }
    let src = b.lanes[((imm8 >> 6) & 3) as usize];
    let dst: usize = ((imm8 >> 4) & 3) as usize;
    let mut lanes = a.lanes;
    lanes[dst] = src;
    let mut k: usize = 0;
    while k < 4
        invariant
            k <= 4,
            dst < 4,
            lanes@.len() == 4,
            forall|j: int| 0 <= j < k ==> lanes@[j] == spec_insert_ps(a@, b@, imm8)[j],
            forall|j: int|
                k <= j < 4 ==> lanes@[j] == a@.update(((imm8 >> 4) & 3) as int,
                    b@[((imm8 >> 6) & 3) as int])[j],
        decreases 4 - k,
    {
        if (imm8 >> (k as u8)) & 1 == 1 {
            lanes[k] = 0;
        }
        k += 1;
    }
    let r = F32x4Bits { lanes };
    proof {
        assert(r@ =~= spec_insert_ps(a@, b@, imm8));
    }
    r
}

/// Copies one 32-bit float lane of `b` into one lane of `a` and clears the
/// lanes named by the immediate's zero mask.
///
/// Bits 7:6 of `imm8` select the source lane of `b`, bits 5:4 the
/// destination lane, and each set bit among bits 3:0 clears the
/// corresponding result lane.  The immediate is 8 bits wide, and every one
/// of its 256 values selects its own specialization below.
pub fn _mm_insert_ps(a: F32x4Bits, b: F32x4Bits, imm8: u8) -> (r: F32x4Bits)
    ensures
        r@ == spec_insert_ps(a@, b@, imm8),
{
    match imm8 {
        0u8 => insertps(a, b, 0),
        1u8 => insertps(a, b, 1),
        2u8 => insertps(a, b, 2),
        3u8 => insertps(a, b, 3),
        4u8 => insertps(a, b, 4),
        5u8 => insertps(a, b, 5),
        6u8 => insertps(a, b, 6),
        7u8 => insertps(a, b, 7),
        8u8 => insertps(a, b, 8),
        9u8 => insertps(a, b, 9),
        10u8 => insertps(a, b, 10),
        11u8 => insertps(a, b, 11),
        12u8 => insertps(a, b, 12),
        13u8 => insertps(a, b, 13),
        14u8 => insertps(a, b, 14),
        15u8 => insertps(a, b, 15),
        16u8 => insertps(a, b, 16),
        17u8 => insertps(a, b, 17),
        18u8 => insertps(a, b, 18),
        19u8 => insertps(a, b, 19),
        20u8 => insertps(a, b, 20),
        21u8 => insertps(a, b, 21),
        22u8 => insertps(a, b, 22),
        23u8 => insertps(a, b, 23),
        24u8 => insertps(a, b, 24),
        25u8 => insertps(a, b, 25),
        26u8 => insertps(a, b, 26),
        27u8 => insertps(a, b, 27),
        28u8 => insertps(a, b, 28),
        29u8 => insertps(a, b, 29),
        30u8 => insertps(a, b, 30),
        31u8 => insertps(a, b, 31),
        32u8 => insertps(a, b, 32),
        33u8 => insertps(a, b, 33),
        34u8 => insertps(a, b, 34),
        35u8 => insertps(a, b, 35),
        36u8 => insertps(a, b, 36),
        37u8 => insertps(a, b, 37),
        38u8 => insertps(a, b, 38),
        39u8 => insertps(a, b, 39),
        40u8 => insertps(a, b, 40),
        41u8 => insertps(a, b, 41),
        42u8 => insertps(a, b, 42),
        43u8 => insertps(a, b, 43),
        44u8 => insertps(a, b, 44),
        45u8 => insertps(a, b, 45),
        46u8 => insertps(a, b, 46),
        47u8 => insertps(a, b, 47),
        48u8 => insertps(a, b, 48),
        49u8 => insertps(a, b, 49),
        50u8 => insertps(a, b, 50),
        51u8 => insertps(a, b, 51),
        52u8 => insertps(a, b, 52),
        53u8 => insertps(a, b, 53),
        54u8 => insertps(a, b, 54),
        55u8 => insertps(a, b, 55),
        56u8 => insertps(a, b, 56),
        57u8 => insertps(a, b, 57),
        58u8 => insertps(a, b, 58),
        59u8 => insertps(a, b, 59),
        60u8 => insertps(a, b, 60),
        61u8 => insertps(a, b, 61),
        62u8 => insertps(a, b, 62),
        63u8 => insertps(a, b, 63),
        64u8 => insertps(a, b, 64),
        65u8 => insertps(a, b, 65),
        66u8 => insertps(a, b, 66),
        67u8 => insertps(a, b, 67),
        68u8 => insertps(a, b, 68),
        69u8 => insertps(a, b, 69),
        70u8 => insertps(a, b, 70),
        71u8 => insertps(a, b, 71),
        72u8 => insertps(a, b, 72),
        73u8 => insertps(a, b, 73),
        74u8 => insertps(a, b, 74),
        75u8 => insertps(a, b, 75),
        76u8 => insertps(a, b, 76),
        77u8 => insertps(a, b, 77),
        78u8 => insertps(a, b, 78),
        79u8 => insertps(a, b, 79),
        80u8 => insertps(a, b, 80),
        81u8 => insertps(a, b, 81),
        82u8 => insertps(a, b, 82),
        83u8 => insertps(a, b, 83),
        84u8 => insertps(a, b, 84),
        85u8 => insertps(a, b, 85),
        86u8 => insertps(a, b, 86),
        87u8 => insertps(a, b, 87),
        88u8 => insertps(a, b, 88),
        89u8 => insertps(a, b, 89),
        90u8 => insertps(a, b, 90),
        91u8 => insertps(a, b, 91),
        92u8 => insertps(a, b, 92),
        93u8 => insertps(a, b, 93),
        94u8 => insertps(a, b, 94),
        95u8 => insertps(a, b, 95),
        96u8 => insertps(a, b, 96),
        97u8 => insertps(a, b, 97),
        98u8 => insertps(a, b, 98),
        99u8 => insertps(a, b, 99),
        100u8 => insertps(a, b, 100),
        101u8 => insertps(a, b, 101),
        102u8 => insertps(a, b, 102),
        103u8 => insertps(a, b, 103),
        104u8 => insertps(a, b, 104),
        105u8 => insertps(a, b, 105),
        106u8 => insertps(a, b, 106),
        107u8 => insertps(a, b, 107),
        108u8 => insertps(a, b, 108),
        109u8 => insertps(a, b, 109),
        110u8 => insertps(a, b, 110),
        111u8 => insertps(a, b, 111),
        112u8 => insertps(a, b, 112),
        113u8 => insertps(a, b, 113),
        114u8 => insertps(a, b, 114),
        115u8 => insertps(a, b, 115),
        116u8 => insertps(a, b, 116),
        117u8 => insertps(a, b, 117),
        118u8 => insertps(a, b, 118),
        119u8 => insertps(a, b, 119),
        120u8 => insertps(a, b, 120),
        121u8 => insertps(a, b, 121),
        122u8 => insertps(a, b, 122),
        123u8 => insertps(a, b, 123),
        124u8 => insertps(a, b, 124),
        125u8 => insertps(a, b, 125),
        126u8 => insertps(a, b, 126),
        127u8 => insertps(a, b, 127),
        128u8 => insertps(a, b, 128),
        129u8 => insertps(a, b, 129),
        130u8 => insertps(a, b, 130),
        131u8 => insertps(a, b, 131),
        132u8 => insertps(a, b, 132),
        133u8 => insertps(a, b, 133),
        134u8 => insertps(a, b, 134),
        135u8 => insertps(a, b, 135),
        136u8 => insertps(a, b, 136),
        137u8 => insertps(a, b, 137),
        138u8 => insertps(a, b, 138),
        139u8 => insertps(a, b, 139),
        140u8 => insertps(a, b, 140),
        141u8 => insertps(a, b, 141),
        142u8 => insertps(a, b, 142),
        143u8 => insertps(a, b, 143),
        144u8 => insertps(a, b, 144),
        145u8 => insertps(a, b, 145),
        146u8 => insertps(a, b, 146),
        147u8 => insertps(a, b, 147),
        148u8 => insertps(a, b, 148),
        149u8 => insertps(a, b, 149),
        150u8 => insertps(a, b, 150),
        151u8 => insertps(a, b, 151),
        152u8 => insertps(a, b, 152),
        153u8 => insertps(a, b, 153),
        154u8 => insertps(a, b, 154),
        155u8 => insertps(a, b, 155),
        156u8 => insertps(a, b, 156),
        157u8 => insertps(a, b, 157),
        158u8 => insertps(a, b, 158),
        159u8 => insertps(a, b, 159),
        160u8 => insertps(a, b, 160),
        161u8 => insertps(a, b, 161),
        162u8 => insertps(a, b, 162),
        163u8 => insertps(a, b, 163),
        164u8 => insertps(a, b, 164),
        165u8 => insertps(a, b, 165),
        166u8 => insertps(a, b, 166),
        167u8 => insertps(a, b, 167),
        168u8 => insertps(a, b, 168),
        169u8 => insertps(a, b, 169),
        170u8 => insertps(a, b, 170),
        171u8 => insertps(a, b, 171),
        172u8 => insertps(a, b, 172),
        173u8 => insertps(a, b, 173),
        174u8 => insertps(a, b, 174),
        175u8 => insertps(a, b, 175),
        176u8 => insertps(a, b, 176),
        177u8 => insertps(a, b, 177),
        178u8 => insertps(a, b, 178),
        179u8 => insertps(a, b, 179),
        180u8 => insertps(a, b, 180),
        181u8 => insertps(a, b, 181),
        182u8 => insertps(a, b, 182),
        183u8 => insertps(a, b, 183),
        184u8 => insertps(a, b, 184),
        185u8 => insertps(a, b, 185),
        186u8 => insertps(a, b, 186),
        187u8 => insertps(a, b, 187),
        188u8 => insertps(a, b, 188),
        189u8 => insertps(a, b, 189),
        190u8 => insertps(a, b, 190),
        191u8 => insertps(a, b, 191),
        192u8 => insertps(a, b, 192),
        193u8 => insertps(a, b, 193),
        194u8 => insertps(a, b, 194),
        195u8 => insertps(a, b, 195),
        196u8 => insertps(a, b, 196),
        197u8 => insertps(a, b, 197),
        198u8 => insertps(a, b, 198),
        199u8 => insertps(a, b, 199),
        200u8 => insertps(a, b, 200),
        201u8 => insertps(a, b, 201),
        202u8 => insertps(a, b, 202),
        203u8 => insertps(a, b, 203),
        204u8 => insertps(a, b, 204),
        205u8 => insertps(a, b, 205),
        206u8 => insertps(a, b, 206),
        207u8 => insertps(a, b, 207),
        208u8 => insertps(a, b, 208),
        209u8 => insertps(a, b, 209),
        210u8 => insertps(a, b, 210),
        211u8 => insertps(a, b, 211),
        212u8 => insertps(a, b, 212),
        213u8 => insertps(a, b, 213),
        214u8 => insertps(a, b, 214),
        215u8 => insertps(a, b, 215),
        216u8 => insertps(a, b, 216),
        217u8 => insertps(a, b, 217),
        218u8 => insertps(a, b, 218),
        219u8 => insertps(a, b, 219),
        220u8 => insertps(a, b, 220),
        221u8 => insertps(a, b, 221),
        222u8 => insertps(a, b, 222),
        223u8 => insertps(a, b, 223),
        224u8 => insertps(a, b, 224),
        225u8 => insertps(a, b, 225),
        226u8 => insertps(a, b, 226),
        227u8 => insertps(a, b, 227),
        228u8 => insertps(a, b, 228),
        229u8 => insertps(a, b, 229),
        230u8 => insertps(a, b, 230),
        231u8 => insertps(a, b, 231),
        232u8 => insertps(a, b, 232),
        233u8 => insertps(a, b, 233),
        234u8 => insertps(a, b, 234),
        235u8 => insertps(a, b, 235),
        236u8 => insertps(a, b, 236),
        237u8 => insertps(a, b, 237),
        238u8 => insertps(a, b, 238),
        239u8 => insertps(a, b, 239),
        240u8 => insertps(a, b, 240),
        241u8 => insertps(a, b, 241),
        242u8 => insertps(a, b, 242),
        243u8 => insertps(a, b, 243),
        244u8 => insertps(a, b, 244),
        245u8 => insertps(a, b, 245),
        246u8 => insertps(a, b, 246),
        247u8 => insertps(a, b, 247),
        248u8 => insertps(a, b, 248),
        249u8 => insertps(a, b, 249),
        250u8 => insertps(a, b, 250),
        251u8 => insertps(a, b, 251),
        252u8 => insertps(a, b, 252),
        253u8 => insertps(a, b, 253),
        254u8 => insertps(a, b, 254),
        255u8 => insertps(a, b, 255),
    }
}

/// Returns a copy of `a` with the 8-bit integer `i` inserted at lane
/// `imm8 & 15`.
pub fn _mm_insert_epi8(a: I8x16, i: i8, imm8: u8) -> (r: I8x16)
    ensures
        r@ == a@.update((imm8 & 15) as int, i),
{
    proof {
        assert(imm8 & 15 < 16) by (bit_vector);
    }
    a.replace((imm8 & 15) as u32, i)
}

/// Returns a copy of `a` with the 32-bit integer `i` inserted at lane
/// `imm8 & 3`.
pub fn _mm_insert_epi32(a: I32x4, i: i32, imm8: u8) -> (r: I32x4)
    ensures
        r@ == a@.update((imm8 & 3) as int, i),
{
    proof {
        assert(imm8 & 3 < 4) by (bit_vector);
    }
    a.replace((imm8 & 3) as u32, i)
}

} // verus!
