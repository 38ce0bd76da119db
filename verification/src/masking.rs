//! Masking idempotence of the immediate specializer.
//!
//! Every binding that takes an immediate reads only its low `k` bits, so
//! two immediates that are congruent modulo `2^k` — for instance a value
//! `v` and `v + 2^k * m` for any `m` — select the same specialization and
//! yield identical results.  Each lemma below states this for one binding,
//! over the same spec functions that the binding's contract uses.

use vstd::prelude::*;

use crate::blend::spec_blend_bits32;
use crate::blend::spec_blend_bits64;
use crate::blend::spec_blend_epi16;
use crate::insert_extract::spec_insert_ps;
use crate::rounding::spec_rounding_suppresses;
use crate::rounding::spec_rounding_target;
use crate::sad::spec_mpsadbw;

verus! {

/// The 16-bit blend reads its whole 8-bit immediate: two immediates that
/// are congruent modulo 256 yield identical results.
pub proof fn lemma_blend_epi16_masking(a: Seq<i16>, b: Seq<i16>, v: u8, w: u8)
    requires
        v as int % 256 == w as int % 256,
    ensures
        spec_blend_epi16(a, b, v) == spec_blend_epi16(a, b, w),
{
    assert(v as int % 256 == v as int);
    assert(w as int % 256 == w as int);
}

/// The 64-bit lane blend reads only the low 2 bits of its immediate: two
/// immediates that are congruent modulo 4 yield identical results.
pub proof fn lemma_blend_pd_masking(a: Seq<u64>, b: Seq<u64>, v: u8, w: u8)
    requires
        v as int % 4 == w as int % 4,
    ensures
        spec_blend_bits64(a, b, v & 3) == spec_blend_bits64(a, b, w & 3),
{
    assert(v & 3 == w & 3) by (bit_vector)
        requires
            v % 4 == w % 4,
    ;
}

/// The 32-bit lane blend reads only the low 4 bits of its immediate: two
/// immediates that are congruent modulo 16 yield identical results.
pub proof fn lemma_blend_ps_masking(a: Seq<u32>, b: Seq<u32>, v: u8, w: u8)
    requires
        v as int % 16 == w as int % 16,
    ensures
        spec_blend_bits32(a, b, v & 15) == spec_blend_bits32(a, b, w & 15),
{
    assert(v & 15 == w & 15) by (bit_vector)
        requires
            v % 16 == w % 16,
    ;
}

/// The windowed sum of absolute differences reads only the low 3 bits of
/// its immediate: two immediates that are congruent modulo 8 yield
/// identical results.
pub proof fn lemma_mpsadbw_masking(a: Seq<u8>, b: Seq<u8>, v: u8, w: u8)
    requires
        v as int % 8 == w as int % 8,
    ensures
        spec_mpsadbw(a, b, v & 7) == spec_mpsadbw(a, b, w & 7),
{
    assert(v & 7 == w & 7) by (bit_vector)
        requires
            v % 8 == w % 8,
    ;
}

/// The float lane insertion reads its whole 8-bit immediate: two
/// immediates that are congruent modulo 256 yield identical results.
pub proof fn lemma_insert_ps_masking(a: Seq<u32>, b: Seq<u32>, v: u8, w: u8)
    requires
        v as int % 256 == w as int % 256,
    ensures
        spec_insert_ps(a, b, v) == spec_insert_ps(a, b, w),
{
    assert(v as int % 256 == v as int);
    assert(w as int % 256 == w as int);
}

/// The float lane extraction reads only the low 2 bits of its immediate:
/// two immediates that are congruent modulo 4 read the same lane.
pub proof fn lemma_extract_ps_masking(a: Seq<u32>, v: u8, w: u8)
    requires
        v as int % 4 == w as int % 4,
    ensures
        a[(v & 3) as int] == a[(w & 3) as int],
{
    assert(v & 3 == w & 3) by (bit_vector)
        requires
            v % 4 == w % 4,
    ;
}

/// The 8-bit lane extraction reads only the low 4 bits of its immediate:
/// two immediates that are congruent modulo 16 read the same lane.
pub proof fn lemma_extract_epi8_masking(a: Seq<i8>, v: i32, w: i32)
    requires
        v as int % 16 == w as int % 16,
    ensures
        a[(v & 15) as int] == a[(w & 15) as int],
{
    assert(v & 15 == w & 15) by (bit_vector)
        requires
            v % 16 == w % 16,
    ;
}

/// The 32-bit lane extraction reads only the low 2 bits of its immediate:
/// two immediates that are congruent modulo 4 read the same lane.
pub proof fn lemma_extract_epi32_masking(a: Seq<i32>, v: i32, w: i32)
    requires
        v as int % 4 == w as int % 4,
    ensures
        a[(v & 3) as int] == a[(w & 3) as int],
{
    assert(v & 3 == w & 3) by (bit_vector)
        requires
            v % 4 == w % 4,
    ;
}

/// The 8-bit lane insertion reads only the low 4 bits of its immediate:
/// two immediates that are congruent modulo 16 write the same lane.
pub proof fn lemma_insert_epi8_masking(a: Seq<i8>, x: i8, v: u8, w: u8)
    requires
        v as int % 16 == w as int % 16,
    ensures
        a.update((v & 15) as int, x) == a.update((w & 15) as int, x),
{
    assert(v & 15 == w & 15) by (bit_vector)
        requires
            v % 16 == w % 16,
    ;
}

/// The 32-bit lane insertion reads only the low 2 bits of its immediate:
/// two immediates that are congruent modulo 4 write the same lane.
pub proof fn lemma_insert_epi32_masking(a: Seq<i32>, x: i32, v: u8, w: u8)
    requires
        v as int % 4 == w as int % 4,
    ensures
        a.update((v & 3) as int, x) == a.update((w & 3) as int, x),
{
    assert(v & 3 == w & 3) by (bit_vector)
        requires
            v % 4 == w % 4,
    ;
}

/// The rounding decoder reads only the low 4 bits of its directive: two
/// directives that are congruent modulo 16 decode alike.
pub proof fn lemma_rounding_masking(v: i32, w: i32)
    requires
        v as int % 16 == w as int % 16,
    ensures
        spec_rounding_target(v) == spec_rounding_target(w),
        spec_rounding_suppresses(v) == spec_rounding_suppresses(w),
{
}

} // verus!
