use sse41::blend::_mm_blend_epi16;
use sse41::blend::_mm_blend_pd;
use sse41::blend::_mm_blend_ps;
use sse41::blend::_mm_blendv_epi8;
use sse41::blend::_mm_blendv_pd;
use sse41::blend::_mm_blendv_ps;
use sse41::registers::F32x4Bits;
use sse41::registers::F64x2Bits;
use sse41::registers::I16x8;
use sse41::registers::I32x4;
use sse41::registers::I64x2;
use sse41::registers::I8x16;

fn f64x2(a: [f64; 2]) -> F64x2Bits {
    F64x2Bits::from_lanes([a[0].to_bits(), a[1].to_bits()])
}

fn f64x2_vals(r: F64x2Bits) -> [f64; 2] {
    [f64::from_bits(r.lanes[0]), f64::from_bits(r.lanes[1])]
}

fn f32x4(a: [f32; 4]) -> F32x4Bits {
    F32x4Bits::from_lanes([a[0].to_bits(), a[1].to_bits(), a[2].to_bits(), a[3].to_bits()])
}

fn f32x4_vals(r: F32x4Bits) -> [f32; 4] {
    [
        f32::from_bits(r.lanes[0]),
        f32::from_bits(r.lanes[1]),
        f32::from_bits(r.lanes[2]),
        f32::from_bits(r.lanes[3]),
    ]
}

#[test]
fn blendv_epi8() {
    let a = I8x16::from_lanes([0, 1, 2, 3, 4, 5, 6, 7, 8, 9, 10, 11, 12, 13, 14, 15]);
    let b = I8x16::from_lanes([16, 17, 18, 19, 20, 21, 22, 23, 24, 25, 26, 27, 28, 29, 30, 31]);
    let mask = I8x16::from_lanes([0, -1, 0, -1, 0, -1, 0, -1, 0, -1, 0, -1, 0, -1, 0, -1]);
    let e = I8x16::from_lanes([0, 17, 2, 19, 4, 21, 6, 23, 8, 25, 10, 27, 12, 29, 14, 31]);
    assert_eq!(_mm_blendv_epi8(a, b, mask), e);
}

#[test]
fn blendv_pd() {
    let a = f64x2([0.0, 0.0]);
    let b = f64x2([1.0, 1.0]);
    let mask = F64x2Bits::from_bits(I64x2::from_lanes([0, -1]).to_bits());
    let r = _mm_blendv_pd(a, b, mask);
    assert_eq!(f64x2_vals(r), [0.0, 1.0]);
}

#[test]
fn blendv_ps() {
    let a = f32x4([0.0, 0.0, 0.0, 0.0]);
    let b = f32x4([1.0, 1.0, 1.0, 1.0]);
    let mask = F32x4Bits::from_bits(I32x4::from_lanes([0, -1, 0, -1]).to_bits());
    let r = _mm_blendv_ps(a, b, mask);
    assert_eq!(f32x4_vals(r), [0.0, 1.0, 0.0, 1.0]);
}

#[test]
fn blend_pd() {
    let a = f64x2([0.0, 0.0]);
    let b = f64x2([1.0, 1.0]);
    let r = _mm_blend_pd(a, b, 0b10);
    assert_eq!(f64x2_vals(r), [0.0, 1.0]);
}

#[test]
fn blend_ps() {
    let a = f32x4([0.0, 0.0, 0.0, 0.0]);
    let b = f32x4([1.0, 1.0, 1.0, 1.0]);
    let r = _mm_blend_ps(a, b, 0b1010);
    assert_eq!(f32x4_vals(r), [0.0, 1.0, 0.0, 1.0]);
}

#[test]
fn blend_epi16() {
    let a = I16x8::splat(0);
    let b = I16x8::splat(1);
    let r = _mm_blend_epi16(a, b, 0b1010_1100);
    let e = I16x8::from_lanes([0, 0, 1, 1, 0, 1, 0, 1]);
    assert_eq!(r, e);
}

// Exhaustive coverage: every 8-bit immediate value reaches its own branch
// and matches the documented per-bit selection.
#[test]
fn blend_epi16_all_immediates() {
    let a = I16x8::from_lanes([10, 11, 12, 13, 14, 15, 16, 17]);
    let b = I16x8::from_lanes([-1, -2, -3, -4, -5, -6, -7, -8]);
    for imm in 0..=255u8 {
        let r = _mm_blend_epi16(a, b, imm);
        let mut e = [0i16; 8];
        for k in 0..8 {
            e[k] = if (imm >> k) & 1 == 1 { b.lanes[k] } else { a.lanes[k] };
        }
        assert_eq!(r.lanes, e);
    }
}

// Exhaustive coverage of the 2-bit and 4-bit immediate blends, and masking
// idempotence: a value and the same value plus a multiple of the width's
// power of two blend identically.
#[test]
fn blend_pd_ps_all_immediates() {
    let a2 = f64x2([1.5, -2.5]);
    let b2 = f64x2([8.0, 16.0]);
    for imm in 0..=3u8 {
        let r = _mm_blend_pd(a2, b2, imm);
        let e = [
            if imm & 1 == 1 { 8.0 } else { 1.5 },
            if (imm >> 1) & 1 == 1 { 16.0 } else { -2.5 },
        ];
        assert_eq!(f64x2_vals(r), e);
        assert_eq!(r, _mm_blend_pd(a2, b2, imm.wrapping_add(4 * 7)));
    }
    let a4 = f32x4([1.0, 2.0, 3.0, 4.0]);
    let b4 = f32x4([-1.0, -2.0, -3.0, -4.0]);
    for imm in 0..=15u8 {
        let r = _mm_blend_ps(a4, b4, imm);
        let mut e = [0.0f32; 4];
        for k in 0..4 {
            e[k] = if (imm >> k) & 1 == 1 { [-1.0f32, -2.0, -3.0, -4.0][k] } else { [1.0f32, 2.0, 3.0, 4.0][k] };
        }
        assert_eq!(f32x4_vals(r), e);
        assert_eq!(r, _mm_blend_ps(a4, b4, imm.wrapping_add(16 * 9)));
    }
}
