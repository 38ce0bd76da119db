use sse41::insert_extract::_mm_extract_epi32;
use sse41::insert_extract::_mm_extract_epi8;
use sse41::insert_extract::_mm_extract_ps;
use sse41::insert_extract::_mm_insert_epi32;
use sse41::insert_extract::_mm_insert_epi8;
use sse41::insert_extract::_mm_insert_ps;
use sse41::registers::F32x4Bits;
use sse41::registers::I32x4;
use sse41::registers::I8x16;

fn f32x4(a: [f32; 4]) -> F32x4Bits {
    F32x4Bits::from_lanes([a[0].to_bits(), a[1].to_bits(), a[2].to_bits(), a[3].to_bits()])
}

fn f32x4_vals(r: F32x4Bits) -> [f32; 4] {
    [
        f32::from_bits(r.lanes[0]),
        f32::from_bits(r.lanes[1]),
        f32::from_bits(r.lanes[2]),
        f32::from_bits(r.lanes[3]),
    ]
}

#[test]
fn extract_ps() {
    let a = f32x4([0.0, 1.0, 2.0, 3.0]);
    let r: f32 = f32::from_bits(_mm_extract_ps(a, 1) as u32);
    assert_eq!(r, 1.0);
    let r: f32 = f32::from_bits(_mm_extract_ps(a, 5) as u32);
    assert_eq!(r, 1.0);
}

#[test]
fn extract_epi8() {
    let a = I8x16::from_lanes([-1, 1, 2, 3, 4, 5, 6, 7, 8, 9, 10, 11, 12, 13, 14, 15]);
    let r1 = _mm_extract_epi8(a, 0);
    let r2 = _mm_extract_epi8(a, 19);
    assert_eq!(r1, 0xFF);
    assert_eq!(r2, 3);
    // A negative immediate wraps like any other out-of-range one.
    assert_eq!(_mm_extract_epi8(a, -1), 15);
}

#[test]
fn extract_epi32() {
    let a = I32x4::from_lanes([0, 1, 2, 3]);
    let r = _mm_extract_epi32(a, 1);
    assert_eq!(r, 1);
    let r = _mm_extract_epi32(a, 5);
    assert_eq!(r, 1);
}

#[test]
fn insert_ps() {
    let a = f32x4([1.0, 1.0, 1.0, 1.0]);
    let b = f32x4([1.0, 2.0, 3.0, 4.0]);
    let r = _mm_insert_ps(a, b, 0b11_00_1100);
    assert_eq!(f32x4_vals(r), [4.0, 1.0, 0.0, 0.0]);
}

// Exhaustive coverage: every 8-bit immediate of the float insertion
// matches the documented decode of its three sub-fields.
#[test]
fn insert_ps_all_immediates() {
    let av = [10.0f32, 11.0, 12.0, 13.0];
    let bv = [20.0f32, 21.0, 22.0, 23.0];
    let a = f32x4(av);
    let b = f32x4(bv);
    for imm in 0..=255u8 {
        let r = _mm_insert_ps(a, b, imm);
        let src = bv[((imm >> 6) & 3) as usize];
        let dst = ((imm >> 4) & 3) as usize;
        let mut e = av;
        e[dst] = src;
        for k in 0..4 {
            if (imm >> k) & 1 == 1 {
                e[k] = 0.0;
            }
        }
        assert_eq!(f32x4_vals(r), e);
    }
}

#[test]
fn insert_epi8() {
    let a = I8x16::splat(0);
    let e = I8x16::splat(0).replace(1, 32);
    let r = _mm_insert_epi8(a, 32, 1);
    assert_eq!(r, e);
    let r = _mm_insert_epi8(a, 32, 17);
    assert_eq!(r, e);
}

#[test]
fn insert_epi32() {
    let a = I32x4::splat(0);
    let e = I32x4::splat(0).replace(1, 32);
    let r = _mm_insert_epi32(a, 32, 1);
    assert_eq!(r, e);
    let r = _mm_insert_epi32(a, 32, 5);
    assert_eq!(r, e);
}
