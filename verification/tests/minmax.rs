use sse41::minmax::_mm_max_epi32;
use sse41::minmax::_mm_max_epi8;
use sse41::minmax::_mm_max_epu16;
use sse41::minmax::_mm_max_epu32;
use sse41::minmax::_mm_min_epi32;
use sse41::minmax::_mm_min_epi8;
use sse41::minmax::_mm_min_epu16;
use sse41::minmax::_mm_min_epu32;
use sse41::registers::I32x4;
use sse41::registers::I8x16;
use sse41::registers::U16x8;
use sse41::registers::U32x4;

#[test]
fn max_epi8() {
    let a = I8x16::from_lanes([1, 4, 5, 8, 9, 12, 13, 16, 17, 20, 21, 24, 25, 28, 29, 32]);
    let b = I8x16::from_lanes([2, 3, 6, 7, 10, 11, 14, 15, 18, 19, 22, 23, 26, 27, 30, 31]);
    let r = _mm_max_epi8(a, b);
    let e = I8x16::from_lanes([2, 4, 6, 8, 10, 12, 14, 16, 18, 20, 22, 24, 26, 28, 30, 32]);
    assert_eq!(r, e);
}

#[test]
fn max_epu16() {
    let a = U16x8::from_lanes([1, 4, 5, 8, 9, 12, 13, 16]);
    let b = U16x8::from_lanes([2, 3, 6, 7, 10, 11, 14, 15]);
    let r = _mm_max_epu16(a, b);
    let e = U16x8::from_lanes([2, 4, 6, 8, 10, 12, 14, 16]);
    assert_eq!(r, e);
}

#[test]
fn max_epi32() {
    let a = I32x4::from_lanes([1, 4, 5, 8]);
    let b = I32x4::from_lanes([2, 3, 6, 7]);
    let r = _mm_max_epi32(a, b);
    let e = I32x4::from_lanes([2, 4, 6, 8]);
    assert_eq!(r, e);
}

#[test]
fn max_epu32() {
    let a = U32x4::from_lanes([1, 4, 5, 8]);
    let b = U32x4::from_lanes([2, 3, 6, 7]);
    let r = _mm_max_epu32(a, b);
    let e = U32x4::from_lanes([2, 4, 6, 8]);
    assert_eq!(r, e);
}

#[test]
fn min_epi8_1() {
    let a = I8x16::from_lanes([1, 4, 5, 8, 9, 12, 13, 16, 17, 20, 21, 24, 25, 28, 29, 32]);
    let b = I8x16::from_lanes([2, 3, 6, 7, 10, 11, 14, 15, 18, 19, 22, 23, 26, 27, 30, 31]);
    let r = _mm_min_epi8(a, b);
    let e = I8x16::from_lanes([1, 3, 5, 7, 9, 11, 13, 15, 17, 19, 21, 23, 25, 27, 29, 31]);
    assert_eq!(r, e);
}

// Signed minimum with negative lanes mixed in.
#[test]
fn min_epi8_2() {
    let a = I8x16::from_lanes([1, -4, -5, 8, -9, -12, 13, -16, 17, 20, 21, 24, 25, 28, 29, 32]);
    let b = I8x16::from_lanes([2, -3, -6, 7, -10, -11, 14, -15, 18, 19, 22, 23, 26, 27, 30, 31]);
    let r = _mm_min_epi8(a, b);
    let e = I8x16::from_lanes([1, -4, -6, 7, -10, -12, 13, -16, 17, 19, 21, 23, 25, 27, 29, 31]);
    assert_eq!(r, e);
}

#[test]
fn min_epu16() {
    let a = U16x8::from_lanes([1, 4, 5, 8, 9, 12, 13, 16]);
    let b = U16x8::from_lanes([2, 3, 6, 7, 10, 11, 14, 15]);
    let r = _mm_min_epu16(a, b);
    let e = U16x8::from_lanes([1, 3, 5, 7, 9, 11, 13, 15]);
    assert_eq!(r, e);
}

#[test]
fn min_epi32_1() {
    let a = I32x4::from_lanes([1, 4, 5, 8]);
    let b = I32x4::from_lanes([2, 3, 6, 7]);
    let r = _mm_min_epi32(a, b);
    let e = I32x4::from_lanes([1, 3, 5, 7]);
    assert_eq!(r, e);
}

#[test]
fn min_epi32_2() {
    let a = I32x4::from_lanes([-1, 4, 5, -7]);
    let b = I32x4::from_lanes([-2, 3, -6, 8]);
    let r = _mm_min_epi32(a, b);
    let e = I32x4::from_lanes([-2, 3, -6, -7]);
    assert_eq!(r, e);
}

#[test]
fn min_epu32() {
    let a = U32x4::from_lanes([1, 4, 5, 8]);
    let b = U32x4::from_lanes([2, 3, 6, 7]);
    let r = _mm_min_epu32(a, b);
    let e = U32x4::from_lanes([1, 3, 5, 7]);
    assert_eq!(r, e);
}

// Unsigned comparison treats the all-bits-set lane as the largest value.
#[test]
fn min_max_unsigned_edges() {
    let a = U32x4::from_lanes([0xFFFF_FFFF, 0, 0x8000_0000, 7]);
    let b = U32x4::from_lanes([1, 0xFFFF_FFFF, 0x7FFF_FFFF, 7]);
    assert_eq!(_mm_min_epu32(a, b), U32x4::from_lanes([1, 0, 0x7FFF_FFFF, 7]));
    assert_eq!(
        _mm_max_epu32(a, b),
        U32x4::from_lanes([0xFFFF_FFFF, 0xFFFF_FFFF, 0x8000_0000, 7])
    );
}
