use sse41::convert::_mm_cvtepi16_epi32;
use sse41::convert::_mm_cvtepi16_epi64;
use sse41::convert::_mm_cvtepi32_epi64;
use sse41::convert::_mm_cvtepi8_epi16;
use sse41::convert::_mm_cvtepi8_epi32;
use sse41::convert::_mm_cvtepi8_epi64;
use sse41::convert::_mm_cvtepu16_epi32;
use sse41::convert::_mm_cvtepu16_epi64;
use sse41::convert::_mm_cvtepu32_epi64;
use sse41::convert::_mm_cvtepu8_epi16;
use sse41::convert::_mm_cvtepu8_epi32;
use sse41::convert::_mm_cvtepu8_epi64;
use sse41::convert::_mm_packus_epi32;
use sse41::registers::I16x8;
use sse41::registers::I32x4;
use sse41::registers::I64x2;
use sse41::registers::I8x16;
use sse41::registers::U16x8;
use sse41::registers::U32x4;
use sse41::registers::U8x16;

#[test]
fn packus_epi32() {
    let a = I32x4::from_lanes([1, 2, 3, 4]);
    let b = I32x4::from_lanes([-1, -2, -3, -4]);
    let r = _mm_packus_epi32(a, b);
    let e = U16x8::from_lanes([1, 2, 3, 4, 0, 0, 0, 0]);
    assert_eq!(r, e);
}

// Values above the unsigned 16-bit range clamp to 0xFFFF, not wrap.
#[test]
fn packus_epi32_saturates_high() {
    let a = I32x4::from_lanes([0x10000, 0xFFFF, i32::MAX, 0]);
    let b = I32x4::from_lanes([i32::MIN, -1, 65536, 65535]);
    let r = _mm_packus_epi32(a, b);
    let e = U16x8::from_lanes([0xFFFF, 0xFFFF, 0xFFFF, 0, 0, 0, 0xFFFF, 0xFFFF]);
    assert_eq!(r, e);
}

#[test]
fn cvtepi8_epi16() {
    let a = I8x16::splat(10);
    assert_eq!(_mm_cvtepi8_epi16(a), I16x8::splat(10));
    let a = I8x16::splat(-10);
    assert_eq!(_mm_cvtepi8_epi16(a), I16x8::splat(-10));
}

#[test]
fn cvtepi8_epi32() {
    let a = I8x16::splat(10);
    assert_eq!(_mm_cvtepi8_epi32(a), I32x4::splat(10));
    let a = I8x16::splat(-10);
    assert_eq!(_mm_cvtepi8_epi32(a), I32x4::splat(-10));
}

#[test]
fn cvtepi8_epi64() {
    let a = I8x16::splat(10);
    assert_eq!(_mm_cvtepi8_epi64(a), I64x2::splat(10));
    let a = I8x16::splat(-10);
    assert_eq!(_mm_cvtepi8_epi64(a), I64x2::splat(-10));
}

#[test]
fn cvtepi16_epi32() {
    let a = I16x8::splat(10);
    assert_eq!(_mm_cvtepi16_epi32(a), I32x4::splat(10));
    let a = I16x8::splat(-10);
    assert_eq!(_mm_cvtepi16_epi32(a), I32x4::splat(-10));
}

#[test]
fn cvtepi16_epi64() {
    let a = I16x8::splat(10);
    assert_eq!(_mm_cvtepi16_epi64(a), I64x2::splat(10));
    let a = I16x8::splat(-10);
    assert_eq!(_mm_cvtepi16_epi64(a), I64x2::splat(-10));
}

#[test]
fn cvtepi32_epi64() {
    let a = I32x4::splat(10);
    assert_eq!(_mm_cvtepi32_epi64(a), I64x2::splat(10));
    let a = I32x4::splat(-10);
    assert_eq!(_mm_cvtepi32_epi64(a), I64x2::splat(-10));
}

// Zero-extending unsigned 8-bit lanes all equal to 10 into 32-bit lanes
// yields 4 lanes each equal to 10, reading only the first 4 source lanes.
#[test]
fn cvtepu8_epi32() {
    let a = U8x16::splat(10);
    assert_eq!(_mm_cvtepu8_epi32(a), I32x4::splat(10));
    // Lanes past the consumed prefix do not matter.
    let mut lanes = [0xFFu8; 16];
    lanes[0] = 10;
    lanes[1] = 10;
    lanes[2] = 10;
    lanes[3] = 10;
    let a = U8x16::from_lanes(lanes);
    assert_eq!(_mm_cvtepu8_epi32(a), I32x4::splat(10));
}

#[test]
fn cvtepu8_epi16() {
    let a = U8x16::splat(10);
    assert_eq!(_mm_cvtepu8_epi16(a), I16x8::splat(10));
    // A high unsigned lane zero-extends, it never sign-extends.
    let a = U8x16::splat(0xFF);
    assert_eq!(_mm_cvtepu8_epi16(a), I16x8::splat(255));
}

#[test]
fn cvtepu8_epi64() {
    let a = U8x16::splat(10);
    assert_eq!(_mm_cvtepu8_epi64(a), I64x2::splat(10));
}

#[test]
fn cvtepu16_epi32() {
    let a = U16x8::splat(10);
    assert_eq!(_mm_cvtepu16_epi32(a), I32x4::splat(10));
    let a = U16x8::splat(0xFFFF);
    assert_eq!(_mm_cvtepu16_epi32(a), I32x4::splat(65535));
}

#[test]
fn cvtepu16_epi64() {
    let a = U16x8::splat(10);
    assert_eq!(_mm_cvtepu16_epi64(a), I64x2::splat(10));
}

#[test]
fn cvtepu32_epi64() {
    let a = U32x4::splat(10);
    assert_eq!(_mm_cvtepu32_epi64(a), I64x2::splat(10));
    let a = U32x4::splat(0xFFFF_FFFF);
    assert_eq!(_mm_cvtepu32_epi64(a), I64x2::splat(4294967295));
}
