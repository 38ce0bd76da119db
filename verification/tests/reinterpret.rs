use sse41::registers::F32x4Bits;
use sse41::registers::F64x2Bits;
use sse41::registers::I16x8;
use sse41::registers::I32x4;
use sse41::registers::I64x2;
use sse41::registers::I8x16;
use sse41::registers::U16x8;
use sse41::registers::U32x4;
use sse41::registers::U64x2;
use sse41::registers::U8x16;

// Reinterpreting a register from one view to another and back reproduces
// the original lanes exactly, for every view of the catalog.
#[test]
fn roundtrip_through_bytes_view() {
    let a = I8x16::from_lanes([-1, 2, -3, 4, -5, 6, -7, 8, -9, 10, -11, 12, -13, 14, -15, 16]);
    assert_eq!(I8x16::from_bits(U64x2::from_bits(a.to_bits()).to_bits()), a);

    let a = U8x16::from_lanes([0, 1, 2, 3, 255, 254, 253, 252, 8, 9, 10, 11, 128, 127, 126, 125]);
    assert_eq!(U8x16::from_bits(I32x4::from_bits(a.to_bits()).to_bits()), a);

    let a = I16x8::from_lanes([-32768, 32767, 0, -1, 256, -256, 1000, -1000]);
    assert_eq!(I16x8::from_bits(U8x16::from_bits(a.to_bits()).to_bits()), a);

    let a = U16x8::from_lanes([0, 0xFFFF, 0x8000, 0x7FFF, 1, 2, 3, 4]);
    assert_eq!(U16x8::from_bits(I64x2::from_bits(a.to_bits()).to_bits()), a);

    let a = I32x4::from_lanes([i32::MIN, i32::MAX, -1, 7]);
    assert_eq!(I32x4::from_bits(U16x8::from_bits(a.to_bits()).to_bits()), a);

    let a = U32x4::from_lanes([0, u32::MAX, 0x8000_0000, 0x1234_5678]);
    assert_eq!(U32x4::from_bits(I8x16::from_bits(a.to_bits()).to_bits()), a);

    let a = I64x2::from_lanes([i64::MIN, i64::MAX]);
    assert_eq!(I64x2::from_bits(U32x4::from_bits(a.to_bits()).to_bits()), a);

    let a = U64x2::from_lanes([0xDEAD_BEEF_0123_4567, u64::MAX]);
    assert_eq!(U64x2::from_bits(I16x8::from_bits(a.to_bits()).to_bits()), a);

    let a = F32x4Bits::from_lanes([1.5f32.to_bits(), (-0.0f32).to_bits(), f32::NAN.to_bits(), 0]);
    assert_eq!(F32x4Bits::from_bits(I64x2::from_bits(a.to_bits()).to_bits()), a);

    let a = F64x2Bits::from_lanes([(-2.25f64).to_bits(), f64::INFINITY.to_bits()]);
    assert_eq!(F64x2Bits::from_bits(U8x16::from_bits(a.to_bits()).to_bits()), a);
}

// Regrouping four 32-bit lanes as two 64-bit lanes keeps the bit pattern:
// the low 32-bit lane lands in the low half of the 64-bit lane.
#[test]
fn reinterpret_regroups_bits_little_endian() {
    let a = I32x4::from_lanes([1, 0, -1, 0]);
    let r = I64x2::from_bits(a.to_bits());
    assert_eq!(r, I64x2::from_lanes([1, 0xFFFF_FFFF]));

    let a = U16x8::from_lanes([0x0201, 0x0403, 0, 0, 0, 0, 0, 0]);
    let r = U8x16::from_bits(a.to_bits());
    assert_eq!(
        r,
        U8x16::from_lanes([1, 2, 3, 4, 0, 0, 0, 0, 0, 0, 0, 0, 0, 0, 0, 0])
    );
}

// Lane reads and writes wrap their index by the lane count.
#[test]
fn extract_replace_wrap_indices() {
    let a = U16x8::from_lanes([10, 20, 30, 40, 50, 60, 70, 80]);
    assert_eq!(a.extract(2), 30);
    assert_eq!(a.extract(10), 30);
    let b = a.replace(9, 99);
    assert_eq!(b, U16x8::from_lanes([10, 99, 30, 40, 50, 60, 70, 80]));
}

// Lane-wise equality yields an all-bits-set mask lane on equal pairs and
// an all-bits-clear one otherwise, on every integer view.
#[test]
fn eq_lanes_masks() {
    let a = I8x16::from_lanes([1, 2, 3, 4, 5, 6, 7, 8, 9, 10, 11, 12, 13, 14, 15, 16]);
    let b = I8x16::from_lanes([1, 0, 3, 0, 5, 0, 7, 0, 9, 0, 11, 0, 13, 0, 15, 0]);
    let e = I8x16::from_lanes([-1, 0, -1, 0, -1, 0, -1, 0, -1, 0, -1, 0, -1, 0, -1, 0]);
    assert_eq!(a.eq_lanes(b), e);

    let a = U16x8::from_lanes([0, 1, 2, 3, 4, 5, 6, 7]);
    let b = U16x8::from_lanes([0, 9, 2, 9, 4, 9, 6, 9]);
    let e = U16x8::from_lanes([0xFFFF, 0, 0xFFFF, 0, 0xFFFF, 0, 0xFFFF, 0]);
    assert_eq!(a.eq_lanes(b), e);

    let a = U32x4::from_lanes([7, 8, 9, 10]);
    let b = U32x4::from_lanes([7, 7, 9, 9]);
    let e = U32x4::from_lanes([0xFFFF_FFFF, 0, 0xFFFF_FFFF, 0]);
    assert_eq!(a.eq_lanes(b), e);

    let a = U64x2::from_lanes([5, 6]);
    let b = U64x2::from_lanes([5, 7]);
    assert_eq!(a.eq_lanes(b), U64x2::from_lanes([u64::MAX, 0]));
}
