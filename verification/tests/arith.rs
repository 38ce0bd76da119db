use sse41::arith::_mm_cmpeq_epi64;
use sse41::arith::_mm_mul_epi32;
use sse41::arith::_mm_mullo_epi32;
use sse41::registers::I32x4;
use sse41::registers::I64x2;

#[test]
fn cmpeq_epi64() {
    let a = I64x2::from_lanes([0, 1]);
    let b = I64x2::from_lanes([0, 0]);
    let r = _mm_cmpeq_epi64(a, b);
    let e = I64x2::from_lanes([-1, 0]);
    assert_eq!(r, e);
}

#[test]
fn mul_epi32() {
    {
        let a = I32x4::from_lanes([1, 1, 1, 1]);
        let b = I32x4::from_lanes([1, 2, 3, 4]);
        let r = _mm_mul_epi32(a, b);
        let e = I64x2::from_lanes([1, 3]);
        assert_eq!(r, e);
    }
    {
        // The odd-indexed lanes are ignored.
        let a = I32x4::from_lanes([15, 2, 1234567, 4]);
        let b = I32x4::from_lanes([-20, -256, 666666, 666666]);
        let r = _mm_mul_epi32(a, b);
        let e = I64x2::from_lanes([-300, 823043843622]);
        assert_eq!(r, e);
    }
}

#[test]
fn mullo_epi32() {
    {
        let a = I32x4::from_lanes([1, 1, 1, 1]);
        let b = I32x4::from_lanes([1, 2, 3, 4]);
        let r = _mm_mullo_epi32(a, b);
        let e = I32x4::from_lanes([1, 2, 3, 4]);
        assert_eq!(r, e);
    }
    {
        let a = I32x4::from_lanes([15, -2, 1234567, 99999]);
        let b = I32x4::from_lanes([-20, -256, 666666, -99999]);
        let r = _mm_mullo_epi32(a, b);
        // The high product bit lands in the sign position:
        // 1234567 * 666666 wraps to -1589877210.
        let e = I32x4::from_lanes([-300, 512, -1589877210, -1409865409]);
        assert_eq!(r, e);
    }
}
