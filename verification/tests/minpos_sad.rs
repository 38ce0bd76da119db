use sse41::minpos::_mm_minpos_epu16;
use sse41::registers::U16x8;
use sse41::registers::U8x16;
use sse41::sad::_mm_mpsadbw_epu8;

// The reduction yields value 13 at lane 0, index 5 at lane 1, zero
// elsewhere.
#[test]
fn minpos_epu16_1() {
    let a = U16x8::from_lanes([23, 18, 44, 97, 50, 13, 67, 66]);
    let r = _mm_minpos_epu16(a);
    let e = U16x8::from_lanes([13, 5, 0, 0, 0, 0, 0, 0]);
    assert_eq!(r, e);
}

#[test]
fn minpos_epu16_2() {
    let a = U16x8::from_lanes([0, 18, 44, 97, 50, 13, 67, 66]);
    let r = _mm_minpos_epu16(a);
    let e = U16x8::from_lanes([0, 0, 0, 0, 0, 0, 0, 0]);
    assert_eq!(r, e);
}

#[test]
fn minpos_epu16_3() {
    let a = U16x8::from_lanes([8, 7, 6, 5, 4, 1, 2, 3]);
    let r = _mm_minpos_epu16(a);
    let e = U16x8::splat(0).replace(0, 1).replace(1, 5);
    assert_eq!(r, e);
}

// A tie between equal minima is broken by the lowest index.
#[test]
fn minpos_epu16_tie_lowest_index() {
    let a = U16x8::from_lanes([9, 9, 3, 9, 3, 9, 3, 9]);
    let r = _mm_minpos_epu16(a);
    let e = U16x8::from_lanes([3, 2, 0, 0, 0, 0, 0, 0]);
    assert_eq!(r, e);
}

#[test]
fn mpsadbw_epu8() {
    let a = U8x16::from_lanes([0, 1, 2, 3, 4, 5, 6, 7, 8, 9, 10, 11, 12, 13, 14, 15]);

    let r = _mm_mpsadbw_epu8(a, a, 0b000);
    let e = U16x8::from_lanes([0, 4, 8, 12, 16, 20, 24, 28]);
    assert_eq!(r, e);

    let r = _mm_mpsadbw_epu8(a, a, 0b001);
    let e = U16x8::from_lanes([16, 12, 8, 4, 0, 4, 8, 12]);
    assert_eq!(r, e);

    let r = _mm_mpsadbw_epu8(a, a, 0b100);
    let e = U16x8::from_lanes([16, 20, 24, 28, 32, 36, 40, 44]);
    assert_eq!(r, e);

    let r = _mm_mpsadbw_epu8(a, a, 0b101);
    let e = U16x8::from_lanes([0, 4, 8, 12, 16, 20, 24, 28]);
    assert_eq!(r, e);

    let r = _mm_mpsadbw_epu8(a, a, 0b111);
    let e = U16x8::from_lanes([32, 28, 24, 20, 16, 12, 8, 4]);
    assert_eq!(r, e);
}

// Only the low 3 bits of the immediate are read: adding a multiple of 8
// changes nothing.
#[test]
fn mpsadbw_epu8_masks_immediate() {
    let a = U8x16::from_lanes([3, 60, 9, 1, 2, 5, 8, 13, 21, 34, 55, 89, 4, 7, 11, 0]);
    let b = U8x16::from_lanes([5, 4, 3, 2, 1, 0, 250, 251, 252, 253, 254, 255, 6, 6, 6, 6]);
    for imm in 0..=7u8 {
        let r = _mm_mpsadbw_epu8(a, b, imm);
        let s = _mm_mpsadbw_epu8(a, b, imm + 8 * 5);
        assert_eq!(r, s);
    }
}

// Exhaustive coverage: all 8 masked immediates match the documented
// window-offset decode.
#[test]
fn mpsadbw_epu8_all_immediates() {
    let av = [9u8, 200, 3, 14, 150, 6, 70, 8, 90, 1, 11, 120, 13, 140, 15, 160];
    let bv = [2u8, 250, 4, 60, 8, 10, 12, 14, 160, 180, 20, 220, 24, 26, 28, 30];
    let a = U8x16::from_lanes(av);
    let b = U8x16::from_lanes(bv);
    for imm in 0..=7u8 {
        let r = _mm_mpsadbw_epu8(a, b, imm);
        let i = (((imm >> 2) & 1) * 4) as usize;
        let j = ((imm & 3) * 4) as usize;
        let mut e = [0u16; 8];
        for k in 0..8 {
            let mut s = 0u16;
            for t in 0..4 {
                let x = av[i + k + t] as i32;
                let y = bv[j + t] as i32;
                s += (x - y).unsigned_abs() as u16;
            }
            e[k] = s;
        }
        assert_eq!(r.lanes, e);
    }
}
