use sse41::dp::dp_broadcast_pd;
use sse41::dp::dp_broadcast_ps;
use sse41::dp::dp_condition_pd;
use sse41::dp::dp_condition_ps;
use sse41::registers::F64x2Bits;

#[test]
fn dp_condition_reads_high_sub_field() {
    assert_eq!(dp_condition_pd(0b0011_0001), [true, true]);
    assert_eq!(dp_condition_pd(0b0001_0010), [true, false]);
    assert_eq!(dp_condition_pd(0b0000_0011), [false, false]);
    assert_eq!(dp_condition_ps(0b0111_0101), [true, true, true, false]);
    assert_eq!(dp_condition_ps(0b1000_0000), [false, false, false, true]);
}

#[test]
fn dp_broadcast_places_sum_by_low_sub_field() {
    let s = 14.5f32.to_bits();
    let r = dp_broadcast_ps(s, 0b0101);
    assert_eq!(r.lanes, [s, 0, s, 0]);
    let r = dp_broadcast_ps(s, 0b0000);
    assert_eq!(r.lanes, [0, 0, 0, 0]);
}

// Dot product of (2.0, 3.0) and (1.0, 4.0) with both lane pairs selected
// and the sum broadcast to lane 0 only: (14.0, 0.0).  The lane selection
// and the broadcast are the library's; the products and the sum are
// computed here.
#[test]
fn dp_pd_example() {
    let av = [2.0f64, 3.0];
    let bv = [1.0f64, 4.0];
    let imm8 = 0b0011_0001u8;
    let cond = dp_condition_pd(imm8);
    let mut sum = 0.0f64;
    for k in 0..2 {
        if cond[k] {
            sum += av[k] * bv[k];
        }
    }
    let r = dp_broadcast_pd(sum.to_bits(), imm8);
    assert_eq!(r, F64x2Bits::from_lanes([14.0f64.to_bits(), 0.0f64.to_bits()]));
}
