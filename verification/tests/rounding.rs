use sse41::rounding::RoundingTarget;
use sse41::rounding::_MM_FROUND_CEIL;
use sse41::rounding::_MM_FROUND_CUR_DIRECTION;
use sse41::rounding::_MM_FROUND_FLOOR;
use sse41::rounding::_MM_FROUND_NEARBYINT;
use sse41::rounding::_MM_FROUND_NINT;
use sse41::rounding::_MM_FROUND_NO_EXC;
use sse41::rounding::_MM_FROUND_RAISE_EXC;
use sse41::rounding::_MM_FROUND_RINT;
use sse41::rounding::_MM_FROUND_TO_NEAREST_INT;
use sse41::rounding::_MM_FROUND_TO_NEG_INF;
use sse41::rounding::_MM_FROUND_TO_POS_INF;
use sse41::rounding::_MM_FROUND_TO_ZERO;
use sse41::rounding::_MM_FROUND_TRUNC;
use sse41::rounding::decode_rounding;

// The composite constants carry the hardware's fixed encodings.
#[test]
fn directive_encodings() {
    assert_eq!(_MM_FROUND_TO_NEAREST_INT, 0x00);
    assert_eq!(_MM_FROUND_TO_NEG_INF, 0x01);
    assert_eq!(_MM_FROUND_TO_POS_INF, 0x02);
    assert_eq!(_MM_FROUND_TO_ZERO, 0x03);
    assert_eq!(_MM_FROUND_CUR_DIRECTION, 0x04);
    assert_eq!(_MM_FROUND_RAISE_EXC, 0x00);
    assert_eq!(_MM_FROUND_NO_EXC, 0x08);
    assert_eq!(_MM_FROUND_NINT, _MM_FROUND_RAISE_EXC | _MM_FROUND_TO_NEAREST_INT);
    assert_eq!(_MM_FROUND_FLOOR, _MM_FROUND_RAISE_EXC | _MM_FROUND_TO_NEG_INF);
    assert_eq!(_MM_FROUND_CEIL, _MM_FROUND_RAISE_EXC | _MM_FROUND_TO_POS_INF);
    assert_eq!(_MM_FROUND_TRUNC, _MM_FROUND_RAISE_EXC | _MM_FROUND_TO_ZERO);
    assert_eq!(_MM_FROUND_RINT, _MM_FROUND_RAISE_EXC | _MM_FROUND_CUR_DIRECTION);
    assert_eq!(_MM_FROUND_NEARBYINT, _MM_FROUND_NO_EXC | _MM_FROUND_CUR_DIRECTION);
}

#[test]
fn decode_explicit_targets() {
    assert_eq!(decode_rounding(_MM_FROUND_NINT), (RoundingTarget::Nearest, false));
    assert_eq!(decode_rounding(_MM_FROUND_FLOOR), (RoundingTarget::Down, false));
    assert_eq!(decode_rounding(_MM_FROUND_CEIL), (RoundingTarget::Up, false));
    assert_eq!(decode_rounding(_MM_FROUND_TRUNC), (RoundingTarget::Zero, false));
    assert_eq!(decode_rounding(_MM_FROUND_RINT), (RoundingTarget::Ambient, false));
    assert_eq!(decode_rounding(_MM_FROUND_NEARBYINT), (RoundingTarget::Ambient, true));
}

#[test]
fn decode_suppression_combinations() {
    assert_eq!(
        decode_rounding(_MM_FROUND_TO_NEAREST_INT | _MM_FROUND_NO_EXC),
        (RoundingTarget::Nearest, true)
    );
    assert_eq!(
        decode_rounding(_MM_FROUND_TO_NEG_INF | _MM_FROUND_NO_EXC),
        (RoundingTarget::Down, true)
    );
    assert_eq!(
        decode_rounding(_MM_FROUND_TO_POS_INF | _MM_FROUND_NO_EXC),
        (RoundingTarget::Up, true)
    );
    assert_eq!(
        decode_rounding(_MM_FROUND_TO_ZERO | _MM_FROUND_NO_EXC),
        (RoundingTarget::Zero, true)
    );
}

// Only the low 4 bits of a directive are read.
#[test]
fn decode_masks_directive() {
    for d in 0..16i32 {
        assert_eq!(decode_rounding(d), decode_rounding(d + 16));
        assert_eq!(decode_rounding(d), decode_rounding(d + 160));
        assert_eq!(decode_rounding(d), decode_rounding(d - 32));
    }
    // Bit 2 set means the ambient mode whatever bits 1:0 hold.
    assert_eq!(decode_rounding(0b101).0, RoundingTarget::Ambient);
    assert_eq!(decode_rounding(0b111).0, RoundingTarget::Ambient);
}
