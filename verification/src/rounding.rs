//! The rounding-directive set: named integer constants combining a rounding
//! target with an exception-suppression policy, and the verified decoder
//! that the floating-point bindings consult.
//!
//! The numeric encodings are fixed by the hardware convention and must not
//! be renumbered.

use vstd::prelude::*;

verus! {

/// Round to nearest.
pub const _MM_FROUND_TO_NEAREST_INT: i32 = 0x00;

/// Round down.
pub const _MM_FROUND_TO_NEG_INF: i32 = 0x01;

/// Round up.
pub const _MM_FROUND_TO_POS_INF: i32 = 0x02;

/// Truncate.
pub const _MM_FROUND_TO_ZERO: i32 = 0x03;

/// Use the ambient (environment-wide) rounding mode.
pub const _MM_FROUND_CUR_DIRECTION: i32 = 0x04;

/// Do not suppress floating-point exceptions.
pub const _MM_FROUND_RAISE_EXC: i32 = 0x00;

/// Suppress floating-point exceptions.
pub const _MM_FROUND_NO_EXC: i32 = 0x08;

/// Round to nearest and do not suppress exceptions.
pub const _MM_FROUND_NINT: i32 = 0x00;

/// Round down and do not suppress exceptions.
pub const _MM_FROUND_FLOOR: i32 = 0x01;

/// Round up and do not suppress exceptions.
pub const _MM_FROUND_CEIL: i32 = 0x02;

/// Truncate and do not suppress exceptions.
pub const _MM_FROUND_TRUNC: i32 = 0x03;

/// Use the ambient rounding mode and do not suppress exceptions.
pub const _MM_FROUND_RINT: i32 = 0x04;

/// Use the ambient rounding mode and suppress exceptions.
pub const _MM_FROUND_NEARBYINT: i32 = 0x0C;

/// A rounding target: one of the four explicit directions, or the ambient
/// environment-wide rounding mode.
#[derive(Clone, Copy, PartialEq, Eq, Structural, Debug)]
pub enum RoundingTarget {
    /// Round to the nearest integer, ties to even.
    Nearest,
    /// Round toward negative infinity.
    Down,
    /// Round toward positive infinity.
    Up,
    /// Round toward zero.
    Zero,
    /// Read the ambient rounding mode at the point of use.
    Ambient,
}

/// The rounding target a directive names: of the directive's low 4 bits,
/// bit 2 selects the ambient mode, otherwise bits 1:0 select the explicit
/// direction.
pub open spec fn spec_rounding_target(directive: i32) -> RoundingTarget {
    let m8 = ((directive as int) % 16) % 8;
    if m8 >= 4 {
        RoundingTarget::Ambient
    } else if m8 == 0 {
        RoundingTarget::Nearest
    } else if m8 == 1 {
        RoundingTarget::Down
    } else if m8 == 2 {
        RoundingTarget::Up
    } else {
        RoundingTarget::Zero
    }
}

/// Whether a directive suppresses floating-point exceptions (bit 3 of its
/// low 4 bits).
pub open spec fn spec_rounding_suppresses(directive: i32) -> bool {
    ((directive as int) % 16) >= 8
}

/// Decodes a rounding directive into its target and its exception policy.
///
/// Only the low 4 bits of the directive are read, matching the width of the
/// immediate that carries it.
pub fn decode_rounding(directive: i32) -> (r: (RoundingTarget, bool))
    ensures
        r.0 == spec_rounding_target(directive),
        r.1 == spec_rounding_suppresses(directive),
{
    let m: u32 = #[verifier::truncate] (directive as u32) & 15;
    proof {
        assert(((directive as u32) & 15) == (directive % 16) as u32) by (bit_vector);
    }
    let t: u32 = m % 8;
    let target = if t >= 4 {
        RoundingTarget::Ambient
    } else if t == 0 {
        RoundingTarget::Nearest
    } else if t == 1 {
        RoundingTarget::Down
    } else if t == 2 {
        RoundingTarget::Up
    } else {
        RoundingTarget::Zero
    };
    let suppress = m >= 8;
    (target, suppress)
}

} // verus!
