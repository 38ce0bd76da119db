//! A verified model of the SSE4.1 vector instruction family.
//!
//! The crate exposes the 128-bit register views (packed 8/16/32/64-bit
//! lanes), the bit-preserving reinterpretation between those views, and one
//! pure function per instruction of the catalog, each with a contract that
//! states the instruction's documented per-lane behaviour.  Immediate
//! operands are runtime integers that are masked to their declared width and
//! dispatched over an exhaustive set of per-value branches, exactly as the
//! hardware encoding demands.
//!
//! Registers whose lanes are IEEE floating-point numbers are carried as
//! their lane bit patterns; the bindings on them in this crate (blends,
//! insertion, extraction) are bit-level and fully specified.  The bindings
//! that perform floating-point arithmetic live outside the verified library.

pub mod arith;
pub mod blend;
pub mod convert;
pub mod dp;
pub mod insert_extract;
pub mod masking;
pub mod minmax;
pub mod minpos;
pub mod registers;
pub mod rounding;
pub mod sad;
