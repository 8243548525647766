//! Geometry engine for a clipboard heads-up display: text truncation with an
//! ellipsis policy, fixed-point layout and placement solving, and a pixel-level
//! image diff for regression testing.
//!
//! All lengths and coordinates are held in integer subunits of 1/10000 of a
//! point, and scale factors in thousandths, so that every computation is exact
//! and verifiable.

use vstd::prelude::*;

pub mod chars;
pub mod diff;
pub mod layout;
pub mod position;
pub mod settings;
pub mod text;

verus! {

/// Clamp a value into `[min, max]`.
pub fn clamp_i64(value: i64, min: i64, max: i64) -> (r: i64)
    requires
        min <= max,
    ensures
        r == spec_clamp(value as int, min as int, max as int),
{
    if value < min {
        min
    } else if value > max {
        max
    } else {
        value
    }
}

/// What clamping means: the nearest point of `[min, max]`.
pub open spec fn spec_clamp(value: int, min: int, max: int) -> int {
    if value < min {
        min
    } else if value > max {
        max
    } else {
        value
    }
}

/// The smaller of two values.
pub open spec fn spec_imin(a: int, b: int) -> int {
    if a <= b {
        a
    } else {
        b
    }
}

/// The larger of two values.
pub open spec fn spec_imax(a: int, b: int) -> int {
    if a >= b {
        a
    } else {
        b
    }
}

} // verus!
