//! The exact rational numbers that carry every GPS quantity.
//!
//! EXIF rationals are pairs of 32-bit integers. Combining the three
//! components of a coordinate over a common denominator, or scaling an
//! altitude into feet, never needs more than these bounds, and every
//! rendering step below stays inside `u128` because of them.

use vstd::prelude::*;

verus! {

/// Largest numerator a well-formed rational may carry: the numerator of
/// `d + m/60 + s/3600` over the common denominator `3600 * dd * md * sd`
/// is at most `(3600 + 60 + 1) * (u32::MAX)^3`.
pub const MAX_NUM: u128 = 3661 * 4294967295 * 4294967295 * 4294967295;

/// Largest denominator a well-formed rational may carry:
/// `3600 * (u32::MAX)^3`.
pub const MAX_DEN: u128 = 3600 * 4294967295 * 4294967295 * 4294967295;

/// A signed rational number `(-1)^neg * num / den`.
///
/// The sign is kept apart from the magnitude because hemisphere handling
/// works on magnitudes: a negative zero is a distinct, renderable value,
/// exactly as the reference conversion rules demand.
#[derive(Clone, Copy, Debug)]
pub struct Rational {
    /// True for negative values (including a negative zero).
    pub neg: bool,
    /// Magnitude numerator.
    pub num: u128,
    /// Magnitude denominator; never zero.
    pub den: u128,
}

impl Rational {
    /// Well-formedness: a positive denominator, and bounds that keep all
    /// rendering arithmetic inside `u128`.
    pub open spec fn wf(self) -> bool {
        &&& 0 < self.den <= MAX_DEN
        &&& self.num <= MAX_NUM
    }

    /// Builds a non-negative rational from one EXIF numerator/denominator pair.
    pub fn from_u32_pair(num: u32, den: u32) -> (r: Rational)
        requires
            den > 0,
        ensures
            r.wf(),
            !r.neg,
            r.num == num,
            r.den == den,
    {
        Rational { neg: false, num: num as u128, den: den as u128 }
    }
}

} // verus!
