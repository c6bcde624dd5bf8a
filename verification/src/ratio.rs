//! Exact mix ratios.
//!
//! A ratio is kept as a fraction of two unsigned integers, so that weights
//! such as "elapsed seconds over day length" carry no rounding of their own.

use vstd::prelude::*;

verus! {

/// The fraction `num / den`.
///
/// Any pair of numbers can be written down; only those with
/// [`Ratio::in_unit_interval`] denote a mix ratio between 0 and 1.
#[derive(Clone, Copy, Debug, PartialEq, Eq, Structural)]
pub struct Ratio {
    pub num: u64,
    pub den: u64,
}

impl Ratio {
    /// The fraction is defined and lies in `[0, 1]`.
    pub open spec fn in_unit_interval(self) -> bool {
        0 < self.den && self.num <= self.den
    }

    /// The fraction equals 0.
    pub open spec fn is_zero(self) -> bool {
        0 < self.den && self.num == 0
    }

    /// The fraction equals 1.
    pub open spec fn is_one(self) -> bool {
        0 < self.den && self.num == self.den
    }

    /// The ratio 0: all weight on the first of two values.
    pub fn zero() -> (r: Ratio)
        ensures
            r == (Ratio { num: 0, den: 1 }),
            r.is_zero(),
    {
        Ratio { num: 0, den: 1 }
    }

    /// The ratio 1: all weight on the second of two values.
    pub fn one() -> (r: Ratio)
        ensures
            r == (Ratio { num: 1, den: 1 }),
            r.is_one(),
    {
        Ratio { num: 1, den: 1 }
    }

    /// Whether the fraction is defined and lies in `[0, 1]`.
    pub fn is_valid(&self) -> (ok: bool)
        ensures
            ok == self.in_unit_interval(),
    {
        0 < self.den && self.num <= self.den
    }
}

} // verus!
