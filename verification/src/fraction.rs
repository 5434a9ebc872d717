//! Exact fractions of two integers.

use vstd::prelude::*;

verus! {

/// The fraction `numer / denom`, as it was computed: not reduced, so that
/// `2/4` and `1/2` are different representations of one value.
///
/// A zero denominator is allowed and stands for a quotient that the
/// arithmetic of the caller leaves undefined (a viewport one pixel wide).
#[derive(Clone, Copy, Debug, PartialEq, Eq, Structural)]
pub struct Fraction {
    pub numer: i128,
    pub denom: i128,
}

impl Fraction {
    /// The denominator is positive and the value lies in `[-1/2, 1/2]`.
    pub open spec fn within_half(self) -> bool {
        &&& self.denom > 0
        &&& -self.denom <= 2 * self.numer
        &&& 2 * self.numer <= self.denom
    }

    /// The denominator is positive and the value lies strictly between
    /// `-1/2` and `1/2`.
    pub open spec fn strictly_within_half(self) -> bool {
        &&& self.denom > 0
        &&& -self.denom < 2 * self.numer
        &&& 2 * self.numer < self.denom
    }

    /// The value is zero.
    pub open spec fn is_zero(self) -> bool {
        self.denom != 0 && self.numer == 0
    }
}

} // verus!
