//! Non-negative fractions of two 32-bit integers.

use vstd::prelude::*;

verus! {

/// A non-negative fraction `num / den`.
#[derive(Clone, Copy, Debug, PartialEq, Eq, Structural)]
pub struct Ratio {
    pub num: u32,
    pub den: u32,
}

impl Ratio {
    /// A fraction is a number when its denominator is not zero.
    pub open spec fn wf(self) -> bool {
        self.den > 0
    }

    /// The fraction one.
    pub open spec fn spec_one() -> Ratio {
        Ratio { num: 1, den: 1 }
    }

    /// The fraction zero.
    pub open spec fn spec_zero() -> Ratio {
        Ratio { num: 0, den: 1 }
    }

    /// The fraction of a full turn that `degrees` degrees make.
    pub open spec fn spec_degrees(degrees: u32) -> Ratio {
        Ratio { num: degrees, den: 360 }
    }

    /// The fraction one.
    pub fn one() -> (r: Ratio)
        ensures
            r == Ratio::spec_one(),
    {
        Ratio { num: 1, den: 1 }
    }

    /// The fraction zero.
    pub fn zero() -> (r: Ratio)
        ensures
            r == Ratio::spec_zero(),
    {
        Ratio { num: 0, den: 1 }
    }

    /// An angle of `degrees` degrees as a fraction of a full turn.
    pub fn degrees(degrees: u32) -> (r: Ratio)
        ensures
            r == Ratio::spec_degrees(degrees),
    {
        Ratio { num: degrees, den: 360 }
    }
}

} // verus!
