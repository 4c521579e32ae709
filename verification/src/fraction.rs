//! Exact fractions of an actuator's range.

use vstd::prelude::*;

verus! {

/// The exact value `num / den`.
#[derive(Clone, Copy, Debug, PartialEq, Eq, Structural)]
pub struct Fraction {
    pub num: i64,
    pub den: i64,
}

impl Fraction {
    /// A fraction is a number only with a positive denominator.
    pub open spec fn wf(&self) -> bool {
        self.den > 0
    }

    /// `self <= other` as numbers, for well-formed fractions.
    pub open spec fn le(&self, other: &Fraction) -> bool {
        self.num * other.den <= other.num * self.den
    }

    /// `self == other` as numbers, for well-formed fractions.
    pub open spec fn same_value(&self, other: &Fraction) -> bool {
        self.num * other.den == other.num * self.den
    }

    /// The value lies in `[-1, 1]`.
    pub open spec fn within_unit(&self) -> bool {
        -self.den <= self.num <= self.den
    }

    /// The fraction `num / den`, or nothing when `den` is not positive.
    pub fn new(num: i64, den: i64) -> (r: Option<Fraction>)
        ensures
            den > 0 ==> r == Some(Fraction { num, den }),
            den <= 0 ==> r.is_none(),
    {
        if den > 0 {
            Some(Fraction { num, den })
        } else {
            None
        }
    }

    /// Whether two fractions are the same number.
    pub fn equals(&self, other: &Fraction) -> (b: bool)
        ensures
            b == self.same_value(other),
    {
        let a: i128 = self.num as i128;
        let b: i128 = other.den as i128;
        let c: i128 = other.num as i128;
        let d: i128 = self.den as i128;
        assert(-0x4000_0000_0000_0000_0000_0000_0000_0000 <= a * b
            <= 0x4000_0000_0000_0000_0000_0000_0000_0000) by (nonlinear_arith)
            requires
                -0x8000_0000_0000_0000 <= a <= 0x8000_0000_0000_0000,
                -0x8000_0000_0000_0000 <= b <= 0x8000_0000_0000_0000,
        ;
        assert(-0x4000_0000_0000_0000_0000_0000_0000_0000 <= c * d
            <= 0x4000_0000_0000_0000_0000_0000_0000_0000) by (nonlinear_arith)
            requires
                -0x8000_0000_0000_0000 <= c <= 0x8000_0000_0000_0000,
                -0x8000_0000_0000_0000 <= d <= 0x8000_0000_0000_0000,
        ;
        a * b == c * d
    }

    /// Whether the value lies in `[-1, 1]`.
    pub fn is_within_unit(&self) -> (b: bool)
        ensures
            b == self.within_unit(),
    {
        let n: i128 = self.num as i128;
        let d: i128 = self.den as i128;
        -d <= n && n <= d
    }
}

} // verus!
