//! Exact fractions.
//!
//! Fill levels and pixel heights of the gauge are quotients of address
//! distances by the size of the stack. They are kept as a numerator and a
//! denominator, so that no rounding enters before the host paints.

use vstd::prelude::*;

verus! {

/// The mathematical model of a fraction: a numerator over a denominator.
///
/// Two ratios with different fields may stand for the same number; the
/// relations below compare by value, by cross-multiplication, and mean what
/// they say only between well-formed ratios.
pub struct Ratio {
    pub num: int,
    pub den: int,
}

impl Ratio {
    /// The denominator is positive.
    pub open spec fn wf(self) -> bool {
        self.den > 0
    }

    /// The integer `k`, over the denominator one.
    pub open spec fn whole(k: int) -> Ratio {
        Ratio { num: k, den: 1 }
    }

    /// The sum of two ratios.
    pub open spec fn plus(self, other: Ratio) -> Ratio {
        Ratio { num: self.num * other.den + other.num * self.den, den: self.den * other.den }
    }

    /// The ratio multiplied by the integer `k`, over the same denominator.
    pub open spec fn times(self, k: int) -> Ratio {
        Ratio { num: self.num * k, den: self.den }
    }

    /// `self` is strictly greater than `other`.
    pub open spec fn exceeds(self, other: Ratio) -> bool {
        self.num * other.den > other.num * self.den
    }

    /// `self` is less than or equal to `other`.
    pub open spec fn at_most(self, other: Ratio) -> bool {
        self.num * other.den <= other.num * self.den
    }

    /// The ratio itself where it is not negative, zero over the same
    /// denominator where it is.
    pub open spec fn clamped(self) -> Ratio {
        if self.num < 0 {
            Ratio { num: 0, den: self.den }
        } else {
            self
        }
    }
}

/// A fraction as the library hands it out: `num / den`.
///
/// The derived `==` compares the two fields, not the values: one half and
/// two quarters are different `Fraction`s. Every fraction that this crate
/// returns has a positive denominator.
#[derive(Clone, Copy, Debug, PartialEq, Eq)]
pub struct Fraction {
    pub num: i128,
    pub den: u64,
}

impl View for Fraction {
    type V = Ratio;

    open spec fn view(&self) -> Ratio {
        Ratio { num: self.num as int, den: self.den as int }
    }
}

impl Fraction {
    /// The fraction a painter uses for a height: negative values become
    /// zero, everything else is kept as it is.
    pub fn clamp_non_negative(self) -> (r: Fraction)
        ensures
            r@ == self@.clamped(),
    {
        if self.num < 0 {
            Fraction { num: 0, den: self.den }
        } else {
            self
        }
    }
}

} // verus!
