//! Exact sample values.

use vstd::prelude::*;

verus! {

/// The mathematical value of a [`Level`]: the rational `num / den`.
pub struct Ratio {
    pub num: int,
    pub den: int,
}

impl Ratio {
    /// The denominator is positive.
    pub open spec fn wf(self) -> bool {
        self.den > 0
    }

    /// `self <= other` as rationals, for positive denominators.
    pub open spec fn le(self, other: Ratio) -> bool {
        self.num * other.den <= other.num * self.den
    }

    /// `self == other` as rationals, for positive denominators.
    pub open spec fn same(self, other: Ratio) -> bool {
        self.num * other.den == other.num * self.den
    }

    /// `-self`, over the same denominator.
    pub open spec fn negated(self) -> Ratio {
        Ratio { num: -self.num, den: self.den }
    }

    /// `self * other`, numerator by numerator and denominator by denominator.
    pub open spec fn times(self, other: Ratio) -> Ratio {
        Ratio { num: self.num * other.num, den: self.den * other.den }
    }

    /// `-1 <= self <= 1`, for a positive denominator.
    pub open spec fn within_unit(self) -> bool {
        -self.den <= self.num <= self.den
    }
}

/// One sample, or one amplitude, held exactly as the fraction `num / den`.
///
/// Fractions are not reduced: an oscillator reports the numerator and the
/// denominator that its formula gives.
#[derive(Clone, Copy, Debug, PartialEq, Eq)]
pub struct Level {
    pub num: i64,
    pub den: i64,
}

impl View for Level {
    type V = Ratio;

    open spec fn view(&self) -> Ratio {
        Ratio { num: self.num as int, den: self.den as int }
    }
}

impl Level {
    /// The level `-self`.
    pub fn negated(self) -> (out: Level)
        requires
            self.num > i64::MIN,
        ensures
            out@ == self@.negated(),
    {
        Level { num: -self.num, den: self.den }
    }

    /// The product of two levels, where it can be written in 64 bits.
    pub fn times(self, other: Level) -> (out: Level)
        requires
            i64::MIN <= self.num * other.num <= i64::MAX,
            i64::MIN <= self.den * other.den <= i64::MAX,
        ensures
            out@ == self@.times(other@),
    {
        Level { num: self.num * other.num, den: self.den * other.den }
    }
}

/// The product of two fractions in `[-1, 1]` lies in `[-1, 1]`, over a
/// positive denominator.
pub proof fn lemma_product_within_unit(a: Ratio, b: Ratio)
    requires
        a.wf(),
        b.wf(),
        a.within_unit(),
        b.within_unit(),
    ensures
        a.times(b).wf(),
        a.times(b).within_unit(),
{
    let (an, ad, bn, bd) = (a.num, a.den, b.num, b.den);
    assert(ad * bd > 0 && -(ad * bd) <= an * bn <= ad * bd) by (nonlinear_arith)
        requires
            ad > 0,
            bd > 0,
            -ad <= an <= ad,
            -bd <= bn <= bd,
    ;
}

} // verus!
