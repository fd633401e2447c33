//! Exact fractions: how much of a budget is used, and the thresholds that it is held against.

use vstd::prelude::*;

verus! {

/// A fraction `numer / denom` of two whole numbers, kept as it was written.
///
/// Fractions are only ever compared, never added, so nothing is rounded: `1/2` and `50/100` are
/// interchangeable. A zero denominator under a positive numerator stands for infinity, a threshold
/// that no usage reaches.
#[derive(Debug, Clone, Copy)]
pub struct Ratio {
    /// Numerator.
    pub numer: u64,
    /// Denominator.
    pub denom: u64,
}

impl Ratio {
    /// Whether this fraction is at least as large as `other`.
    pub open spec fn reaches(self, other: Ratio) -> bool {
        self.numer * other.denom >= other.numer * self.denom
    }

    /// Whether this fraction is larger than `other`.
    pub open spec fn exceeds(self, other: Ratio) -> bool {
        self.numer * other.denom > other.numer * self.denom
    }

    /// The fraction one, a budget used up.
    pub open spec fn one() -> Ratio {
        Ratio { numer: 1, denom: 1 }
    }

    /// This fraction, or one where it is larger than one.
    pub open spec fn capped(self) -> Ratio {
        if Ratio::one().reaches(self) {
            self
        } else {
            Ratio::one()
        }
    }

    /// The fraction `numer / denom`.
    pub fn new(numer: u64, denom: u64) -> (ratio: Ratio)
        ensures
            ratio == (Ratio { numer, denom }),
    {
        Ratio { numer, denom }
    }

    /// Whether this fraction is at least as large as `threshold`.
    pub fn at_least(&self, threshold: &Ratio) -> (reached: bool)
        ensures
            reached == self.reaches(*threshold),
    {
        assert(self.numer * threshold.denom <= u64::MAX * u64::MAX) by (nonlinear_arith)
            requires
                self.numer <= u64::MAX,
                threshold.denom <= u64::MAX,
        ;
        assert(threshold.numer * self.denom <= u64::MAX * u64::MAX) by (nonlinear_arith)
            requires
                threshold.numer <= u64::MAX,
                self.denom <= u64::MAX,
        ;
        self.numer as u128 * threshold.denom as u128 >= threshold.numer as u128 * self.denom as u128
    }

    /// Whether this fraction is larger than `threshold`.
    pub fn more_than(&self, threshold: &Ratio) -> (exceeded: bool)
        ensures
            exceeded == self.exceeds(*threshold),
    {
        assert(self.numer * threshold.denom <= u64::MAX * u64::MAX) by (nonlinear_arith)
            requires
                self.numer <= u64::MAX,
                threshold.denom <= u64::MAX,
        ;
        assert(threshold.numer * self.denom <= u64::MAX * u64::MAX) by (nonlinear_arith)
            requires
                threshold.numer <= u64::MAX,
                self.denom <= u64::MAX,
        ;
        self.numer as u128 * threshold.denom as u128 > threshold.numer as u128 * self.denom as u128
    }

    /// Brings the fraction into the range from zero to one.
    pub fn clamp_to_one(self) -> (clamped: Ratio)
        ensures
            clamped == self.capped(),
    {
        let one = Ratio::new(1, 1);
        if one.at_least(&self) {
            self
        } else {
            one
        }
    }
}

/// Comparing fractions is transitive: what reaches `b` reaches whatever `b` reaches.
pub proof fn law_reaching_is_transitive(a: Ratio, b: Ratio, c: Ratio)
    requires
        b.denom > 0,
        a.reaches(b),
        b.reaches(c),
    ensures
        a.reaches(c),
{
    let (an, ad) = (a.numer as int, a.denom as int);
    let (bn, bd) = (b.numer as int, b.denom as int);
    let (cn, cd) = (c.numer as int, c.denom as int);
    assert(an * cd >= cn * ad) by (nonlinear_arith)
        requires
            an * bd >= bn * ad,
            bn * cd >= cn * bd,
            bd > 0,
            ad >= 0,
            cd >= 0,
    {
        assert(an * bd * cd >= bn * ad * cd);
        assert(bn * cd * ad >= cn * bd * ad);
        assert((an * cd) * bd >= (cn * ad) * bd);
    }
}

/// What reaches `b` exceeds whatever `b` exceeds.
pub proof fn law_exceeding_is_transitive(a: Ratio, b: Ratio, c: Ratio)
    requires
        a.denom > 0,
        b.denom > 0,
        a.reaches(b),
        b.exceeds(c),
    ensures
        a.exceeds(c),
{
    let (an, ad) = (a.numer as int, a.denom as int);
    let (bn, bd) = (b.numer as int, b.denom as int);
    let (cn, cd) = (c.numer as int, c.denom as int);
    assert(an * cd > cn * ad) by (nonlinear_arith)
        requires
            an * bd >= bn * ad,
            bn * cd > cn * bd,
            ad > 0,
            bd > 0,
            cd >= 0,
    {
        assert(an * bd * cd >= bn * ad * cd);
        assert(bn * cd * ad > cn * bd * ad);
        assert((an * cd) * bd > (cn * ad) * bd);
    }
}

/// A fraction brought into range never exceeds one, and a fraction in range stays as it is.
pub proof fn law_capped_is_at_most_one(ratio: Ratio)
    ensures
        Ratio::one().reaches(ratio.capped()),
        Ratio::one().reaches(ratio) ==> ratio.capped() == ratio,
        !Ratio::one().reaches(ratio) ==> ratio.capped() == Ratio::one(),
{
}

/// Fractions compare by value: by the products of each numerator with the other denominator. One of
/// two fractions exceeds the other, or they reach each other.
pub proof fn law_fractions_compare_by_value(a: Ratio, b: Ratio)
    ensures
        a.reaches(b) <==> a.numer * b.denom >= b.numer * a.denom,
        a.exceeds(b) <==> a.numer * b.denom > b.numer * a.denom,
        a.exceeds(b) <==> !b.reaches(a),
        a.denom == b.denom && a.denom > 0 ==> (a.exceeds(b) <==> a.numer > b.numer),
{
    assert(a.denom == b.denom && a.denom > 0 ==> (a.numer * b.denom > b.numer * a.denom <==> a.numer
        > b.numer)) by (nonlinear_arith);
}

/// A fraction is brought into range by its value alone: it stays as it is up to one, and becomes one
/// beyond.
pub proof fn law_larger_fractions_become_one(ratio: Ratio)
    ensures
        ratio.numer <= ratio.denom ==> ratio.capped() == ratio,
        ratio.numer > ratio.denom ==> ratio.capped().numer == 1 && ratio.capped().denom == 1,
        Ratio::one().numer == Ratio::one().denom == 1,
{
}

} // verus!
