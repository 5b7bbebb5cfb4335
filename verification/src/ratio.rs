//! An exact rational value with an explicit denominator.
//!
//! The controller's normalized quantities (wetness, sunlight fraction,
//! counters scaled to days) are affine images of integer sensor counts, so
//! each is represented exactly as an integer numerator over a fixed positive
//! denominator. The unverified driver converts a `Ratio` to the model's
//! numeric format only at the inference boundary.

use vstd::arithmetic::mul::lemma_mul_strict_inequality;
use vstd::prelude::*;

verus! {

/// A rational number `num / den`. The denominator is fixed by the producing
/// component and is always positive; with the denominator fixed, ordering of
/// values is ordering of numerators.
#[derive(Clone, Copy, Debug, PartialEq, Eq, Structural)]
pub struct Ratio {
    pub num: i64,
    pub den: u32,
}

impl Ratio {
    /// Well-formedness: the denominator is positive, so the value is defined.
    pub open spec fn wf(self) -> bool {
        self.den > 0
    }

    pub fn new(num: i64, den: u32) -> (r: Ratio)
        requires
            den > 0,
        ensures
            r.num == num,
            r.den == den,
            r.wf(),
    {
        Ratio { num, den }
    }
}

/// Value ordering of two well-formed ratios, by cross multiplication:
/// `a.num / a.den < b.num / b.den`.
pub open spec fn ratio_lt(a: Ratio, b: Ratio) -> bool {
    (a.num as int) * (b.den as int) < (b.num as int) * (a.den as int)
}

/// With a shared positive denominator, ordering of values is ordering of
/// numerators.
pub proof fn lemma_ratio_lt_same_den(a: Ratio, b: Ratio)
    requires
        a.wf(),
        b.wf(),
        a.den == b.den,
        a.num < b.num,
    ensures
        ratio_lt(a, b),
{
    lemma_mul_strict_inequality(a.num as int, b.num as int, a.den as int);
}

} // verus!
