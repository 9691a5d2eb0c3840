use vstd::prelude::*;

verus! {

/// A ratio of two integers, the library's exact stand-in for a real number.
///
/// Probabilities are represented as `count / total` and average costs in
/// seconds as `summed milliseconds / (count * 1000)`, so every statistic this
/// library produces is an exact rational; a host that needs a floating-point
/// value divides the two fields itself.
#[derive(Clone, Copy, Debug, PartialEq, Eq, Structural)]
pub struct Ratio {
    pub num: u128,
    pub den: u128,
}

impl Ratio {
    /// True when the denominator is positive, so the ratio denotes a number.
    pub open spec fn wf(self) -> bool {
        self.den > 0
    }

    /// The exact sum of two ratios, as a pair over the common denominator.
    pub open spec fn sum_spec(self, other: Ratio) -> Ratio {
        Ratio {
            num: (self.num * other.den + other.num * self.den) as u128,
            den: (self.den * other.den) as u128,
        }
    }

    /// Add another ratio to this one exactly, over the common denominator.
    ///
    /// The result is not reduced; callers keep the factored form so that
    /// every field stays an exact integer statistic.
    pub fn sum(self, other: Ratio) -> (r: Ratio)
        requires
            self.wf(),
            other.wf(),
            self.num * other.den + other.num * self.den <= u128::MAX,
            self.den * other.den <= u128::MAX,
        ensures
            r == self.sum_spec(other),
            r.wf(),
    {
        proof {
            assert(self.den * other.den > 0) by (nonlinear_arith)
                requires
                    self.den > 0,
                    other.den > 0,
            ;
        }
        Ratio { num: self.num * other.den + other.num * self.den, den: self.den * other.den }
    }
}

} // verus!
