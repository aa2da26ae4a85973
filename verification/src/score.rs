//! Exact rational health scores.

use vstd::prelude::*;

verus! {

/// An exact score in the range zero to one hundred, held as the rational
/// number `num / den`.
///
/// A single repository's health always has denominator 60, the least common
/// denominator of the four weighted factors of the health formula. A
/// project's health, the mean of its repositories' scores, has denominator
/// `60 * n` for a project with `n` repositories, so the mean is carried
/// exactly, with no rounding.
#[derive(Clone, Copy, Debug, PartialEq, Eq, Structural)]
pub struct Score {
    /// Numerator.
    pub num: u128,
    /// Denominator; always positive.
    pub den: u128,
}

impl Score {
    /// The denominator is positive and the value `num / den` lies between
    /// zero and one hundred.
    pub open spec fn wf(self) -> bool {
        self.den > 0 && self.num <= 100 * self.den
    }

    /// The full score of exactly one hundred, the health of a project with
    /// no repositories.
    pub fn hundred() -> (s: Score)
        ensures
            s == (Score { num: 100, den: 1 }),
            s.wf(),
    {
        Score { num: 100, den: 1 }
    }
}

} // verus!
