use rand::distributions::{Bernoulli, BernoulliError, Distribution};
use rand::rngs::SmallRng;
use vstd::prelude::*;

verus! {

#[verifier::external_type_specification]
#[verifier::external_body]
pub struct ExBernoulli(Bernoulli);

#[verifier::external_type_specification]
#[verifier::external_body]
pub struct ExBernoulliError(BernoulliError);

#[verifier::external_type_specification]
#[verifier::external_body]
pub struct ExSmallRng(SmallRng);

/// A probability as an exact ratio of two integers.
#[derive(Clone, Copy, Debug, PartialEq, Eq, Structural)]
pub struct Rate {
    pub numerator: u32,
    pub denominator: u32,
}

impl Rate {
    /// The ratio is a probability: it lies in `[0, 1]`.
    pub open spec fn valid(self) -> bool {
        self.denominator != 0 && self.numerator <= self.denominator
    }

    /// The probability is one.
    pub open spec fn certain(self) -> bool {
        self.numerator == self.denominator
    }

    /// The probability is zero.
    pub open spec fn impossible(self) -> bool {
        self.numerator == 0
    }

    pub fn new(numerator: u32, denominator: u32) -> (r: Rate)
        ensures
            r.numerator == numerator,
            r.denominator == denominator,
    {
        Rate { numerator, denominator }
    }
}

/// One arm's conversion distribution, together with the rate it was built
/// from. Only `arm_from_ratio` builds one.
pub struct Arm {
    dist: Bernoulli,
    rate: Rate,
}

impl Arm {
    /// The rate the distribution was built from.
    pub closed spec fn rate_spec(&self) -> Rate {
        self.rate
    }

    pub fn rate(&self) -> (r: Rate)
        ensures
            r == self.rate_spec(),
    {
        self.rate
    }
}

/// Relies on rand's `Bernoulli::from_ratio`: it fails exactly when the
/// denominator is zero or the numerator exceeds it; the arm keeps the ratio.
#[verifier::external_body]
pub(crate) fn arm_from_ratio(numerator: u32, denominator: u32) -> (r: Result<Arm, BernoulliError>)
    ensures
        r is Ok <==> (denominator != 0 && numerator <= denominator),
        r matches Ok(arm) ==> arm.rate_spec() == (Rate { numerator, denominator }),
{
    Bernoulli::from_ratio(numerator, denominator).map(
        |dist| Arm { dist, rate: Rate { numerator, denominator } },
    )
}

/// Relies on rand's `Bernoulli::sample`: one draw of the distribution. A
/// distribution from a ratio `n/n` always draws `true`, one from `0/d` always
/// draws `false`.
#[verifier::external_body]
pub(crate) fn draw(arm: &Arm, rng: &mut SmallRng) -> (success: bool)
    ensures
        arm.rate_spec().certain() ==> success,
        arm.rate_spec().impossible() ==> !success,
{
    arm.dist.sample(rng)
}

} // verus!
