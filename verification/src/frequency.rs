//! Exact clock frequencies.
//!
//! A clock in the tree runs at the frequency of its root oscillator divided by every divider
//! between the oscillator and the clock. Such a quotient need not be a whole number of hertz, so
//! it is kept as a fraction and never rounded: rounding, where a peripheral needs it, is the
//! peripheral's business.

use vstd::prelude::*;

verus! {

/// The mathematical value of a frequency: `numerator / denominator` hertz.
///
/// The fraction is not reduced. For a clock in the tree the numerator is the frequency of the
/// root oscillator in hertz and the denominator is the product of the divisors on the way down.
pub struct Ratio {
    pub numerator: nat,
    pub denominator: nat,
}

impl Ratio {
    /// A whole number of hertz.
    pub open spec fn whole(hertz: nat) -> Ratio {
        Ratio { numerator: hertz, denominator: 1 }
    }

    /// This frequency after an integer divider.
    pub open spec fn divided_by(self, divisor: nat) -> Ratio {
        Ratio { numerator: self.numerator, denominator: self.denominator * divisor }
    }

    /// This frequency after a chain of integer dividers, applied first to last.
    pub open spec fn divided_by_all(self, divisors: Seq<nat>) -> Ratio
        decreases divisors.len(),
    {
        if divisors.len() == 0 {
            self
        } else {
            self.divided_by_all(divisors.drop_last()).divided_by(divisors.last())
        }
    }

    /// The frequency in hertz, where it is a whole number of hertz.
    pub open spec fn hertz(self) -> Option<nat> {
        if self.denominator > 0 && self.numerator % self.denominator == 0 {
            Some(self.numerator / self.denominator)
        } else {
            None
        }
    }
}

/// The product of a chain of divisors.
pub open spec fn product(divisors: Seq<nat>) -> nat
    decreases divisors.len(),
{
    if divisors.len() == 0 {
        1
    } else {
        product(divisors.drop_last()) * divisors.last()
    }
}

/// Dividing by one divisor and then by a second is dividing by their product.
pub proof fn lemma_division_composes(rate: Ratio, first: nat, second: nat)
    ensures
        rate.divided_by(first).divided_by(second) == rate.divided_by(first * second),
{
    assert(rate.denominator * first * second == rate.denominator * (first * second))
        by (nonlinear_arith);
}

/// A chain of dividers leaves the numerator alone and multiplies the denominator by the product
/// of the divisors: nothing is rounded on the way, whatever the length of the chain.
pub proof fn lemma_chain_is_exact(rate: Ratio, divisors: Seq<nat>)
    ensures
        rate.divided_by_all(divisors) == (Ratio {
            numerator: rate.numerator,
            denominator: rate.denominator * product(divisors),
        }),
    decreases divisors.len(),
{
    if divisors.len() == 0 {
        assert(rate.denominator * 1 == rate.denominator);
    } else {
        let front = divisors.drop_last();
        lemma_chain_is_exact(rate, front);
        assert(rate.denominator * product(front) * divisors.last() == rate.denominator * (
        product(front) * divisors.last())) by (nonlinear_arith);
    }
}

/// Extending a chain by one divider divides the result once more.
pub proof fn lemma_chain_extends(rate: Ratio, divisors: Seq<nat>, divisor: nat)
    ensures
        rate.divided_by_all(divisors.push(divisor)) == rate.divided_by_all(divisors).divided_by(
            divisor,
        ),
{
    let chain = divisors.push(divisor);
    assert(chain.drop_last() =~= divisors);
}

/// A frequency that is reported in hertz is that many hertz exactly.
pub proof fn lemma_hertz_is_exact(rate: Ratio, hertz: nat)
    requires
        rate.hertz() == Some(hertz),
    ensures
        hertz * rate.denominator == rate.numerator,
{
    vstd::arithmetic::div_mod::lemma_fundamental_div_mod(
        rate.numerator as int,
        rate.denominator as int,
    );
    assert(rate.denominator * (rate.numerator / rate.denominator) == (rate.numerator
        / rate.denominator) * rate.denominator) by (nonlinear_arith);
}

/// An exact frequency: a fraction of two machine integers with a positive denominator.
#[derive(Clone, Copy, Debug, PartialEq, Eq, Structural)]
pub struct Frequency {
    numerator: u64,
    denominator: u64,
}

impl View for Frequency {
    type V = Ratio;

    closed spec fn view(&self) -> Ratio {
        Ratio { numerator: self.numerator as nat, denominator: self.denominator as nat }
    }
}

/// The value of a frequency that may be absent.
pub open spec fn rate_of(frequency: Option<Frequency>) -> Option<Ratio> {
    match frequency {
        Some(f) => Some(f@),
        None => None,
    }
}

impl Frequency {
    #[verifier::type_invariant]
    spec fn positive_denominator(self) -> bool {
        self.denominator > 0
    }

    /// A whole number of hertz.
    pub fn new(hertz: u64) -> (frequency: Frequency)
        ensures
            frequency@ == Ratio::whole(hertz as nat),
    {
        Frequency { numerator: hertz, denominator: 1 }
    }

    /// This frequency after an integer divider.
    pub fn divided_by(self, divisor: u64) -> (frequency: Frequency)
        requires
            divisor > 0,
            self@.denominator * divisor <= u64::MAX,
        ensures
            frequency@ == self@.divided_by(divisor as nat),
    {
        proof {
            use_type_invariant(self);
            assert(self.denominator * divisor > 0) by (nonlinear_arith)
                requires
                    self.denominator > 0,
                    divisor > 0,
            ;
        }
        Frequency { numerator: self.numerator, denominator: self.denominator * divisor }
    }

    /// The numerator of the fraction: for a clock in the tree, its root oscillator's hertz.
    pub fn numerator(&self) -> (numerator: u64)
        ensures
            numerator == self@.numerator,
    {
        self.numerator
    }

    /// The denominator of the fraction: for a clock in the tree, the product of the divisors
    /// between its root oscillator and itself.
    pub fn denominator(&self) -> (denominator: u64)
        ensures
            denominator == self@.denominator,
            denominator > 0,
    {
        proof {
            use_type_invariant(self);
        }
        self.denominator
    }

    /// The frequency in hertz, or `None` where it is not a whole number of hertz.
    pub fn hertz(&self) -> (hertz: Option<u64>)
        ensures
            match hertz {
                Some(h) => self@.hertz() == Some(h as nat),
                None => self@.hertz().is_none(),
            },
    {
        proof {
            use_type_invariant(self);
        }
        if self.numerator % self.denominator == 0 {
            Some(self.numerator / self.denominator)
        } else {
            None
        }
    }
}

} // verus!
