//! The core clock for the low-energy peripherals.

use vstd::prelude::*;
use super::registers::{Cmu, CoreClockGate, Field, Operation};
use super::{
    joint_state, joint_status, lemma_product_within, switch_off, Clock, ClockState, Domain,
    HfCoreClk, Setting,
};
use crate::devices::{make_static, Device, StaticDevice};
use crate::frequency::{lemma_chain_extends, Frequency, Ratio};

verus! {

/// Ownership of the `HFCORECLKLE` and of the clock that the reference manual calls
/// `HFCORECLKLEDIV2`.
///
/// Despite its name the clock is the `HFCORECLKLE` divided by two or by four, as one bit of
/// `CMU_HFCORECLKDIV` says.
#[derive(Debug)]
pub struct HfCoreClkLeDiv<'source> {
    source: Setting<&'source HfCoreClk<'source>>,
    division: Setting<u8>,
}

impl<'source> HfCoreClkLeDiv<'source> {
    /// What holds of every token that exists: it is well formed.
    #[verifier::type_invariant]
    pub open spec fn valid(self) -> bool {
        self.well_formed()
    }

    /// The `HFCORECLK` that the clock is taken from.
    pub closed spec fn spec_source(&self) -> Setting<&'source HfCoreClk<'source>> {
        self.source
    }

    /// The `HFCORECLK` that the clock is taken from.
    #[verifier::when_used_as_spec(spec_source)]
    pub fn source(&self) -> (source: Setting<&'source HfCoreClk<'source>>)
        ensures
            source == self.spec_source(),
    {
        self.source
    }

    /// The divisor.
    pub closed spec fn spec_division(&self) -> Setting<u8> {
        self.division
    }

    /// The divisor.
    #[verifier::when_used_as_spec(spec_division)]
    pub fn division(&self) -> (division: Setting<u8>)
        ensures
            division == self.spec_division(),
    {
        self.division
    }

    /// The divisors that the domain supports: two and four.
    pub open spec fn supports(divisor: nat) -> bool {
        divisor == 2 || divisor == 4
    }

    /// The clock as reset leaves it: off.
    pub(crate) fn claim_ownership() -> (hfcoreclklediv: HfCoreClkLeDiv<'static>)
        ensures
            hfcoreclklediv.source() == Setting::<&HfCoreClk<'static>>::Off,
            hfcoreclklediv.division() == Setting::<u8>::Off,
    {
        HfCoreClkLeDiv { source: Setting::Off, division: Setting::Off }
    }

    /// What enabling the clock issues: the bit that tells two from four, then the enable bit of
    /// the `HFCORECLKLE`.
    pub open spec fn enable_sequence(divisor: u8) -> Seq<Operation> {
        seq![
            Operation::Modify(Field::HfCoreClkLeDiv(divisor == 4)),
            Operation::Modify(Field::CoreClockEnable(CoreClockGate::Le, true)),
        ]
    }

    fn enable<'new_source>(
        self,
        divisor: u8,
        source: &'new_source HfCoreClk<'new_source>,
        cmu: &mut Cmu,
    ) -> (hfcoreclklediv: HfCoreClkLeDiv<'new_source>)
        requires
            Self::supports(divisor as nat),
            source.rate().is_some(),
        ensures
            hfcoreclklediv.source() == Setting::Configured(source),
            hfcoreclklediv.division() == Setting::Configured(divisor),
            final(cmu)@ == old(cmu)@ + Self::enable_sequence(divisor),
    {
        proof {
            use_type_invariant(source);
        }
        cmu.issue(Operation::Modify(Field::HfCoreClkLeDiv(divisor == 4)));
        cmu.issue(Operation::Modify(Field::CoreClockEnable(CoreClockGate::Le, true)));
        HfCoreClkLeDiv {
            source: Setting::Configured(source),
            division: Setting::Configured(divisor),
        }
    }

    /// Enables the `HFCORECLKLE` and takes the clock behind it from the `HFCORECLK` divided by 2:
    /// clears `HFCORECLKLEDIV` in `CMU_HFCORECLKDIV` and sets `LE` in `CMU_HFCORECLKEN0`. The
    /// `HFCORECLK` has to have the clock capability.
    pub fn enable_div2<'new_source>(
        self,
        hfcoreclk: &'new_source HfCoreClk<'new_source>,
        cmu: &mut Cmu,
    ) -> (hfcoreclklediv: HfCoreClkLeDiv<'new_source>)
        requires
            hfcoreclk.rate().is_some(),
        ensures
            hfcoreclklediv.source() == Setting::Configured(hfcoreclk),
            hfcoreclklediv.division() == Setting::Configured(2u8),
            hfcoreclklediv.rate() == Some(hfcoreclk.rate().unwrap().divided_by(2)),
            final(cmu)@ == old(cmu)@ + Self::enable_sequence(2),
    {
        self.enable(2, hfcoreclk, cmu)
    }

    /// Enables the `HFCORECLKLE` and takes the clock behind it from the `HFCORECLK` divided by 4:
    /// sets `HFCORECLKLEDIV` in `CMU_HFCORECLKDIV` and sets `LE` in `CMU_HFCORECLKEN0`. The
    /// `HFCORECLK` has to have the clock capability.
    pub fn enable_div4<'new_source>(
        self,
        hfcoreclk: &'new_source HfCoreClk<'new_source>,
        cmu: &mut Cmu,
    ) -> (hfcoreclklediv: HfCoreClkLeDiv<'new_source>)
        requires
            hfcoreclk.rate().is_some(),
        ensures
            hfcoreclklediv.source() == Setting::Configured(hfcoreclk),
            hfcoreclklediv.division() == Setting::Configured(4u8),
            hfcoreclklediv.rate() == Some(hfcoreclk.rate().unwrap().divided_by(4)),
            final(cmu)@ == old(cmu)@ + Self::enable_sequence(4),
    {
        self.enable(4, hfcoreclk, cmu)
    }

    /// Disables the `HFCORECLKLE`, by clearing `LE` in `CMU_HFCORECLKEN0`.
    pub fn disable(self, cmu: &mut Cmu) -> (hfcoreclklediv: HfCoreClkLeDiv<'static>)
        ensures
            hfcoreclklediv.source() == Setting::<&HfCoreClk<'static>>::Off,
            hfcoreclklediv.division() == Setting::<u8>::Off,
            final(cmu)@ == old(cmu)@ + Domain::HfCoreClkLeDiv.disable_sequence(),
    {
        switch_off(Domain::HfCoreClkLeDiv, cmu);
        HfCoreClkLeDiv { source: Setting::Off, division: Setting::Off }
    }

    /// The divisor of a token is always one that the domain supports.
    pub proof fn lemma_divisor_supported(&self)
        requires
            self.well_formed(),
        ensures
            self.division() matches Setting::Configured(divisor) ==> Self::supports(
                divisor as nat,
            ),
    {
    }
}

impl<'source> Clock for HfCoreClkLeDiv<'source> {
    open spec fn spec_domain() -> Domain {
        Domain::HfCoreClkLeDiv
    }

    open spec fn well_formed(&self) -> bool {
        &&& self.source() matches Setting::Configured(source) ==> source.well_formed()
            && source.rate().is_some()
        &&& self.division() matches Setting::Configured(divisor) ==> Self::supports(divisor as nat)
    }

    open spec fn state(&self) -> ClockState {
        joint_state(self.source().state(), self.division().state())
    }

    open spec fn rate(&self) -> Option<Ratio> {
        match (self.source(), self.division()) {
            (Setting::Configured(source), Setting::Configured(divisor)) => match source.rate() {
                Some(rate) => Some(rate.divided_by(divisor as nat)),
                None => None,
            },
            _ => None,
        }
    }

    open spec fn root(&self) -> nat {
        match self.source() {
            Setting::Configured(source) => source.root(),
            _ => 0,
        }
    }

    open spec fn divisors(&self) -> Seq<nat> {
        match (self.source(), self.division()) {
            (Setting::Configured(source), Setting::Configured(divisor)) => source.divisors().push(
                divisor as nat,
            ),
            _ => Seq::empty(),
        }
    }

    open spec fn largest_division() -> nat {
        32768
    }

    fn domain() -> (domain: Domain) {
        Domain::HfCoreClkLeDiv
    }

    fn status(&self) -> (status: ClockState) {
        joint_status(self.source.status(), self.division.status())
    }

    fn is_clock(&self) -> (capable: bool) {
        proof {
            use_type_invariant(self);
        }
        match (self.source, self.division) {
            (Setting::Configured(_), Setting::Configured(_)) => true,
            _ => false,
        }
    }

    fn frequency(&self) -> (frequency: Option<Frequency>) {
        proof {
            use_type_invariant(self);
        }
        match (self.source, self.division) {
            (Setting::Configured(source), Setting::Configured(divisor)) => {
                match source.frequency() {
                    Some(frequency) => Some(frequency.divided_by(divisor as u64)),
                    None => None,
                }
            },
            _ => None,
        }
    }

    fn release(self, cmu: &mut Cmu) {
        switch_off(Domain::HfCoreClkLeDiv, cmu);
    }

    proof fn lemma_capability_gating(&self) {
    }

    proof fn lemma_frequency_propagation(&self) {
        let source = self.source()->Configured_0;
        let divisor = self.division()->Configured_0;
        source.lemma_frequency_propagation();
        lemma_chain_extends(Ratio::whole(source.root()), source.divisors(), divisor as nat);
    }

    proof fn lemma_division_bounded(&self) {
        if let (Setting::Configured(source), Setting::Configured(divisor)) = (
            self.source(),
            self.division(),
        ) {
            source.lemma_division_bounded();
            lemma_product_within(
                source.rate().unwrap().denominator,
                divisor as nat,
                8192,
                4,
            );
        }
    }
}

impl<'source> Device for HfCoreClkLeDiv<'source> {

}

impl StaticDevice for HfCoreClkLeDiv<'static> {
    fn finalize(self) -> (device: &'static Self) {
        make_static(self)
    }
}

} // verus!
