//! The main high-frequency clock.

use vstd::prelude::*;
use super::registers::{Cmu, Field, HfClkSelect, Operation};
use super::{
    joint_state, joint_status, lemma_product_within, switch_off, Clock, ClockState, Domain, HfRco,
    HfXo, LfRco, LfXo, Setting, UsHfRcoDiv,
};
use crate::devices::{make_static, Device, StaticDevice};
use crate::frequency::{lemma_chain_extends, rate_of, Frequency, Ratio};

verus! {

/// The sources that the `HFCLK` can select, each as the borrowed token of that source.
#[derive(Clone, Copy, Debug)]
pub enum HfClkSource<'source> {
    HfRco(&'source HfRco),
    HfXo(&'source HfXo),
    LfRco(&'source LfRco),
    LfXo(&'source LfXo),
    UsHfRcoDiv(&'source UsHfRcoDiv<'source>),
}

impl<'source> HfClkSource<'source> {
    /// Whether the token of the source is well formed.
    pub open spec fn well_formed(self) -> bool {
        match self {
            HfClkSource::HfRco(clock) => clock.well_formed(),
            HfClkSource::HfXo(clock) => clock.well_formed(),
            HfClkSource::LfRco(clock) => clock.well_formed(),
            HfClkSource::LfXo(clock) => clock.well_formed(),
            HfClkSource::UsHfRcoDiv(clock) => clock.well_formed(),
        }
    }

    /// The family of the state of the source.
    pub open spec fn state(self) -> ClockState {
        match self {
            HfClkSource::HfRco(clock) => clock.state(),
            HfClkSource::HfXo(clock) => clock.state(),
            HfClkSource::LfRco(clock) => clock.state(),
            HfClkSource::LfXo(clock) => clock.state(),
            HfClkSource::UsHfRcoDiv(clock) => clock.state(),
        }
    }

    /// The frequency of the source, if it has the clock capability.
    pub open spec fn rate(self) -> Option<Ratio> {
        match self {
            HfClkSource::HfRco(clock) => clock.rate(),
            HfClkSource::HfXo(clock) => clock.rate(),
            HfClkSource::LfRco(clock) => clock.rate(),
            HfClkSource::LfXo(clock) => clock.rate(),
            HfClkSource::UsHfRcoDiv(clock) => clock.rate(),
        }
    }

    /// The frequency in hertz of the oscillator at the root of the source's chain.
    pub open spec fn root(self) -> nat {
        match self {
            HfClkSource::HfRco(clock) => clock.root(),
            HfClkSource::HfXo(clock) => clock.root(),
            HfClkSource::LfRco(clock) => clock.root(),
            HfClkSource::LfXo(clock) => clock.root(),
            HfClkSource::UsHfRcoDiv(clock) => clock.root(),
        }
    }

    /// The divisors between that oscillator and the source.
    pub open spec fn divisors(self) -> Seq<nat> {
        match self {
            HfClkSource::HfRco(clock) => clock.divisors(),
            HfClkSource::HfXo(clock) => clock.divisors(),
            HfClkSource::LfRco(clock) => clock.divisors(),
            HfClkSource::LfXo(clock) => clock.divisors(),
            HfClkSource::UsHfRcoDiv(clock) => clock.divisors(),
        }
    }

    /// The largest product of divisors that can lie between an oscillator and a source.
    pub open spec fn largest_division() -> nat {
        2
    }

    /// The value of `HFCLKSEL` that selects the source.
    pub open spec fn spec_select(self) -> HfClkSelect {
        match self {
            HfClkSource::HfRco(_) => HfClkSelect::HfRco,
            HfClkSource::HfXo(_) => HfClkSelect::HfXo,
            HfClkSource::LfRco(_) => HfClkSelect::LfRco,
            HfClkSource::LfXo(_) => HfClkSelect::LfXo,
            HfClkSource::UsHfRcoDiv(_) => HfClkSelect::UsHfRcoDiv2,
        }
    }

    /// The value of `HFCLKSEL` that selects the source.
    #[verifier::when_used_as_spec(spec_select)]
    pub fn select(self) -> (select: HfClkSelect)
        ensures
            select == self.spec_select(),
    {
        match self {
            HfClkSource::HfRco(_) => HfClkSelect::HfRco,
            HfClkSource::HfXo(_) => HfClkSelect::HfXo,
            HfClkSource::LfRco(_) => HfClkSelect::LfRco,
            HfClkSource::LfXo(_) => HfClkSelect::LfXo,
            HfClkSource::UsHfRcoDiv(_) => HfClkSelect::UsHfRcoDiv2,
        }
    }

    /// The frequency of the source, if it has the clock capability.
    pub fn frequency(&self) -> (frequency: Option<Frequency>)
        ensures
            rate_of(frequency) == self.rate(),
            frequency matches Some(f) ==> 0 < f@.denominator <= Self::largest_division(),
    {
        match self {
            HfClkSource::HfRco(clock) => clock.frequency(),
            HfClkSource::HfXo(clock) => clock.frequency(),
            HfClkSource::LfRco(clock) => clock.frequency(),
            HfClkSource::LfXo(clock) => clock.frequency(),
            HfClkSource::UsHfRcoDiv(clock) => clock.frequency(),
        }
    }

    /// A source has the clock capability if and only if it is configured.
    pub proof fn lemma_capability_gating(self)
        requires
            self.well_formed(),
        ensures
            self.rate().is_some() <==> self.state() == ClockState::Configured,
    {
        match self {
            HfClkSource::HfRco(clock) => clock.lemma_capability_gating(),
            HfClkSource::HfXo(clock) => clock.lemma_capability_gating(),
            HfClkSource::LfRco(clock) => clock.lemma_capability_gating(),
            HfClkSource::LfXo(clock) => clock.lemma_capability_gating(),
            HfClkSource::UsHfRcoDiv(clock) => clock.lemma_capability_gating(),
        }
    }

    /// The frequency of a configured source is that of its root oscillator, divided in turn by
    /// each divisor of its chain.
    pub proof fn lemma_frequency_propagation(self)
        requires
            self.well_formed(),
            self.state() == ClockState::Configured,
        ensures
            self.rate() == Some(Ratio::whole(self.root()).divided_by_all(self.divisors())),
    {
        match self {
            HfClkSource::HfRco(clock) => clock.lemma_frequency_propagation(),
            HfClkSource::HfXo(clock) => clock.lemma_frequency_propagation(),
            HfClkSource::LfRco(clock) => clock.lemma_frequency_propagation(),
            HfClkSource::LfXo(clock) => clock.lemma_frequency_propagation(),
            HfClkSource::UsHfRcoDiv(clock) => clock.lemma_frequency_propagation(),
        }
    }

    /// The product of the divisors of a source stays within the bound of the sources.
    pub proof fn lemma_division_bounded(self)
        requires
            self.well_formed(),
        ensures
            self.rate() matches Some(rate) ==> 0 < rate.denominator <= Self::largest_division(),
    {
        match self {
            HfClkSource::HfRco(clock) => clock.lemma_division_bounded(),
            HfClkSource::HfXo(clock) => clock.lemma_division_bounded(),
            HfClkSource::LfRco(clock) => clock.lemma_division_bounded(),
            HfClkSource::LfXo(clock) => clock.lemma_division_bounded(),
            HfClkSource::UsHfRcoDiv(clock) => clock.lemma_division_bounded(),
        }
    }
}

/// Ownership of the `HFCLK`, the main high-frequency clock, which most of the high-frequency
/// peripherals depend on.
///
/// Its source and its divider are set apart from one another, and the token has the clock
/// capability once both are set. The clock has no gate: it cannot be switched off.
#[derive(Debug)]
pub struct HfClk<'source> {
    source: Setting<HfClkSource<'source>>,
    division: Setting<u8>,
}

impl<'source> HfClk<'source> {
    /// What holds of every token that exists: it is well formed.
    #[verifier::type_invariant]
    pub open spec fn valid(self) -> bool {
        self.well_formed()
    }

    /// The source that the clock selects.
    pub closed spec fn spec_source(&self) -> Setting<HfClkSource<'source>> {
        self.source
    }

    /// The source that the clock selects.
    #[verifier::when_used_as_spec(spec_source)]
    pub fn source(&self) -> (source: Setting<HfClkSource<'source>>)
        ensures
            source == self.spec_source(),
    {
        self.source
    }

    /// The divisor.
    pub closed spec fn spec_division(&self) -> Setting<u8> {
        self.division
    }

    /// The divisor.
    #[verifier::when_used_as_spec(spec_division)]
    pub fn division(&self) -> (division: Setting<u8>)
        ensures
            division == self.spec_division(),
    {
        self.division
    }

    /// The divisors that the domain supports: every whole number from one to eight.
    pub open spec fn supports(divisor: nat) -> bool {
        1 <= divisor <= 8
    }

    /// The clock as reset leaves it for this library: running, from a source and with a divisor
    /// that are not recorded.
    pub(crate) fn claim_ownership() -> (hfclk: HfClk<'static>)
        ensures
            hfclk.source() == Setting::<HfClkSource<'static>>::Uninitialized,
            hfclk.division() == Setting::<u8>::Uninitialized,
    {
        HfClk { source: Setting::Uninitialized, division: Setting::Uninitialized }
    }

    fn divide(self, divisor: u8, cmu: &mut Cmu) -> (hfclk: HfClk<'source>)
        requires
            1 <= divisor <= 8,
        ensures
            hfclk.source() == self.source(),
            hfclk.division() == Setting::Configured(divisor),
            final(cmu)@ == old(cmu)@ + seq![
                Operation::Modify(Field::HfClkDiv((divisor - 1) as u8)),
            ],
    {
        proof {
            use_type_invariant(&self);
        }
        cmu.issue(Operation::Modify(Field::HfClkDiv(divisor - 1)));
        HfClk { source: self.source, division: Setting::Configured(divisor) }
    }

    fn switch<'new_source>(self, source: HfClkSource<'new_source>, cmu: &mut Cmu) -> (hfclk: HfClk<
        'new_source,
    >)
        requires
            source.well_formed(),
            source.rate().is_some(),
        ensures
            hfclk.source() == Setting::Configured(source),
            hfclk.division() == self.division(),
            final(cmu)@ == old(cmu)@ + seq![Operation::Write(Field::HfClkSel(source.select()))],
    {
        proof {
            use_type_invariant(&self);
        }
        cmu.issue(Operation::Write(Field::HfClkSel(source.select())));
        HfClk { source: Setting::Configured(source), division: self.division }
    }

    /// Sets the divider of the `HFCLK` to 1, by storing 0 in `HFCLKDIV` of `CMU_CTRL`. The source
    /// stays as it is.
    pub fn div1(self, cmu: &mut Cmu) -> (hfclk: HfClk<'source>)
        ensures
            hfclk.source() == self.source(),
            hfclk.division() == Setting::Configured(1u8),
            final(cmu)@ == old(cmu)@ + seq![Operation::Modify(Field::HfClkDiv(0))],
    {
        self.divide(1, cmu)
    }

    /// Sets the divider of the `HFCLK` to 2, by storing 1 in `HFCLKDIV` of `CMU_CTRL`. The source
    /// stays as it is.
    pub fn div2(self, cmu: &mut Cmu) -> (hfclk: HfClk<'source>)
        ensures
            hfclk.source() == self.source(),
            hfclk.division() == Setting::Configured(2u8),
            final(cmu)@ == old(cmu)@ + seq![Operation::Modify(Field::HfClkDiv(1))],
    {
        self.divide(2, cmu)
    }

    /// Sets the divider of the `HFCLK` to 3, by storing 2 in `HFCLKDIV` of `CMU_CTRL`. The source
    /// stays as it is.
    pub fn div3(self, cmu: &mut Cmu) -> (hfclk: HfClk<'source>)
        ensures
            hfclk.source() == self.source(),
            hfclk.division() == Setting::Configured(3u8),
            final(cmu)@ == old(cmu)@ + seq![Operation::Modify(Field::HfClkDiv(2))],
    {
        self.divide(3, cmu)
    }

    /// Sets the divider of the `HFCLK` to 4, by storing 3 in `HFCLKDIV` of `CMU_CTRL`. The source
    /// stays as it is.
    pub fn div4(self, cmu: &mut Cmu) -> (hfclk: HfClk<'source>)
        ensures
            hfclk.source() == self.source(),
            hfclk.division() == Setting::Configured(4u8),
            final(cmu)@ == old(cmu)@ + seq![Operation::Modify(Field::HfClkDiv(3))],
    {
        self.divide(4, cmu)
    }

    /// Sets the divider of the `HFCLK` to 5, by storing 4 in `HFCLKDIV` of `CMU_CTRL`. The source
    /// stays as it is.
    pub fn div5(self, cmu: &mut Cmu) -> (hfclk: HfClk<'source>)
        ensures
            hfclk.source() == self.source(),
            hfclk.division() == Setting::Configured(5u8),
            final(cmu)@ == old(cmu)@ + seq![Operation::Modify(Field::HfClkDiv(4))],
    {
        self.divide(5, cmu)
    }

    /// Sets the divider of the `HFCLK` to 6, by storing 5 in `HFCLKDIV` of `CMU_CTRL`. The source
    /// stays as it is.
    pub fn div6(self, cmu: &mut Cmu) -> (hfclk: HfClk<'source>)
        ensures
            hfclk.source() == self.source(),
            hfclk.division() == Setting::Configured(6u8),
            final(cmu)@ == old(cmu)@ + seq![Operation::Modify(Field::HfClkDiv(5))],
    {
        self.divide(6, cmu)
    }

    /// Sets the divider of the `HFCLK` to 7, by storing 6 in `HFCLKDIV` of `CMU_CTRL`. The source
    /// stays as it is.
    pub fn div7(self, cmu: &mut Cmu) -> (hfclk: HfClk<'source>)
        ensures
            hfclk.source() == self.source(),
            hfclk.division() == Setting::Configured(7u8),
            final(cmu)@ == old(cmu)@ + seq![Operation::Modify(Field::HfClkDiv(6))],
    {
        self.divide(7, cmu)
    }

    /// Sets the divider of the `HFCLK` to 8, by storing 7 in `HFCLKDIV` of `CMU_CTRL`. The source
    /// stays as it is.
    pub fn div8(self, cmu: &mut Cmu) -> (hfclk: HfClk<'source>)
        ensures
            hfclk.source() == self.source(),
            hfclk.division() == Setting::Configured(8u8),
            final(cmu)@ == old(cmu)@ + seq![Operation::Modify(Field::HfClkDiv(7))],
    {
        self.divide(8, cmu)
    }

    /// Selects the `HFRCO` as the source of the `HFCLK`, by storing `HFCLKSEL` of `CMU_CMD`. The
    /// divider stays as it is. The `HFRCO` has to have the clock capability.
    pub fn hfrco<'new_source>(self, hfrco: &'new_source HfRco, cmu: &mut Cmu) -> (hfclk: HfClk<
        'new_source,
    >)
        requires
            hfrco.rate().is_some(),
        ensures
            hfclk.source() == Setting::Configured(HfClkSource::HfRco(hfrco)),
            hfclk.division() == self.division(),
            final(cmu)@ == old(cmu)@ + seq![Operation::Write(Field::HfClkSel(HfClkSelect::HfRco))],
    {
        self.switch(HfClkSource::HfRco(hfrco), cmu)
    }

    /// Selects the `HFXO` as the source of the `HFCLK`, by storing `HFCLKSEL` of `CMU_CMD`. The
    /// divider stays as it is. The `HFXO` has to have the clock capability.
    pub fn hfxo<'new_source>(self, hfxo: &'new_source HfXo, cmu: &mut Cmu) -> (hfclk: HfClk<
        'new_source,
    >)
        requires
            hfxo.rate().is_some(),
        ensures
            hfclk.source() == Setting::Configured(HfClkSource::HfXo(hfxo)),
            hfclk.division() == self.division(),
            final(cmu)@ == old(cmu)@ + seq![Operation::Write(Field::HfClkSel(HfClkSelect::HfXo))],
    {
        self.switch(HfClkSource::HfXo(hfxo), cmu)
    }

    /// Selects the `LFRCO` as the source of the `HFCLK`, by storing `HFCLKSEL` of `CMU_CMD`. The
    /// divider stays as it is. The `LFRCO` has to have the clock capability.
    pub fn lfrco<'new_source>(self, lfrco: &'new_source LfRco, cmu: &mut Cmu) -> (hfclk: HfClk<
        'new_source,
    >)
        requires
            lfrco.rate().is_some(),
        ensures
            hfclk.source() == Setting::Configured(HfClkSource::LfRco(lfrco)),
            hfclk.division() == self.division(),
            final(cmu)@ == old(cmu)@ + seq![Operation::Write(Field::HfClkSel(HfClkSelect::LfRco))],
    {
        self.switch(HfClkSource::LfRco(lfrco), cmu)
    }

    /// Selects the `LFXO` as the source of the `HFCLK`, by storing `HFCLKSEL` of `CMU_CMD`. The
    /// divider stays as it is. The `LFXO` has to have the clock capability.
    pub fn lfxo<'new_source>(self, lfxo: &'new_source LfXo, cmu: &mut Cmu) -> (hfclk: HfClk<
        'new_source,
    >)
        requires
            lfxo.rate().is_some(),
        ensures
            hfclk.source() == Setting::Configured(HfClkSource::LfXo(lfxo)),
            hfclk.division() == self.division(),
            final(cmu)@ == old(cmu)@ + seq![Operation::Write(Field::HfClkSel(HfClkSelect::LfXo))],
    {
        self.switch(HfClkSource::LfXo(lfxo), cmu)
    }

    /// Selects the divided `USHFRCO` as the source of the `HFCLK`, by storing `HFCLKSEL` of
    /// `CMU_CMD`. The divider stays as it is. The divided `USHFRCO` has to have the clock
    /// capability.
    pub fn ushfrcodiv<'new_source>(
        self,
        ushfrcodiv: &'new_source UsHfRcoDiv<'new_source>,
        cmu: &mut Cmu,
    ) -> (hfclk: HfClk<'new_source>)
        requires
            ushfrcodiv.rate().is_some(),
        ensures
            hfclk.source() == Setting::Configured(HfClkSource::UsHfRcoDiv(ushfrcodiv)),
            hfclk.division() == self.division(),
            final(cmu)@ == old(cmu)@ + seq![
                Operation::Write(Field::HfClkSel(HfClkSelect::UsHfRcoDiv2)),
            ],
    {
        proof {
            use_type_invariant(ushfrcodiv);
        }
        self.switch(HfClkSource::UsHfRcoDiv(ushfrcodiv), cmu)
    }

    /// The divisor of a token is always one that the domain supports.
    pub proof fn lemma_divisor_supported(&self)
        requires
            self.well_formed(),
        ensures
            self.division() matches Setting::Configured(divisor) ==> Self::supports(
                divisor as nat,
            ),
    {
    }
}

impl<'source> Clock for HfClk<'source> {
    open spec fn spec_domain() -> Domain {
        Domain::HfClk
    }

    open spec fn well_formed(&self) -> bool {
        &&& self.source() matches Setting::Configured(source) ==> source.well_formed()
            && source.rate().is_some()
        &&& self.division() matches Setting::Configured(divisor) ==> Self::supports(divisor as nat)
    }

    open spec fn state(&self) -> ClockState {
        joint_state(self.source().state(), self.division().state())
    }

    open spec fn rate(&self) -> Option<Ratio> {
        match (self.source(), self.division()) {
            (Setting::Configured(source), Setting::Configured(divisor)) => match source.rate() {
                Some(rate) => Some(rate.divided_by(divisor as nat)),
                None => None,
            },
            _ => None,
        }
    }

    open spec fn root(&self) -> nat {
        match self.source() {
            Setting::Configured(source) => source.root(),
            _ => 0,
        }
    }

    open spec fn divisors(&self) -> Seq<nat> {
        match (self.source(), self.division()) {
            (Setting::Configured(source), Setting::Configured(divisor)) => source.divisors().push(
                divisor as nat,
            ),
            _ => Seq::empty(),
        }
    }

    open spec fn largest_division() -> nat {
        16
    }

    fn domain() -> (domain: Domain) {
        Domain::HfClk
    }

    fn status(&self) -> (status: ClockState) {
        joint_status(self.source.status(), self.division.status())
    }

    fn is_clock(&self) -> (capable: bool) {
        proof {
            use_type_invariant(self);
        }
        match (self.source, self.division) {
            (Setting::Configured(_), Setting::Configured(_)) => true,
            _ => false,
        }
    }

    fn frequency(&self) -> (frequency: Option<Frequency>) {
        proof {
            use_type_invariant(self);
            self.lemma_division_bounded();
        }
        match (self.source, self.division) {
            (Setting::Configured(source), Setting::Configured(divisor)) => {
                match source.frequency() {
                    Some(frequency) => Some(frequency.divided_by(divisor as u64)),
                    None => None,
                }
            },
            _ => None,
        }
    }

    fn release(self, cmu: &mut Cmu) {
        switch_off(Domain::HfClk, cmu);
    }

    proof fn lemma_capability_gating(&self) {
    }

    proof fn lemma_frequency_propagation(&self) {
        let source = self.source()->Configured_0;
        let divisor = self.division()->Configured_0;
        source.lemma_frequency_propagation();
        lemma_chain_extends(Ratio::whole(source.root()), source.divisors(), divisor as nat);
    }

    proof fn lemma_division_bounded(&self) {
        if let (Setting::Configured(source), Setting::Configured(divisor)) = (
            self.source(),
            self.division(),
        ) {
            lemma_product_within(source.rate().unwrap().denominator, divisor as nat, 2, 8);
        }
    }
}

impl<'source> Device for HfClk<'source> {

}

impl StaticDevice for HfClk<'static> {
    fn finalize(self) -> (device: &'static Self) {
        make_static(self)
    }
}

} // verus!
