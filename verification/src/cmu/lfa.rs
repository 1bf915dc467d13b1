//! The low-frequency clock A and the clock of the real-time counter behind it.

use vstd::prelude::*;
use super::registers::{Cmu, Field, LfSelect, Operation, SyncBusyFlag};
use super::{
    joint_state, joint_status, lemma_product_within, power_of_two, switch_off, Clock, ClockState,
    Domain, HfCoreClkLeDiv, LfRco, LfXo, Setting, ULfRco,
};
use crate::devices::{make_static, Device, StaticDevice};
use crate::frequency::{lemma_chain_extends, rate_of, Frequency, Ratio};

verus! {

/// The sources that the `LFACLK` and the `LFBCLK` can select, each as the borrowed token of that
/// source.
#[derive(Clone, Copy, Debug)]
pub enum LfSource<'source> {
    LfRco(&'source LfRco),
    LfXo(&'source LfXo),
    ULfRco(&'source ULfRco),
    HfCoreClkLeDiv(&'source HfCoreClkLeDiv<'source>),
}

impl<'source> LfSource<'source> {
    /// Whether the token of the source is well formed.
    pub open spec fn well_formed(self) -> bool {
        match self {
            LfSource::LfRco(clock) => clock.well_formed(),
            LfSource::LfXo(clock) => clock.well_formed(),
            LfSource::ULfRco(clock) => clock.well_formed(),
            LfSource::HfCoreClkLeDiv(clock) => clock.well_formed(),
        }
    }

    /// The family of the state of the source.
    pub open spec fn state(self) -> ClockState {
        match self {
            LfSource::LfRco(clock) => clock.state(),
            LfSource::LfXo(clock) => clock.state(),
            LfSource::ULfRco(clock) => clock.state(),
            LfSource::HfCoreClkLeDiv(clock) => clock.state(),
        }
    }

    /// The frequency of the source, if it has the clock capability.
    pub open spec fn rate(self) -> Option<Ratio> {
        match self {
            LfSource::LfRco(clock) => clock.rate(),
            LfSource::LfXo(clock) => clock.rate(),
            LfSource::ULfRco(clock) => clock.rate(),
            LfSource::HfCoreClkLeDiv(clock) => clock.rate(),
        }
    }

    /// The frequency in hertz of the oscillator at the root of the source's chain.
    pub open spec fn root(self) -> nat {
        match self {
            LfSource::LfRco(clock) => clock.root(),
            LfSource::LfXo(clock) => clock.root(),
            LfSource::ULfRco(clock) => clock.root(),
            LfSource::HfCoreClkLeDiv(clock) => clock.root(),
        }
    }

    /// The divisors between that oscillator and the source.
    pub open spec fn divisors(self) -> Seq<nat> {
        match self {
            LfSource::LfRco(clock) => clock.divisors(),
            LfSource::LfXo(clock) => clock.divisors(),
            LfSource::ULfRco(clock) => clock.divisors(),
            LfSource::HfCoreClkLeDiv(clock) => clock.divisors(),
        }
    }

    /// The largest product of divisors that can lie between an oscillator and a source.
    pub open spec fn largest_division() -> nat {
        32768
    }

    /// The frequency of the source, if it has the clock capability.
    pub fn frequency(&self) -> (frequency: Option<Frequency>)
        ensures
            rate_of(frequency) == self.rate(),
            frequency matches Some(f) ==> 0 < f@.denominator <= Self::largest_division(),
    {
        match self {
            LfSource::LfRco(clock) => clock.frequency(),
            LfSource::LfXo(clock) => clock.frequency(),
            LfSource::ULfRco(clock) => clock.frequency(),
            LfSource::HfCoreClkLeDiv(clock) => clock.frequency(),
        }
    }

    /// A source has the clock capability if and only if it is configured.
    pub proof fn lemma_capability_gating(self)
        requires
            self.well_formed(),
        ensures
            self.rate().is_some() <==> self.state() == ClockState::Configured,
    {
        match self {
            LfSource::LfRco(clock) => clock.lemma_capability_gating(),
            LfSource::LfXo(clock) => clock.lemma_capability_gating(),
            LfSource::ULfRco(clock) => clock.lemma_capability_gating(),
            LfSource::HfCoreClkLeDiv(clock) => clock.lemma_capability_gating(),
        }
    }

    /// The frequency of a configured source is that of its root oscillator, divided in turn by
    /// each divisor of its chain.
    pub proof fn lemma_frequency_propagation(self)
        requires
            self.well_formed(),
            self.state() == ClockState::Configured,
        ensures
            self.rate() == Some(Ratio::whole(self.root()).divided_by_all(self.divisors())),
    {
        match self {
            LfSource::LfRco(clock) => clock.lemma_frequency_propagation(),
            LfSource::LfXo(clock) => clock.lemma_frequency_propagation(),
            LfSource::ULfRco(clock) => clock.lemma_frequency_propagation(),
            LfSource::HfCoreClkLeDiv(clock) => clock.lemma_frequency_propagation(),
        }
    }

    /// The product of the divisors of a source stays within the bound of the sources.
    pub proof fn lemma_division_bounded(self)
        requires
            self.well_formed(),
        ensures
            self.rate() matches Some(rate) ==> 0 < rate.denominator <= Self::largest_division(),
    {
        match self {
            LfSource::LfRco(clock) => clock.lemma_division_bounded(),
            LfSource::LfXo(clock) => clock.lemma_division_bounded(),
            LfSource::ULfRco(clock) => clock.lemma_division_bounded(),
            LfSource::HfCoreClkLeDiv(clock) => clock.lemma_division_bounded(),
        }
    }
}

/// Ownership of the `LFACLK`, the low-frequency clock A. It can drive the real-time counter and the
/// pulse counter.
#[derive(Debug)]
pub struct LfaClk<'source> {
    source: Setting<LfSource<'source>>,
}

impl<'source> LfaClk<'source> {
    /// What holds of every token that exists: it is well formed.
    #[verifier::type_invariant]
    pub open spec fn valid(self) -> bool {
        self.well_formed()
    }

    /// The source that the clock selects.
    pub closed spec fn spec_source(&self) -> Setting<LfSource<'source>> {
        self.source
    }

    /// The source that the clock selects.
    #[verifier::when_used_as_spec(spec_source)]
    pub fn source(&self) -> (source: Setting<LfSource<'source>>)
        ensures
            source == self.spec_source(),
    {
        self.source
    }

    /// The clock as reset leaves it for this library: off.
    pub(crate) fn claim_ownership() -> (lfaclk: LfaClk<'static>)
        ensures
            lfaclk.source() == Setting::<LfSource<'static>>::Off,
    {
        LfaClk { source: Setting::Off }
    }

    /// Enables the `LFACLK` and takes it from the `LFRCO`, by clearing `LFAE` and storing `LFA` in
    /// `CMU_LFCLKSEL`. The `LFRCO` has to have the clock capability.
    pub fn enable_lfrco<'new_source>(
        self,
        lfrco: &'new_source LfRco,
        cmu: &mut Cmu,
    ) -> (lfaclk: LfaClk<'new_source>)
        requires
            lfrco.rate().is_some(),
        ensures
            lfaclk.source() == Setting::Configured(LfSource::LfRco(lfrco)),
            lfaclk.rate() == lfrco.rate(),
            final(cmu)@ == old(cmu)@ + seq![
                Operation::ModifyPair(Field::Lfae(false), Field::Lfa(LfSelect::LfRco)),
            ],
    {
        cmu.issue(Operation::ModifyPair(Field::Lfae(false), Field::Lfa(LfSelect::LfRco)));
        LfaClk { source: Setting::Configured(LfSource::LfRco(lfrco)) }
    }

    /// Enables the `LFACLK` and takes it from the `LFXO`, by clearing `LFAE` and storing `LFA` in
    /// `CMU_LFCLKSEL`. The `LFXO` has to have the clock capability.
    pub fn enable_lfxo<'new_source>(
        self,
        lfxo: &'new_source LfXo,
        cmu: &mut Cmu,
    ) -> (lfaclk: LfaClk<'new_source>)
        requires
            lfxo.rate().is_some(),
        ensures
            lfaclk.source() == Setting::Configured(LfSource::LfXo(lfxo)),
            lfaclk.rate() == lfxo.rate(),
            final(cmu)@ == old(cmu)@ + seq![
                Operation::ModifyPair(Field::Lfae(false), Field::Lfa(LfSelect::LfXo)),
            ],
    {
        cmu.issue(Operation::ModifyPair(Field::Lfae(false), Field::Lfa(LfSelect::LfXo)));
        LfaClk { source: Setting::Configured(LfSource::LfXo(lfxo)) }
    }

    /// Enables the `LFACLK` and takes it from the `ULFRCO`, by setting `LFAE` and storing `LFA` as
    /// disabled in `CMU_LFCLKSEL`.
    pub fn enable_ulfrco<'new_source>(
        self,
        ulfrco: &'new_source ULfRco,
        cmu: &mut Cmu,
    ) -> (lfaclk: LfaClk<'new_source>)
        requires
            ulfrco.rate().is_some(),
        ensures
            lfaclk.source() == Setting::Configured(LfSource::ULfRco(ulfrco)),
            lfaclk.rate() == ulfrco.rate(),
            final(cmu)@ == old(cmu)@ + seq![
                Operation::ModifyPair(Field::Lfae(true), Field::Lfa(LfSelect::Disabled)),
            ],
    {
        cmu.issue(Operation::ModifyPair(Field::Lfae(true), Field::Lfa(LfSelect::Disabled)));
        LfaClk { source: Setting::Configured(LfSource::ULfRco(ulfrco)) }
    }

    /// Enables the `LFACLK` and takes it from the `HFCORECLKLE` behind its divider, by clearing
    /// `LFAE` and storing `LFA` in `CMU_LFCLKSEL`. That clock has to have the clock capability.
    pub fn enable_hfcoreclklediv<'new_source>(
        self,
        hfcoreclklediv: &'new_source HfCoreClkLeDiv<'new_source>,
        cmu: &mut Cmu,
    ) -> (lfaclk: LfaClk<'new_source>)
        requires
            hfcoreclklediv.rate().is_some(),
        ensures
            lfaclk.source() == Setting::Configured(LfSource::HfCoreClkLeDiv(hfcoreclklediv)),
            lfaclk.rate() == hfcoreclklediv.rate(),
            final(cmu)@ == old(cmu)@ + seq![
                Operation::ModifyPair(Field::Lfae(false), Field::Lfa(LfSelect::HfCoreClkLeDiv2)),
            ],
    {
        proof {
            use_type_invariant(hfcoreclklediv);
        }
        cmu.issue(Operation::ModifyPair(Field::Lfae(false), Field::Lfa(LfSelect::HfCoreClkLeDiv2)));
        LfaClk { source: Setting::Configured(LfSource::HfCoreClkLeDiv(hfcoreclklediv)) }
    }

    /// Disables the `LFACLK`, by clearing `LFAE` and storing `LFA` as disabled in `CMU_LFCLKSEL`.
    pub fn disable(self, cmu: &mut Cmu) -> (lfaclk: LfaClk<'static>)
        ensures
            lfaclk.source() == Setting::<LfSource<'static>>::Off,
            final(cmu)@ == old(cmu)@ + Domain::LfaClk.disable_sequence(),
    {
        switch_off(Domain::LfaClk, cmu);
        LfaClk { source: Setting::Off }
    }
}

impl<'source> Clock for LfaClk<'source> {
    open spec fn spec_domain() -> Domain {
        Domain::LfaClk
    }

    open spec fn well_formed(&self) -> bool {
        self.source() matches Setting::Configured(source) ==> source.well_formed()
            && source.rate().is_some()
    }

    open spec fn state(&self) -> ClockState {
        self.source().state()
    }

    open spec fn rate(&self) -> Option<Ratio> {
        match self.source() {
            Setting::Configured(source) => source.rate(),
            _ => None,
        }
    }

    open spec fn root(&self) -> nat {
        match self.source() {
            Setting::Configured(source) => source.root(),
            _ => 0,
        }
    }

    open spec fn divisors(&self) -> Seq<nat> {
        match self.source() {
            Setting::Configured(source) => source.divisors(),
            _ => Seq::empty(),
        }
    }

    open spec fn largest_division() -> nat {
        32768
    }

    fn domain() -> (domain: Domain) {
        Domain::LfaClk
    }

    fn status(&self) -> (status: ClockState) {
        self.source.status()
    }

    fn is_clock(&self) -> (capable: bool) {
        proof {
            use_type_invariant(self);
        }
        match self.source {
            Setting::Configured(_) => true,
            _ => false,
        }
    }

    fn frequency(&self) -> (frequency: Option<Frequency>) {
        match self.source {
            Setting::Configured(source) => source.frequency(),
            _ => None,
        }
    }

    fn release(self, cmu: &mut Cmu) {
        switch_off(Domain::LfaClk, cmu);
    }

    proof fn lemma_capability_gating(&self) {
    }

    proof fn lemma_frequency_propagation(&self) {
        let source = self.source()->Configured_0;
        source.lemma_frequency_propagation();
    }

    proof fn lemma_division_bounded(&self) {
        if let Setting::Configured(source) = self.source() {
            source.lemma_division_bounded();
        }
    }
}

impl<'source> Device for LfaClk<'source> {

}

impl StaticDevice for LfaClk<'static> {
    fn finalize(self) -> (device: &'static Self) {
        make_static(self)
    }
}

/// Ownership of the `LFACLKRTC`, the clock of the real-time counter.
#[derive(Debug)]
pub struct LfaClkRtc<'source> {
    source: Setting<&'source LfaClk<'source>>,
    division: Setting<u16>,
}

impl<'source> LfaClkRtc<'source> {
    /// What holds of every token that exists: it is well formed.
    #[verifier::type_invariant]
    pub open spec fn valid(self) -> bool {
        self.well_formed()
    }

    /// The `LFACLK` that the clock is taken from.
    pub closed spec fn spec_source(&self) -> Setting<&'source LfaClk<'source>> {
        self.source
    }

    /// The `LFACLK` that the clock is taken from.
    #[verifier::when_used_as_spec(spec_source)]
    pub fn source(&self) -> (source: Setting<&'source LfaClk<'source>>)
        ensures
            source == self.spec_source(),
    {
        self.source
    }

    /// The divisor.
    pub closed spec fn spec_division(&self) -> Setting<u16> {
        self.division
    }

    /// The divisor.
    #[verifier::when_used_as_spec(spec_division)]
    pub fn division(&self) -> (division: Setting<u16>)
        ensures
            division == self.spec_division(),
    {
        self.division
    }

    /// The divisors that the domain supports: the powers of two from 1 to 32768.
    pub open spec fn supports(divisor: nat) -> bool {
        power_of_two(divisor)
    }

    /// The clock as reset leaves it: off.
    pub(crate) fn claim_ownership() -> (lfaclkrtc: LfaClkRtc<'static>)
        ensures
            lfaclkrtc.source() == Setting::<&LfaClk<'static>>::Off,
            lfaclkrtc.division() == Setting::<u16>::Off,
    {
        LfaClkRtc { source: Setting::Off, division: Setting::Off }
    }

    /// What enabling the clock issues. Both registers lie in the low-frequency domain: each store
    /// comes directly after a poll of the register's bit in `CMU_SYNCBUSY`.
    pub open spec fn enable_sequence(divisor: u16) -> Seq<Operation> {
        seq![
            Operation::WaitUntilClear(SyncBusyFlag::LfaPresc0),
            Operation::Write(Field::RtcPrescaler(divisor)),
            Operation::WaitUntilClear(SyncBusyFlag::LfaClkEn0),
            Operation::Write(Field::RtcEnable(true)),
        ]
    }

    fn enable<'new_source>(
        self,
        divisor: u16,
        source: &'new_source LfaClk<'new_source>,
        cmu: &mut Cmu,
    ) -> (lfaclkrtc: LfaClkRtc<'new_source>)
        requires
            Self::supports(divisor as nat),
            source.rate().is_some(),
        ensures
            lfaclkrtc.source() == Setting::Configured(source),
            lfaclkrtc.division() == Setting::Configured(divisor),
            final(cmu)@ == old(cmu)@ + Self::enable_sequence(divisor),
    {
        proof {
            use_type_invariant(source);
        }
        cmu.issue(Operation::Write(Field::RtcPrescaler(divisor)));
        cmu.issue(Operation::Write(Field::RtcEnable(true)));
        LfaClkRtc { source: Setting::Configured(source), division: Setting::Configured(divisor) }
    }

    /// Enables the `LFACLKRTC` and takes it from the `LFACLK` divided by 1: stores the prescaler in
    /// `CMU_LFAPRESC0` and sets the enable bit in `CMU_LFACLKEN0`, each once `CMU_SYNCBUSY` shows
    /// that the register is free. The `LFACLK` has to have the clock capability.
    pub fn enable_div1<'new_source>(
        self,
        lfaclk: &'new_source LfaClk<'new_source>,
        cmu: &mut Cmu,
    ) -> (lfaclkrtc: LfaClkRtc<'new_source>)
        requires
            lfaclk.rate().is_some(),
        ensures
            lfaclkrtc.source() == Setting::Configured(lfaclk),
            lfaclkrtc.division() == Setting::Configured(1u16),
            lfaclkrtc.rate() == Some(lfaclk.rate().unwrap().divided_by(1)),
            final(cmu)@ == old(cmu)@ + Self::enable_sequence(1),
    {
        self.enable(1, lfaclk, cmu)
    }

    /// Enables the `LFACLKRTC` and takes it from the `LFACLK` divided by 2: stores the prescaler in
    /// `CMU_LFAPRESC0` and sets the enable bit in `CMU_LFACLKEN0`, each once `CMU_SYNCBUSY` shows
    /// that the register is free. The `LFACLK` has to have the clock capability.
    pub fn enable_div2<'new_source>(
        self,
        lfaclk: &'new_source LfaClk<'new_source>,
        cmu: &mut Cmu,
    ) -> (lfaclkrtc: LfaClkRtc<'new_source>)
        requires
            lfaclk.rate().is_some(),
        ensures
            lfaclkrtc.source() == Setting::Configured(lfaclk),
            lfaclkrtc.division() == Setting::Configured(2u16),
            lfaclkrtc.rate() == Some(lfaclk.rate().unwrap().divided_by(2)),
            final(cmu)@ == old(cmu)@ + Self::enable_sequence(2),
    {
        self.enable(2, lfaclk, cmu)
    }

    /// Enables the `LFACLKRTC` and takes it from the `LFACLK` divided by 4: stores the prescaler in
    /// `CMU_LFAPRESC0` and sets the enable bit in `CMU_LFACLKEN0`, each once `CMU_SYNCBUSY` shows
    /// that the register is free. The `LFACLK` has to have the clock capability.
    pub fn enable_div4<'new_source>(
        self,
        lfaclk: &'new_source LfaClk<'new_source>,
        cmu: &mut Cmu,
    ) -> (lfaclkrtc: LfaClkRtc<'new_source>)
        requires
            lfaclk.rate().is_some(),
        ensures
            lfaclkrtc.source() == Setting::Configured(lfaclk),
            lfaclkrtc.division() == Setting::Configured(4u16),
            lfaclkrtc.rate() == Some(lfaclk.rate().unwrap().divided_by(4)),
            final(cmu)@ == old(cmu)@ + Self::enable_sequence(4),
    {
        self.enable(4, lfaclk, cmu)
    }

    /// Enables the `LFACLKRTC` and takes it from the `LFACLK` divided by 8: stores the prescaler in
    /// `CMU_LFAPRESC0` and sets the enable bit in `CMU_LFACLKEN0`, each once `CMU_SYNCBUSY` shows
    /// that the register is free. The `LFACLK` has to have the clock capability.
    pub fn enable_div8<'new_source>(
        self,
        lfaclk: &'new_source LfaClk<'new_source>,
        cmu: &mut Cmu,
    ) -> (lfaclkrtc: LfaClkRtc<'new_source>)
        requires
            lfaclk.rate().is_some(),
        ensures
            lfaclkrtc.source() == Setting::Configured(lfaclk),
            lfaclkrtc.division() == Setting::Configured(8u16),
            lfaclkrtc.rate() == Some(lfaclk.rate().unwrap().divided_by(8)),
            final(cmu)@ == old(cmu)@ + Self::enable_sequence(8),
    {
        self.enable(8, lfaclk, cmu)
    }

    /// Enables the `LFACLKRTC` and takes it from the `LFACLK` divided by 16: stores the prescaler
    /// in `CMU_LFAPRESC0` and sets the enable bit in `CMU_LFACLKEN0`, each once `CMU_SYNCBUSY`
    /// shows that the register is free. The `LFACLK` has to have the clock capability.
    pub fn enable_div16<'new_source>(
        self,
        lfaclk: &'new_source LfaClk<'new_source>,
        cmu: &mut Cmu,
    ) -> (lfaclkrtc: LfaClkRtc<'new_source>)
        requires
            lfaclk.rate().is_some(),
        ensures
            lfaclkrtc.source() == Setting::Configured(lfaclk),
            lfaclkrtc.division() == Setting::Configured(16u16),
            lfaclkrtc.rate() == Some(lfaclk.rate().unwrap().divided_by(16)),
            final(cmu)@ == old(cmu)@ + Self::enable_sequence(16),
    {
        self.enable(16, lfaclk, cmu)
    }

    /// Enables the `LFACLKRTC` and takes it from the `LFACLK` divided by 32: stores the prescaler
    /// in `CMU_LFAPRESC0` and sets the enable bit in `CMU_LFACLKEN0`, each once `CMU_SYNCBUSY`
    /// shows that the register is free. The `LFACLK` has to have the clock capability.
    pub fn enable_div32<'new_source>(
        self,
        lfaclk: &'new_source LfaClk<'new_source>,
        cmu: &mut Cmu,
    ) -> (lfaclkrtc: LfaClkRtc<'new_source>)
        requires
            lfaclk.rate().is_some(),
        ensures
            lfaclkrtc.source() == Setting::Configured(lfaclk),
            lfaclkrtc.division() == Setting::Configured(32u16),
            lfaclkrtc.rate() == Some(lfaclk.rate().unwrap().divided_by(32)),
            final(cmu)@ == old(cmu)@ + Self::enable_sequence(32),
    {
        self.enable(32, lfaclk, cmu)
    }

    /// Enables the `LFACLKRTC` and takes it from the `LFACLK` divided by 64: stores the prescaler
    /// in `CMU_LFAPRESC0` and sets the enable bit in `CMU_LFACLKEN0`, each once `CMU_SYNCBUSY`
    /// shows that the register is free. The `LFACLK` has to have the clock capability.
    pub fn enable_div64<'new_source>(
        self,
        lfaclk: &'new_source LfaClk<'new_source>,
        cmu: &mut Cmu,
    ) -> (lfaclkrtc: LfaClkRtc<'new_source>)
        requires
            lfaclk.rate().is_some(),
        ensures
            lfaclkrtc.source() == Setting::Configured(lfaclk),
            lfaclkrtc.division() == Setting::Configured(64u16),
            lfaclkrtc.rate() == Some(lfaclk.rate().unwrap().divided_by(64)),
            final(cmu)@ == old(cmu)@ + Self::enable_sequence(64),
    {
        self.enable(64, lfaclk, cmu)
    }

    /// Enables the `LFACLKRTC` and takes it from the `LFACLK` divided by 128: stores the prescaler
    /// in `CMU_LFAPRESC0` and sets the enable bit in `CMU_LFACLKEN0`, each once `CMU_SYNCBUSY`
    /// shows that the register is free. The `LFACLK` has to have the clock capability.
    pub fn enable_div128<'new_source>(
        self,
        lfaclk: &'new_source LfaClk<'new_source>,
        cmu: &mut Cmu,
    ) -> (lfaclkrtc: LfaClkRtc<'new_source>)
        requires
            lfaclk.rate().is_some(),
        ensures
            lfaclkrtc.source() == Setting::Configured(lfaclk),
            lfaclkrtc.division() == Setting::Configured(128u16),
            lfaclkrtc.rate() == Some(lfaclk.rate().unwrap().divided_by(128)),
            final(cmu)@ == old(cmu)@ + Self::enable_sequence(128),
    {
        self.enable(128, lfaclk, cmu)
    }

    /// Enables the `LFACLKRTC` and takes it from the `LFACLK` divided by 256: stores the prescaler
    /// in `CMU_LFAPRESC0` and sets the enable bit in `CMU_LFACLKEN0`, each once `CMU_SYNCBUSY`
    /// shows that the register is free. The `LFACLK` has to have the clock capability.
    pub fn enable_div256<'new_source>(
        self,
        lfaclk: &'new_source LfaClk<'new_source>,
        cmu: &mut Cmu,
    ) -> (lfaclkrtc: LfaClkRtc<'new_source>)
        requires
            lfaclk.rate().is_some(),
        ensures
            lfaclkrtc.source() == Setting::Configured(lfaclk),
            lfaclkrtc.division() == Setting::Configured(256u16),
            lfaclkrtc.rate() == Some(lfaclk.rate().unwrap().divided_by(256)),
            final(cmu)@ == old(cmu)@ + Self::enable_sequence(256),
    {
        self.enable(256, lfaclk, cmu)
    }

    /// Enables the `LFACLKRTC` and takes it from the `LFACLK` divided by 512: stores the prescaler
    /// in `CMU_LFAPRESC0` and sets the enable bit in `CMU_LFACLKEN0`, each once `CMU_SYNCBUSY`
    /// shows that the register is free. The `LFACLK` has to have the clock capability.
    pub fn enable_div512<'new_source>(
        self,
        lfaclk: &'new_source LfaClk<'new_source>,
        cmu: &mut Cmu,
    ) -> (lfaclkrtc: LfaClkRtc<'new_source>)
        requires
            lfaclk.rate().is_some(),
        ensures
            lfaclkrtc.source() == Setting::Configured(lfaclk),
            lfaclkrtc.division() == Setting::Configured(512u16),
            lfaclkrtc.rate() == Some(lfaclk.rate().unwrap().divided_by(512)),
            final(cmu)@ == old(cmu)@ + Self::enable_sequence(512),
    {
        self.enable(512, lfaclk, cmu)
    }

    /// Enables the `LFACLKRTC` and takes it from the `LFACLK` divided by 1024: stores the prescaler
    /// in `CMU_LFAPRESC0` and sets the enable bit in `CMU_LFACLKEN0`, each once `CMU_SYNCBUSY`
    /// shows that the register is free. The `LFACLK` has to have the clock capability.
    pub fn enable_div1024<'new_source>(
        self,
        lfaclk: &'new_source LfaClk<'new_source>,
        cmu: &mut Cmu,
    ) -> (lfaclkrtc: LfaClkRtc<'new_source>)
        requires
            lfaclk.rate().is_some(),
        ensures
            lfaclkrtc.source() == Setting::Configured(lfaclk),
            lfaclkrtc.division() == Setting::Configured(1024u16),
            lfaclkrtc.rate() == Some(lfaclk.rate().unwrap().divided_by(1024)),
            final(cmu)@ == old(cmu)@ + Self::enable_sequence(1024),
    {
        self.enable(1024, lfaclk, cmu)
    }

    /// Enables the `LFACLKRTC` and takes it from the `LFACLK` divided by 2048: stores the prescaler
    /// in `CMU_LFAPRESC0` and sets the enable bit in `CMU_LFACLKEN0`, each once `CMU_SYNCBUSY`
    /// shows that the register is free. The `LFACLK` has to have the clock capability.
    pub fn enable_div2048<'new_source>(
        self,
        lfaclk: &'new_source LfaClk<'new_source>,
        cmu: &mut Cmu,
    ) -> (lfaclkrtc: LfaClkRtc<'new_source>)
        requires
            lfaclk.rate().is_some(),
        ensures
            lfaclkrtc.source() == Setting::Configured(lfaclk),
            lfaclkrtc.division() == Setting::Configured(2048u16),
            lfaclkrtc.rate() == Some(lfaclk.rate().unwrap().divided_by(2048)),
            final(cmu)@ == old(cmu)@ + Self::enable_sequence(2048),
    {
        self.enable(2048, lfaclk, cmu)
    }

    /// Enables the `LFACLKRTC` and takes it from the `LFACLK` divided by 4096: stores the prescaler
    /// in `CMU_LFAPRESC0` and sets the enable bit in `CMU_LFACLKEN0`, each once `CMU_SYNCBUSY`
    /// shows that the register is free. The `LFACLK` has to have the clock capability.
    pub fn enable_div4096<'new_source>(
        self,
        lfaclk: &'new_source LfaClk<'new_source>,
        cmu: &mut Cmu,
    ) -> (lfaclkrtc: LfaClkRtc<'new_source>)
        requires
            lfaclk.rate().is_some(),
        ensures
            lfaclkrtc.source() == Setting::Configured(lfaclk),
            lfaclkrtc.division() == Setting::Configured(4096u16),
            lfaclkrtc.rate() == Some(lfaclk.rate().unwrap().divided_by(4096)),
            final(cmu)@ == old(cmu)@ + Self::enable_sequence(4096),
    {
        self.enable(4096, lfaclk, cmu)
    }

    /// Enables the `LFACLKRTC` and takes it from the `LFACLK` divided by 8192: stores the prescaler
    /// in `CMU_LFAPRESC0` and sets the enable bit in `CMU_LFACLKEN0`, each once `CMU_SYNCBUSY`
    /// shows that the register is free. The `LFACLK` has to have the clock capability.
    pub fn enable_div8192<'new_source>(
        self,
        lfaclk: &'new_source LfaClk<'new_source>,
        cmu: &mut Cmu,
    ) -> (lfaclkrtc: LfaClkRtc<'new_source>)
        requires
            lfaclk.rate().is_some(),
        ensures
            lfaclkrtc.source() == Setting::Configured(lfaclk),
            lfaclkrtc.division() == Setting::Configured(8192u16),
            lfaclkrtc.rate() == Some(lfaclk.rate().unwrap().divided_by(8192)),
            final(cmu)@ == old(cmu)@ + Self::enable_sequence(8192),
    {
        self.enable(8192, lfaclk, cmu)
    }

    /// Enables the `LFACLKRTC` and takes it from the `LFACLK` divided by 16384: stores the
    /// prescaler in `CMU_LFAPRESC0` and sets the enable bit in `CMU_LFACLKEN0`, each once
    /// `CMU_SYNCBUSY` shows that the register is free. The `LFACLK` has to have the clock
    /// capability.
    pub fn enable_div16384<'new_source>(
        self,
        lfaclk: &'new_source LfaClk<'new_source>,
        cmu: &mut Cmu,
    ) -> (lfaclkrtc: LfaClkRtc<'new_source>)
        requires
            lfaclk.rate().is_some(),
        ensures
            lfaclkrtc.source() == Setting::Configured(lfaclk),
            lfaclkrtc.division() == Setting::Configured(16384u16),
            lfaclkrtc.rate() == Some(lfaclk.rate().unwrap().divided_by(16384)),
            final(cmu)@ == old(cmu)@ + Self::enable_sequence(16384),
    {
        self.enable(16384, lfaclk, cmu)
    }

    /// Enables the `LFACLKRTC` and takes it from the `LFACLK` divided by 32768: stores the
    /// prescaler in `CMU_LFAPRESC0` and sets the enable bit in `CMU_LFACLKEN0`, each once
    /// `CMU_SYNCBUSY` shows that the register is free. The `LFACLK` has to have the clock
    /// capability.
    pub fn enable_div32768<'new_source>(
        self,
        lfaclk: &'new_source LfaClk<'new_source>,
        cmu: &mut Cmu,
    ) -> (lfaclkrtc: LfaClkRtc<'new_source>)
        requires
            lfaclk.rate().is_some(),
        ensures
            lfaclkrtc.source() == Setting::Configured(lfaclk),
            lfaclkrtc.division() == Setting::Configured(32768u16),
            lfaclkrtc.rate() == Some(lfaclk.rate().unwrap().divided_by(32768)),
            final(cmu)@ == old(cmu)@ + Self::enable_sequence(32768),
    {
        self.enable(32768, lfaclk, cmu)
    }

    /// Disables the `LFACLKRTC`, by clearing the enable bit in `CMU_LFACLKEN0` once `CMU_SYNCBUSY`
    /// shows that the register is free.
    pub fn disable(self, cmu: &mut Cmu) -> (lfaclkrtc: LfaClkRtc<'static>)
        ensures
            lfaclkrtc.source() == Setting::<&LfaClk<'static>>::Off,
            lfaclkrtc.division() == Setting::<u16>::Off,
            final(cmu)@ == old(cmu)@ + Domain::LfaClkRtc.disable_sequence(),
    {
        switch_off(Domain::LfaClkRtc, cmu);
        LfaClkRtc { source: Setting::Off, division: Setting::Off }
    }

    /// The divisor of a token is always one that the domain supports.
    pub proof fn lemma_divisor_supported(&self)
        requires
            self.well_formed(),
        ensures
            self.division() matches Setting::Configured(divisor) ==> Self::supports(
                divisor as nat,
            ),
    {
    }
}

impl<'source> Clock for LfaClkRtc<'source> {
    open spec fn spec_domain() -> Domain {
        Domain::LfaClkRtc
    }

    open spec fn well_formed(&self) -> bool {
        &&& self.source() matches Setting::Configured(source) ==> source.well_formed()
            && source.rate().is_some()
        &&& self.division() matches Setting::Configured(divisor) ==> Self::supports(divisor as nat)
    }

    open spec fn state(&self) -> ClockState {
        joint_state(self.source().state(), self.division().state())
    }

    open spec fn rate(&self) -> Option<Ratio> {
        match (self.source(), self.division()) {
            (Setting::Configured(source), Setting::Configured(divisor)) => match source.rate() {
                Some(rate) => Some(rate.divided_by(divisor as nat)),
                None => None,
            },
            _ => None,
        }
    }

    open spec fn root(&self) -> nat {
        match self.source() {
            Setting::Configured(source) => source.root(),
            _ => 0,
        }
    }

    open spec fn divisors(&self) -> Seq<nat> {
        match (self.source(), self.division()) {
            (Setting::Configured(source), Setting::Configured(divisor)) => source.divisors().push(
                divisor as nat,
            ),
            _ => Seq::empty(),
        }
    }

    open spec fn largest_division() -> nat {
        1073741824
    }

    fn domain() -> (domain: Domain) {
        Domain::LfaClkRtc
    }

    fn status(&self) -> (status: ClockState) {
        joint_status(self.source.status(), self.division.status())
    }

    fn is_clock(&self) -> (capable: bool) {
        proof {
            use_type_invariant(self);
        }
        match (self.source, self.division) {
            (Setting::Configured(_), Setting::Configured(_)) => true,
            _ => false,
        }
    }

    fn frequency(&self) -> (frequency: Option<Frequency>) {
        proof {
            use_type_invariant(self);
        }
        match (self.source, self.division) {
            (Setting::Configured(source), Setting::Configured(divisor)) => {
                match source.frequency() {
                    Some(frequency) => Some(frequency.divided_by(divisor as u64)),
                    None => None,
                }
            },
            _ => None,
        }
    }

    fn release(self, cmu: &mut Cmu) {
        switch_off(Domain::LfaClkRtc, cmu);
    }

    proof fn lemma_capability_gating(&self) {
    }

    proof fn lemma_frequency_propagation(&self) {
        let source = self.source()->Configured_0;
        let divisor = self.division()->Configured_0;
        source.lemma_frequency_propagation();
        lemma_chain_extends(Ratio::whole(source.root()), source.divisors(), divisor as nat);
    }

    proof fn lemma_division_bounded(&self) {
        if let (Setting::Configured(source), Setting::Configured(divisor)) = (
            self.source(),
            self.division(),
        ) {
            source.lemma_division_bounded();
            lemma_product_within(
                source.rate().unwrap().denominator,
                divisor as nat,
                32768,
                32768,
            );
        }
    }
}

impl<'source> Device for LfaClkRtc<'source> {

}

impl StaticDevice for LfaClkRtc<'static> {
    fn finalize(self) -> (device: &'static Self) {
        make_static(self)
    }
}

} // verus!
