//! The low-frequency clock C and the low-energy clock of USB behind it.

use vstd::prelude::*;
use super::registers::{Cmu, Field, LfcSelect, Operation, SyncBusyFlag};
use super::{switch_off, Clock, ClockState, Domain, LfRco, LfXo, Setting};
use crate::devices::{make_static, Device, StaticDevice};
use crate::frequency::{rate_of, Frequency, Ratio};

verus! {

/// The sources that the `LFCCLK` can select, each as the borrowed token of that source.
#[derive(Clone, Copy, Debug)]
pub enum LfcSource<'source> {
    LfRco(&'source LfRco),
    LfXo(&'source LfXo),
}

impl<'source> LfcSource<'source> {
    /// Whether the token of the source is well formed.
    pub open spec fn well_formed(self) -> bool {
        match self {
            LfcSource::LfRco(clock) => clock.well_formed(),
            LfcSource::LfXo(clock) => clock.well_formed(),
        }
    }

    /// The family of the state of the source.
    pub open spec fn state(self) -> ClockState {
        match self {
            LfcSource::LfRco(clock) => clock.state(),
            LfcSource::LfXo(clock) => clock.state(),
        }
    }

    /// The frequency of the source, if it has the clock capability.
    pub open spec fn rate(self) -> Option<Ratio> {
        match self {
            LfcSource::LfRco(clock) => clock.rate(),
            LfcSource::LfXo(clock) => clock.rate(),
        }
    }

    /// The frequency in hertz of the oscillator at the root of the source's chain.
    pub open spec fn root(self) -> nat {
        match self {
            LfcSource::LfRco(clock) => clock.root(),
            LfcSource::LfXo(clock) => clock.root(),
        }
    }

    /// The divisors between that oscillator and the source.
    pub open spec fn divisors(self) -> Seq<nat> {
        match self {
            LfcSource::LfRco(clock) => clock.divisors(),
            LfcSource::LfXo(clock) => clock.divisors(),
        }
    }

    /// The largest product of divisors that can lie between an oscillator and a source.
    pub open spec fn largest_division() -> nat {
        1
    }

    /// The frequency of the source, if it has the clock capability.
    pub fn frequency(&self) -> (frequency: Option<Frequency>)
        ensures
            rate_of(frequency) == self.rate(),
            frequency matches Some(f) ==> 0 < f@.denominator <= Self::largest_division(),
    {
        match self {
            LfcSource::LfRco(clock) => clock.frequency(),
            LfcSource::LfXo(clock) => clock.frequency(),
        }
    }

    /// A source has the clock capability if and only if it is configured.
    pub proof fn lemma_capability_gating(self)
        requires
            self.well_formed(),
        ensures
            self.rate().is_some() <==> self.state() == ClockState::Configured,
    {
        match self {
            LfcSource::LfRco(clock) => clock.lemma_capability_gating(),
            LfcSource::LfXo(clock) => clock.lemma_capability_gating(),
        }
    }

    /// The frequency of a configured source is that of its root oscillator, divided in turn by
    /// each divisor of its chain.
    pub proof fn lemma_frequency_propagation(self)
        requires
            self.well_formed(),
            self.state() == ClockState::Configured,
        ensures
            self.rate() == Some(Ratio::whole(self.root()).divided_by_all(self.divisors())),
    {
        match self {
            LfcSource::LfRco(clock) => clock.lemma_frequency_propagation(),
            LfcSource::LfXo(clock) => clock.lemma_frequency_propagation(),
        }
    }

    /// The product of the divisors of a source stays within the bound of the sources.
    pub proof fn lemma_division_bounded(self)
        requires
            self.well_formed(),
        ensures
            self.rate() matches Some(rate) ==> 0 < rate.denominator <= Self::largest_division(),
    {
        match self {
            LfcSource::LfRco(clock) => clock.lemma_division_bounded(),
            LfcSource::LfXo(clock) => clock.lemma_division_bounded(),
        }
    }
}

/// Ownership of the `LFCCLK`, the low-frequency clock C. It can drive the low-energy clock of
/// USB.
#[derive(Debug)]
pub struct LfcClk<'source> {
    source: Setting<LfcSource<'source>>,
}

impl<'source> LfcClk<'source> {
    /// What holds of every token that exists: it is well formed.
    #[verifier::type_invariant]
    pub open spec fn valid(self) -> bool {
        self.well_formed()
    }

    /// The source that the clock selects.
    pub closed spec fn spec_source(&self) -> Setting<LfcSource<'source>> {
        self.source
    }

    /// The source that the clock selects.
    #[verifier::when_used_as_spec(spec_source)]
    pub fn source(&self) -> (source: Setting<LfcSource<'source>>)
        ensures
            source == self.spec_source(),
    {
        self.source
    }

    /// The clock as reset leaves it for this library: off.
    pub(crate) fn claim_ownership() -> (lfcclk: LfcClk<'static>)
        ensures
            lfcclk.source() == Setting::<LfcSource<'static>>::Off,
    {
        LfcClk { source: Setting::Off }
    }

    /// Enables the `LFCCLK` and takes it from the `LFRCO`, by storing `LFC` in `CMU_LFCLKSEL`. The
    /// `LFRCO` has to have the clock capability.
    pub fn enable_lfrco<'new_source>(
        self,
        lfrco: &'new_source LfRco,
        cmu: &mut Cmu,
    ) -> (lfcclk: LfcClk<'new_source>)
        requires
            lfrco.rate().is_some(),
        ensures
            lfcclk.source() == Setting::Configured(LfcSource::LfRco(lfrco)),
            lfcclk.rate() == lfrco.rate(),
            final(cmu)@ == old(cmu)@ + seq![
                Operation::Modify(Field::Lfc(LfcSelect::LfRco)),
            ],
    {
        cmu.issue(Operation::Modify(Field::Lfc(LfcSelect::LfRco)));
        LfcClk { source: Setting::Configured(LfcSource::LfRco(lfrco)) }
    }

    /// Enables the `LFCCLK` and takes it from the `LFXO`, by storing `LFC` in `CMU_LFCLKSEL`. The
    /// `LFXO` has to have the clock capability.
    pub fn enable_lfxo<'new_source>(
        self,
        lfxo: &'new_source LfXo,
        cmu: &mut Cmu,
    ) -> (lfcclk: LfcClk<'new_source>)
        requires
            lfxo.rate().is_some(),
        ensures
            lfcclk.source() == Setting::Configured(LfcSource::LfXo(lfxo)),
            lfcclk.rate() == lfxo.rate(),
            final(cmu)@ == old(cmu)@ + seq![
                Operation::Modify(Field::Lfc(LfcSelect::LfXo)),
            ],
    {
        cmu.issue(Operation::Modify(Field::Lfc(LfcSelect::LfXo)));
        LfcClk { source: Setting::Configured(LfcSource::LfXo(lfxo)) }
    }

    /// Disables the `LFCCLK`, by storing `LFC` as disabled in `CMU_LFCLKSEL`.
    pub fn disable(self, cmu: &mut Cmu) -> (lfcclk: LfcClk<'static>)
        ensures
            lfcclk.source() == Setting::<LfcSource<'static>>::Off,
            final(cmu)@ == old(cmu)@ + Domain::LfcClk.disable_sequence(),
    {
        switch_off(Domain::LfcClk, cmu);
        LfcClk { source: Setting::Off }
    }
}

impl<'source> Clock for LfcClk<'source> {
    open spec fn spec_domain() -> Domain {
        Domain::LfcClk
    }

    open spec fn well_formed(&self) -> bool {
        self.source() matches Setting::Configured(source) ==> source.well_formed()
            && source.rate().is_some()
    }

    open spec fn state(&self) -> ClockState {
        self.source().state()
    }

    open spec fn rate(&self) -> Option<Ratio> {
        match self.source() {
            Setting::Configured(source) => source.rate(),
            _ => None,
        }
    }

    open spec fn root(&self) -> nat {
        match self.source() {
            Setting::Configured(source) => source.root(),
            _ => 0,
        }
    }

    open spec fn divisors(&self) -> Seq<nat> {
        match self.source() {
            Setting::Configured(source) => source.divisors(),
            _ => Seq::empty(),
        }
    }

    open spec fn largest_division() -> nat {
        1
    }

    fn domain() -> (domain: Domain) {
        Domain::LfcClk
    }

    fn status(&self) -> (status: ClockState) {
        self.source.status()
    }

    fn is_clock(&self) -> (capable: bool) {
        proof {
            use_type_invariant(self);
        }
        match self.source {
            Setting::Configured(_) => true,
            _ => false,
        }
    }

    fn frequency(&self) -> (frequency: Option<Frequency>) {
        match self.source {
            Setting::Configured(source) => source.frequency(),
            _ => None,
        }
    }

    fn release(self, cmu: &mut Cmu) {
        switch_off(Domain::LfcClk, cmu);
    }

    proof fn lemma_capability_gating(&self) {
    }

    proof fn lemma_frequency_propagation(&self) {
    }

    proof fn lemma_division_bounded(&self) {
    }
}

impl<'source> Device for LfcClk<'source> {

}

impl StaticDevice for LfcClk<'static> {
    fn finalize(self) -> (device: &'static Self) {
        make_static(self)
    }
}

/// Ownership of the `LFCCLKUSBLE`, the low-energy clock of USB.
#[derive(Debug)]
pub struct LfcClkUsbLe<'source> {
    source: Setting<&'source LfcClk<'source>>,
}

impl<'source> LfcClkUsbLe<'source> {
    /// What holds of every token that exists: it is well formed.
    #[verifier::type_invariant]
    pub open spec fn valid(self) -> bool {
        self.well_formed()
    }

    /// The `LFCCLK` that the clock is taken from.
    pub closed spec fn spec_source(&self) -> Setting<&'source LfcClk<'source>> {
        self.source
    }

    /// The `LFCCLK` that the clock is taken from.
    #[verifier::when_used_as_spec(spec_source)]
    pub fn source(&self) -> (source: Setting<&'source LfcClk<'source>>)
        ensures
            source == self.spec_source(),
    {
        self.source
    }

    /// The clock as reset leaves it: off.
    pub(crate) fn claim_ownership() -> (lfcclkusble: LfcClkUsbLe<'static>)
        ensures
            lfcclkusble.source() == Setting::<&LfcClk<'static>>::Off,
    {
        LfcClkUsbLe { source: Setting::Off }
    }

    /// Enables the `LFCCLKUSBLE`, by setting `USBLE` in `CMU_LFCCLKEN0` once `CMU_SYNCBUSY` shows
    /// that the register is free. The `LFCCLK` has to have the clock capability.
    pub fn enable<'new_source>(
        self,
        lfcclk: &'new_source LfcClk<'new_source>,
        cmu: &mut Cmu,
    ) -> (lfcclkusble: LfcClkUsbLe<'new_source>)
        requires
            lfcclk.rate().is_some(),
        ensures
            lfcclkusble.source() == Setting::Configured(lfcclk),
            lfcclkusble.rate() == lfcclk.rate(),
            final(cmu)@ == old(cmu)@ + seq![
                Operation::WaitUntilClear(SyncBusyFlag::LfcClkEn0),
                Operation::Write(Field::UsbLeEnable(true)),
            ],
    {
        cmu.issue(Operation::Write(Field::UsbLeEnable(true)));
        LfcClkUsbLe { source: Setting::Configured(lfcclk) }
    }

    /// Disables the `LFCCLKUSBLE`, by clearing `USBLE` in `CMU_LFCCLKEN0` once `CMU_SYNCBUSY`
    /// shows that the register is free.
    pub fn disable(self, cmu: &mut Cmu) -> (lfcclkusble: LfcClkUsbLe<'static>)
        ensures
            lfcclkusble.source() == Setting::<&LfcClk<'static>>::Off,
            final(cmu)@ == old(cmu)@ + Domain::LfcClkUsbLe.disable_sequence(),
    {
        switch_off(Domain::LfcClkUsbLe, cmu);
        LfcClkUsbLe { source: Setting::Off }
    }
}

impl<'source> Clock for LfcClkUsbLe<'source> {
    open spec fn spec_domain() -> Domain {
        Domain::LfcClkUsbLe
    }

    open spec fn well_formed(&self) -> bool {
        self.source() matches Setting::Configured(source) ==> source.well_formed()
            && source.rate().is_some()
    }

    open spec fn state(&self) -> ClockState {
        self.source().state()
    }

    open spec fn rate(&self) -> Option<Ratio> {
        match self.source() {
            Setting::Configured(source) => source.rate(),
            _ => None,
        }
    }

    open spec fn root(&self) -> nat {
        match self.source() {
            Setting::Configured(source) => source.root(),
            _ => 0,
        }
    }

    open spec fn divisors(&self) -> Seq<nat> {
        match self.source() {
            Setting::Configured(source) => source.divisors(),
            _ => Seq::empty(),
        }
    }

    open spec fn largest_division() -> nat {
        1
    }

    fn domain() -> (domain: Domain) {
        Domain::LfcClkUsbLe
    }

    fn status(&self) -> (status: ClockState) {
        self.source.status()
    }

    fn is_clock(&self) -> (capable: bool) {
        proof {
            use_type_invariant(self);
        }
        match self.source {
            Setting::Configured(_) => true,
            _ => false,
        }
    }

    fn frequency(&self) -> (frequency: Option<Frequency>) {
        match self.source {
            Setting::Configured(source) => source.frequency(),
            _ => None,
        }
    }

    fn release(self, cmu: &mut Cmu) {
        switch_off(Domain::LfcClkUsbLe, cmu);
    }

    proof fn lemma_capability_gating(&self) {
    }

    proof fn lemma_frequency_propagation(&self) {
    }

    proof fn lemma_division_bounded(&self) {
    }
}

impl<'source> Device for LfcClkUsbLe<'source> {

}

impl StaticDevice for LfcClkUsbLe<'static> {
    fn finalize(self) -> (device: &'static Self) {
        make_static(self)
    }
}

} // verus!
