//! The clock of the USB core.

use vstd::prelude::*;
use super::registers::{Cmu, CoreClockGate, Field, Operation, StatusFlag, UsbcClkSelect};
use super::{switch_off, Clock, ClockState, Domain, LfRco, LfXo, Setting, UsHfRco};
use crate::devices::{make_static, Device, StaticDevice};
use crate::frequency::{rate_of, Frequency, Ratio};

verus! {

/// The sources that the `HFCORECLKUSBC` can select, each as the borrowed token of that source.
#[derive(Clone, Copy, Debug)]
pub enum UsbcSource<'source> {
    LfXo(&'source LfXo),
    LfRco(&'source LfRco),
    UsHfRco(&'source UsHfRco),
}

impl<'source> UsbcSource<'source> {
    /// Whether the token of the source is well formed.
    pub open spec fn well_formed(self) -> bool {
        match self {
            UsbcSource::LfXo(clock) => clock.well_formed(),
            UsbcSource::LfRco(clock) => clock.well_formed(),
            UsbcSource::UsHfRco(clock) => clock.well_formed(),
        }
    }

    /// The family of the state of the source.
    pub open spec fn state(self) -> ClockState {
        match self {
            UsbcSource::LfXo(clock) => clock.state(),
            UsbcSource::LfRco(clock) => clock.state(),
            UsbcSource::UsHfRco(clock) => clock.state(),
        }
    }

    /// The frequency of the source, if it has the clock capability.
    pub open spec fn rate(self) -> Option<Ratio> {
        match self {
            UsbcSource::LfXo(clock) => clock.rate(),
            UsbcSource::LfRco(clock) => clock.rate(),
            UsbcSource::UsHfRco(clock) => clock.rate(),
        }
    }

    /// The frequency in hertz of the oscillator at the root of the source's chain.
    pub open spec fn root(self) -> nat {
        match self {
            UsbcSource::LfXo(clock) => clock.root(),
            UsbcSource::LfRco(clock) => clock.root(),
            UsbcSource::UsHfRco(clock) => clock.root(),
        }
    }

    /// The divisors between that oscillator and the source.
    pub open spec fn divisors(self) -> Seq<nat> {
        match self {
            UsbcSource::LfXo(clock) => clock.divisors(),
            UsbcSource::LfRco(clock) => clock.divisors(),
            UsbcSource::UsHfRco(clock) => clock.divisors(),
        }
    }

    /// The largest product of divisors that can lie between an oscillator and a source.
    pub open spec fn largest_division() -> nat {
        1
    }

    /// The frequency of the source, if it has the clock capability.
    pub fn frequency(&self) -> (frequency: Option<Frequency>)
        ensures
            rate_of(frequency) == self.rate(),
            frequency matches Some(f) ==> 0 < f@.denominator <= Self::largest_division(),
    {
        match self {
            UsbcSource::LfXo(clock) => clock.frequency(),
            UsbcSource::LfRco(clock) => clock.frequency(),
            UsbcSource::UsHfRco(clock) => clock.frequency(),
        }
    }

    /// A source has the clock capability if and only if it is configured.
    pub proof fn lemma_capability_gating(self)
        requires
            self.well_formed(),
        ensures
            self.rate().is_some() <==> self.state() == ClockState::Configured,
    {
        match self {
            UsbcSource::LfXo(clock) => clock.lemma_capability_gating(),
            UsbcSource::LfRco(clock) => clock.lemma_capability_gating(),
            UsbcSource::UsHfRco(clock) => clock.lemma_capability_gating(),
        }
    }

    /// The frequency of a configured source is that of its root oscillator, divided in turn by
    /// each divisor of its chain.
    pub proof fn lemma_frequency_propagation(self)
        requires
            self.well_formed(),
            self.state() == ClockState::Configured,
        ensures
            self.rate() == Some(Ratio::whole(self.root()).divided_by_all(self.divisors())),
    {
        match self {
            UsbcSource::LfXo(clock) => clock.lemma_frequency_propagation(),
            UsbcSource::LfRco(clock) => clock.lemma_frequency_propagation(),
            UsbcSource::UsHfRco(clock) => clock.lemma_frequency_propagation(),
        }
    }

    /// The product of the divisors of a source stays within the bound of the sources.
    pub proof fn lemma_division_bounded(self)
        requires
            self.well_formed(),
        ensures
            self.rate() matches Some(rate) ==> 0 < rate.denominator <= Self::largest_division(),
    {
        match self {
            UsbcSource::LfXo(clock) => clock.lemma_division_bounded(),
            UsbcSource::LfRco(clock) => clock.lemma_division_bounded(),
            UsbcSource::UsHfRco(clock) => clock.lemma_division_bounded(),
        }
    }
}

/// Ownership of the `HFCORECLKUSBC`, the clock of the USB core.
///
/// The name suggests that the clock is taken from the `HFCORECLK`. It is taken from the `LFXO`,
/// the `LFRCO` or the `USHFRCO`.
#[derive(Debug)]
pub struct HfCoreClkUsbC<'source> {
    source: Setting<UsbcSource<'source>>,
}

impl<'source> HfCoreClkUsbC<'source> {
    /// What holds of every token that exists: it is well formed.
    #[verifier::type_invariant]
    pub open spec fn valid(self) -> bool {
        self.well_formed()
    }

    /// The source that the clock selects.
    pub closed spec fn spec_source(&self) -> Setting<UsbcSource<'source>> {
        self.source
    }

    /// The source that the clock selects.
    #[verifier::when_used_as_spec(spec_source)]
    pub fn source(&self) -> (source: Setting<UsbcSource<'source>>)
        ensures
            source == self.spec_source(),
    {
        self.source
    }

    /// The clock as reset leaves it: off.
    pub(crate) fn claim_ownership() -> (hfcoreclkusbc: HfCoreClkUsbC<'static>)
        ensures
            hfcoreclkusbc.source() == Setting::<UsbcSource<'static>>::Off,
    {
        HfCoreClkUsbC { source: Setting::Off }
    }

    /// Enables the `HFCORECLKUSBC` and takes it from the `LFXO`: stores `USBCCLKSEL` of `CMU_CMD`,
    /// sets `USBC` in `CMU_HFCORECLKEN0`, and waits until `CMU_STATUS` shows the selection. The
    /// `LFXO` has to have the clock capability.
    pub fn enable_lfxo<'new_source>(
        self,
        lfxo: &'new_source LfXo,
        cmu: &mut Cmu,
    ) -> (hfcoreclkusbc: HfCoreClkUsbC<'new_source>)
        requires
            lfxo.rate().is_some(),
        ensures
            hfcoreclkusbc.source() == Setting::Configured(UsbcSource::LfXo(lfxo)),
            hfcoreclkusbc.rate() == lfxo.rate(),
            final(cmu)@ == old(cmu)@ + seq![
                Operation::Write(Field::UsbcClkSel(UsbcClkSelect::LfXo)),
                Operation::Modify(Field::CoreClockEnable(CoreClockGate::Usbc, true)),
                Operation::WaitUntilSet(StatusFlag::UsbcLfXoSel),
            ],
    {
        cmu.issue(Operation::Write(Field::UsbcClkSel(UsbcClkSelect::LfXo)));
        cmu.issue(Operation::Modify(Field::CoreClockEnable(CoreClockGate::Usbc, true)));
        cmu.issue(Operation::WaitUntilSet(StatusFlag::UsbcLfXoSel));
        HfCoreClkUsbC { source: Setting::Configured(UsbcSource::LfXo(lfxo)) }
    }

    /// Enables the `HFCORECLKUSBC` and takes it from the `LFRCO`: stores `USBCCLKSEL` of `CMU_CMD`,
    /// sets `USBC` in `CMU_HFCORECLKEN0`, and waits until `CMU_STATUS` shows the selection. The
    /// `LFRCO` has to have the clock capability.
    pub fn enable_lfrco<'new_source>(
        self,
        lfrco: &'new_source LfRco,
        cmu: &mut Cmu,
    ) -> (hfcoreclkusbc: HfCoreClkUsbC<'new_source>)
        requires
            lfrco.rate().is_some(),
        ensures
            hfcoreclkusbc.source() == Setting::Configured(UsbcSource::LfRco(lfrco)),
            hfcoreclkusbc.rate() == lfrco.rate(),
            final(cmu)@ == old(cmu)@ + seq![
                Operation::Write(Field::UsbcClkSel(UsbcClkSelect::LfRco)),
                Operation::Modify(Field::CoreClockEnable(CoreClockGate::Usbc, true)),
                Operation::WaitUntilSet(StatusFlag::UsbcLfRcoSel),
            ],
    {
        cmu.issue(Operation::Write(Field::UsbcClkSel(UsbcClkSelect::LfRco)));
        cmu.issue(Operation::Modify(Field::CoreClockEnable(CoreClockGate::Usbc, true)));
        cmu.issue(Operation::WaitUntilSet(StatusFlag::UsbcLfRcoSel));
        HfCoreClkUsbC { source: Setting::Configured(UsbcSource::LfRco(lfrco)) }
    }

    /// Enables the `HFCORECLKUSBC` and takes it from the `USHFRCO`: stores `USBCCLKSEL` of
    /// `CMU_CMD`, sets `USBC` in `CMU_HFCORECLKEN0`, and waits until `CMU_STATUS` shows the
    /// selection. The `USHFRCO` has to have the clock capability.
    pub fn enable_ushfrco<'new_source>(
        self,
        ushfrco: &'new_source UsHfRco,
        cmu: &mut Cmu,
    ) -> (hfcoreclkusbc: HfCoreClkUsbC<'new_source>)
        requires
            ushfrco.rate().is_some(),
        ensures
            hfcoreclkusbc.source() == Setting::Configured(UsbcSource::UsHfRco(ushfrco)),
            hfcoreclkusbc.rate() == ushfrco.rate(),
            final(cmu)@ == old(cmu)@ + seq![
                Operation::Write(Field::UsbcClkSel(UsbcClkSelect::UsHfRco)),
                Operation::Modify(Field::CoreClockEnable(CoreClockGate::Usbc, true)),
                Operation::WaitUntilSet(StatusFlag::UsbcUsHfRcoSel),
            ],
    {
        cmu.issue(Operation::Write(Field::UsbcClkSel(UsbcClkSelect::UsHfRco)));
        cmu.issue(Operation::Modify(Field::CoreClockEnable(CoreClockGate::Usbc, true)));
        cmu.issue(Operation::WaitUntilSet(StatusFlag::UsbcUsHfRcoSel));
        HfCoreClkUsbC { source: Setting::Configured(UsbcSource::UsHfRco(ushfrco)) }
    }

    /// Disables the `HFCORECLKUSBC`, by clearing `USBC` in `CMU_HFCORECLKEN0`.
    pub fn disable(self, cmu: &mut Cmu) -> (hfcoreclkusbc: HfCoreClkUsbC<'static>)
        ensures
            hfcoreclkusbc.source() == Setting::<UsbcSource<'static>>::Off,
            final(cmu)@ == old(cmu)@ + Domain::HfCoreClkUsbC.disable_sequence(),
    {
        switch_off(Domain::HfCoreClkUsbC, cmu);
        HfCoreClkUsbC { source: Setting::Off }
    }
}

impl<'source> Clock for HfCoreClkUsbC<'source> {
    open spec fn spec_domain() -> Domain {
        Domain::HfCoreClkUsbC
    }

    open spec fn well_formed(&self) -> bool {
        self.source() matches Setting::Configured(source) ==> source.well_formed()
            && source.rate().is_some()
    }

    open spec fn state(&self) -> ClockState {
        self.source().state()
    }

    open spec fn rate(&self) -> Option<Ratio> {
        match self.source() {
            Setting::Configured(source) => source.rate(),
            _ => None,
        }
    }

    open spec fn root(&self) -> nat {
        match self.source() {
            Setting::Configured(source) => source.root(),
            _ => 0,
        }
    }

    open spec fn divisors(&self) -> Seq<nat> {
        match self.source() {
            Setting::Configured(source) => source.divisors(),
            _ => Seq::empty(),
        }
    }

    open spec fn largest_division() -> nat {
        1
    }

    fn domain() -> (domain: Domain) {
        Domain::HfCoreClkUsbC
    }

    fn status(&self) -> (status: ClockState) {
        self.source.status()
    }

    fn is_clock(&self) -> (capable: bool) {
        proof {
            use_type_invariant(self);
        }
        match self.source {
            Setting::Configured(_) => true,
            _ => false,
        }
    }

    fn frequency(&self) -> (frequency: Option<Frequency>) {
        match self.source {
            Setting::Configured(source) => source.frequency(),
            _ => None,
        }
    }

    fn release(self, cmu: &mut Cmu) {
        switch_off(Domain::HfCoreClkUsbC, cmu);
    }

    proof fn lemma_capability_gating(&self) {
    }

    proof fn lemma_frequency_propagation(&self) {
    }

    proof fn lemma_division_bounded(&self) {
    }
}

impl<'source> Device for HfCoreClkUsbC<'source> {

}

impl StaticDevice for HfCoreClkUsbC<'static> {
    fn finalize(self) -> (device: &'static Self) {
        make_static(self)
    }
}

} // verus!
