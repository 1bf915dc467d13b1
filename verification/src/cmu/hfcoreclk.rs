//! The core clock and the gates behind it.

use vstd::prelude::*;
use super::registers::{Cmu, CoreClockGate, Field, Operation};
use super::{
    joint_state, joint_status, lemma_product_within, power_of_two, switch_off, Clock, ClockState,
    Domain, HfClk, Setting,
};
use crate::devices::{make_static, Device, StaticDevice};
use crate::frequency::{lemma_chain_extends, Frequency, Ratio};

verus! {

/// Ownership of the `HFCORECLK`, the high-frequency core clock, which drives the processor and
/// the peripherals that are coupled closely to it.
///
/// The hardware cannot switch this clock off, and with the processor running on it nobody would
/// want it to. So unlike most other clocks this one stays on when its token is given up.
#[derive(Debug)]
pub struct HfCoreClk<'source> {
    source: Setting<&'source HfClk<'source>>,
    division: Setting<u16>,
}

impl<'source> HfCoreClk<'source> {
    /// What holds of every token that exists: it is well formed.
    #[verifier::type_invariant]
    pub open spec fn valid(self) -> bool {
        self.well_formed()
    }

    /// The `HFCLK` that the clock is taken from.
    pub closed spec fn spec_source(&self) -> Setting<&'source HfClk<'source>> {
        self.source
    }

    /// The `HFCLK` that the clock is taken from.
    #[verifier::when_used_as_spec(spec_source)]
    pub fn source(&self) -> (source: Setting<&'source HfClk<'source>>)
        ensures
            source == self.spec_source(),
    {
        self.source
    }

    /// The divisor.
    pub closed spec fn spec_division(&self) -> Setting<u16> {
        self.division
    }

    /// The divisor.
    #[verifier::when_used_as_spec(spec_division)]
    pub fn division(&self) -> (division: Setting<u16>)
        ensures
            division == self.spec_division(),
    {
        self.division
    }

    /// The divisors that the domain supports: the powers of two from 1 to 512.
    pub open spec fn supports(divisor: nat) -> bool {
        power_of_two(divisor) && divisor <= 512
    }

    /// The clock as reset leaves it for this library: running, with a divisor that is not
    /// recorded.
    pub(crate) fn claim_ownership() -> (hfcoreclk: HfCoreClk<'static>)
        ensures
            hfcoreclk.source() == Setting::<&HfClk<'static>>::Uninitialized,
            hfcoreclk.division() == Setting::<u16>::Uninitialized,
    {
        HfCoreClk { source: Setting::Uninitialized, division: Setting::Uninitialized }
    }

    /// What setting the divider issues: one store of `CMU_HFCORECLKDIV`, which leaves the other
    /// field of that register at its reset value.
    pub open spec fn enable_sequence(divisor: u16) -> Seq<Operation> {
        seq![
            Operation::Write(Field::HfCoreClkDiv(divisor)),
        ]
    }

    fn enable<'new_source>(
        self,
        divisor: u16,
        source: &'new_source HfClk<'new_source>,
        cmu: &mut Cmu,
    ) -> (hfcoreclk: HfCoreClk<'new_source>)
        requires
            Self::supports(divisor as nat),
            source.rate().is_some(),
        ensures
            hfcoreclk.source() == Setting::Configured(source),
            hfcoreclk.division() == Setting::Configured(divisor),
            final(cmu)@ == old(cmu)@ + Self::enable_sequence(divisor),
    {
        proof {
            use_type_invariant(source);
        }
        cmu.issue(Operation::Write(Field::HfCoreClkDiv(divisor)));
        HfCoreClk { source: Setting::Configured(source), division: Setting::Configured(divisor) }
    }

    /// Takes the `HFCORECLK` from the `HFCLK` divided by 1, by storing `HFCORECLKDIV` of
    /// `CMU_HFCORECLKDIV`. The `HFCLK` has to have the clock capability.
    pub fn div1<'new_source>(
        self,
        hfclk: &'new_source HfClk<'new_source>,
        cmu: &mut Cmu,
    ) -> (hfcoreclk: HfCoreClk<'new_source>)
        requires
            hfclk.rate().is_some(),
        ensures
            hfcoreclk.source() == Setting::Configured(hfclk),
            hfcoreclk.division() == Setting::Configured(1u16),
            hfcoreclk.rate() == Some(hfclk.rate().unwrap().divided_by(1)),
            final(cmu)@ == old(cmu)@ + Self::enable_sequence(1),
    {
        self.enable(1, hfclk, cmu)
    }

    /// Takes the `HFCORECLK` from the `HFCLK` divided by 2, by storing `HFCORECLKDIV` of
    /// `CMU_HFCORECLKDIV`. The `HFCLK` has to have the clock capability.
    pub fn div2<'new_source>(
        self,
        hfclk: &'new_source HfClk<'new_source>,
        cmu: &mut Cmu,
    ) -> (hfcoreclk: HfCoreClk<'new_source>)
        requires
            hfclk.rate().is_some(),
        ensures
            hfcoreclk.source() == Setting::Configured(hfclk),
            hfcoreclk.division() == Setting::Configured(2u16),
            hfcoreclk.rate() == Some(hfclk.rate().unwrap().divided_by(2)),
            final(cmu)@ == old(cmu)@ + Self::enable_sequence(2),
    {
        self.enable(2, hfclk, cmu)
    }

    /// Takes the `HFCORECLK` from the `HFCLK` divided by 4, by storing `HFCORECLKDIV` of
    /// `CMU_HFCORECLKDIV`. The `HFCLK` has to have the clock capability.
    pub fn div4<'new_source>(
        self,
        hfclk: &'new_source HfClk<'new_source>,
        cmu: &mut Cmu,
    ) -> (hfcoreclk: HfCoreClk<'new_source>)
        requires
            hfclk.rate().is_some(),
        ensures
            hfcoreclk.source() == Setting::Configured(hfclk),
            hfcoreclk.division() == Setting::Configured(4u16),
            hfcoreclk.rate() == Some(hfclk.rate().unwrap().divided_by(4)),
            final(cmu)@ == old(cmu)@ + Self::enable_sequence(4),
    {
        self.enable(4, hfclk, cmu)
    }

    /// Takes the `HFCORECLK` from the `HFCLK` divided by 8, by storing `HFCORECLKDIV` of
    /// `CMU_HFCORECLKDIV`. The `HFCLK` has to have the clock capability.
    pub fn div8<'new_source>(
        self,
        hfclk: &'new_source HfClk<'new_source>,
        cmu: &mut Cmu,
    ) -> (hfcoreclk: HfCoreClk<'new_source>)
        requires
            hfclk.rate().is_some(),
        ensures
            hfcoreclk.source() == Setting::Configured(hfclk),
            hfcoreclk.division() == Setting::Configured(8u16),
            hfcoreclk.rate() == Some(hfclk.rate().unwrap().divided_by(8)),
            final(cmu)@ == old(cmu)@ + Self::enable_sequence(8),
    {
        self.enable(8, hfclk, cmu)
    }

    /// Takes the `HFCORECLK` from the `HFCLK` divided by 16, by storing `HFCORECLKDIV` of
    /// `CMU_HFCORECLKDIV`. The `HFCLK` has to have the clock capability.
    pub fn div16<'new_source>(
        self,
        hfclk: &'new_source HfClk<'new_source>,
        cmu: &mut Cmu,
    ) -> (hfcoreclk: HfCoreClk<'new_source>)
        requires
            hfclk.rate().is_some(),
        ensures
            hfcoreclk.source() == Setting::Configured(hfclk),
            hfcoreclk.division() == Setting::Configured(16u16),
            hfcoreclk.rate() == Some(hfclk.rate().unwrap().divided_by(16)),
            final(cmu)@ == old(cmu)@ + Self::enable_sequence(16),
    {
        self.enable(16, hfclk, cmu)
    }

    /// Takes the `HFCORECLK` from the `HFCLK` divided by 32, by storing `HFCORECLKDIV` of
    /// `CMU_HFCORECLKDIV`. The `HFCLK` has to have the clock capability.
    pub fn div32<'new_source>(
        self,
        hfclk: &'new_source HfClk<'new_source>,
        cmu: &mut Cmu,
    ) -> (hfcoreclk: HfCoreClk<'new_source>)
        requires
            hfclk.rate().is_some(),
        ensures
            hfcoreclk.source() == Setting::Configured(hfclk),
            hfcoreclk.division() == Setting::Configured(32u16),
            hfcoreclk.rate() == Some(hfclk.rate().unwrap().divided_by(32)),
            final(cmu)@ == old(cmu)@ + Self::enable_sequence(32),
    {
        self.enable(32, hfclk, cmu)
    }

    /// Takes the `HFCORECLK` from the `HFCLK` divided by 64, by storing `HFCORECLKDIV` of
    /// `CMU_HFCORECLKDIV`. The `HFCLK` has to have the clock capability.
    pub fn div64<'new_source>(
        self,
        hfclk: &'new_source HfClk<'new_source>,
        cmu: &mut Cmu,
    ) -> (hfcoreclk: HfCoreClk<'new_source>)
        requires
            hfclk.rate().is_some(),
        ensures
            hfcoreclk.source() == Setting::Configured(hfclk),
            hfcoreclk.division() == Setting::Configured(64u16),
            hfcoreclk.rate() == Some(hfclk.rate().unwrap().divided_by(64)),
            final(cmu)@ == old(cmu)@ + Self::enable_sequence(64),
    {
        self.enable(64, hfclk, cmu)
    }

    /// Takes the `HFCORECLK` from the `HFCLK` divided by 128, by storing `HFCORECLKDIV` of
    /// `CMU_HFCORECLKDIV`. The `HFCLK` has to have the clock capability.
    pub fn div128<'new_source>(
        self,
        hfclk: &'new_source HfClk<'new_source>,
        cmu: &mut Cmu,
    ) -> (hfcoreclk: HfCoreClk<'new_source>)
        requires
            hfclk.rate().is_some(),
        ensures
            hfcoreclk.source() == Setting::Configured(hfclk),
            hfcoreclk.division() == Setting::Configured(128u16),
            hfcoreclk.rate() == Some(hfclk.rate().unwrap().divided_by(128)),
            final(cmu)@ == old(cmu)@ + Self::enable_sequence(128),
    {
        self.enable(128, hfclk, cmu)
    }

    /// Takes the `HFCORECLK` from the `HFCLK` divided by 256, by storing `HFCORECLKDIV` of
    /// `CMU_HFCORECLKDIV`. The `HFCLK` has to have the clock capability.
    pub fn div256<'new_source>(
        self,
        hfclk: &'new_source HfClk<'new_source>,
        cmu: &mut Cmu,
    ) -> (hfcoreclk: HfCoreClk<'new_source>)
        requires
            hfclk.rate().is_some(),
        ensures
            hfcoreclk.source() == Setting::Configured(hfclk),
            hfcoreclk.division() == Setting::Configured(256u16),
            hfcoreclk.rate() == Some(hfclk.rate().unwrap().divided_by(256)),
            final(cmu)@ == old(cmu)@ + Self::enable_sequence(256),
    {
        self.enable(256, hfclk, cmu)
    }

    /// Takes the `HFCORECLK` from the `HFCLK` divided by 512, by storing `HFCORECLKDIV` of
    /// `CMU_HFCORECLKDIV`. The `HFCLK` has to have the clock capability.
    pub fn div512<'new_source>(
        self,
        hfclk: &'new_source HfClk<'new_source>,
        cmu: &mut Cmu,
    ) -> (hfcoreclk: HfCoreClk<'new_source>)
        requires
            hfclk.rate().is_some(),
        ensures
            hfcoreclk.source() == Setting::Configured(hfclk),
            hfcoreclk.division() == Setting::Configured(512u16),
            hfcoreclk.rate() == Some(hfclk.rate().unwrap().divided_by(512)),
            final(cmu)@ == old(cmu)@ + Self::enable_sequence(512),
    {
        self.enable(512, hfclk, cmu)
    }

    /// The divisor of a token is always one that the domain supports.
    pub proof fn lemma_divisor_supported(&self)
        requires
            self.well_formed(),
        ensures
            self.division() matches Setting::Configured(divisor) ==> Self::supports(
                divisor as nat,
            ),
    {
    }
}

impl<'source> Clock for HfCoreClk<'source> {
    open spec fn spec_domain() -> Domain {
        Domain::HfCoreClk
    }

    open spec fn well_formed(&self) -> bool {
        &&& self.source() matches Setting::Configured(source) ==> source.well_formed()
            && source.rate().is_some()
        &&& self.division() matches Setting::Configured(divisor) ==> Self::supports(divisor as nat)
    }

    open spec fn state(&self) -> ClockState {
        joint_state(self.source().state(), self.division().state())
    }

    open spec fn rate(&self) -> Option<Ratio> {
        match (self.source(), self.division()) {
            (Setting::Configured(source), Setting::Configured(divisor)) => match source.rate() {
                Some(rate) => Some(rate.divided_by(divisor as nat)),
                None => None,
            },
            _ => None,
        }
    }

    open spec fn root(&self) -> nat {
        match self.source() {
            Setting::Configured(source) => source.root(),
            _ => 0,
        }
    }

    open spec fn divisors(&self) -> Seq<nat> {
        match (self.source(), self.division()) {
            (Setting::Configured(source), Setting::Configured(divisor)) => source.divisors().push(
                divisor as nat,
            ),
            _ => Seq::empty(),
        }
    }

    open spec fn largest_division() -> nat {
        8192
    }

    fn domain() -> (domain: Domain) {
        Domain::HfCoreClk
    }

    fn status(&self) -> (status: ClockState) {
        joint_status(self.source.status(), self.division.status())
    }

    fn is_clock(&self) -> (capable: bool) {
        proof {
            use_type_invariant(self);
        }
        match (self.source, self.division) {
            (Setting::Configured(_), Setting::Configured(_)) => true,
            _ => false,
        }
    }

    fn frequency(&self) -> (frequency: Option<Frequency>) {
        proof {
            use_type_invariant(self);
        }
        match (self.source, self.division) {
            (Setting::Configured(source), Setting::Configured(divisor)) => {
                match source.frequency() {
                    Some(frequency) => Some(frequency.divided_by(divisor as u64)),
                    None => None,
                }
            },
            _ => None,
        }
    }

    fn release(self, cmu: &mut Cmu) {
        switch_off(Domain::HfCoreClk, cmu);
    }

    proof fn lemma_capability_gating(&self) {
    }

    proof fn lemma_frequency_propagation(&self) {
        let source = self.source()->Configured_0;
        let divisor = self.division()->Configured_0;
        source.lemma_frequency_propagation();
        lemma_chain_extends(Ratio::whole(source.root()), source.divisors(), divisor as nat);
    }

    proof fn lemma_division_bounded(&self) {
        if let (Setting::Configured(source), Setting::Configured(divisor)) = (
            self.source(),
            self.division(),
        ) {
            source.lemma_division_bounded();
            lemma_product_within(
                source.rate().unwrap().denominator,
                divisor as nat,
                16,
                512,
            );
        }
    }
}

impl<'source> Device for HfCoreClk<'source> {

}

impl StaticDevice for HfCoreClk<'static> {
    fn finalize(self) -> (device: &'static Self) {
        make_static(self)
    }
}

/// Ownership of one of the gates that pass the `HFCORECLK` on to a peripheral. The gates differ
/// in the position of their enable bit in `CMU_HFCORECLKEN0`, which is part of their type.
#[derive(Debug)]
pub struct HfCoreClkGate<'source, const GATE: u8> {
    source: Setting<&'source HfCoreClk<'source>>,
}

/// Ownership of the `HFCORECLKAES`, the clock of the AES peripheral.
pub type HfCoreClkAes<'source> = HfCoreClkGate<'source, 0>;

/// Ownership of the `HFCORECLKDMA`, the clock of the DMA peripheral.
pub type HfCoreClkDma<'source> = HfCoreClkGate<'source, 1>;

/// Ownership of the `HFCORECLKUSB`, the clock of the USB peripheral.
pub type HfCoreClkUsb<'source> = HfCoreClkGate<'source, 2>;

/// The enable bit of the clock at a position.
pub open spec fn core_gate_bit(index: u8) -> CoreClockGate {
    if index == 0 {
        CoreClockGate::Aes
    } else if index == 1 {
        CoreClockGate::Dma
    } else {
        CoreClockGate::Usb
    }
}

/// The domain of the clock at a position.
pub open spec fn core_gate_domain(index: u8) -> Domain {
    if index == 0 {
        Domain::HfCoreClkAes
    } else if index == 1 {
        Domain::HfCoreClkDma
    } else {
        Domain::HfCoreClkUsb
    }
}

impl<'source, const GATE: u8> HfCoreClkGate<'source, GATE> {
    /// What holds of every token that exists: it is well formed.
    #[verifier::type_invariant]
    pub open spec fn valid(self) -> bool {
        self.well_formed()
    }

    /// The `HFCORECLK` that is passed on.
    pub closed spec fn spec_source(&self) -> Setting<&'source HfCoreClk<'source>> {
        self.source
    }

    /// The `HFCORECLK` that is passed on.
    #[verifier::when_used_as_spec(spec_source)]
    pub fn source(&self) -> (source: Setting<&'source HfCoreClk<'source>>)
        ensures
            source == self.spec_source(),
    {
        self.source
    }

    /// The enable bit of this clock.
    pub fn bit() -> (bit: CoreClockGate)
        ensures
            bit == core_gate_bit(GATE),
    {
        if GATE == 0 {
            CoreClockGate::Aes
        } else if GATE == 1 {
            CoreClockGate::Dma
        } else {
            CoreClockGate::Usb
        }
    }

    /// The clock as reset leaves it: off.
    pub(crate) fn claim_ownership() -> (core_gate: HfCoreClkGate<'static, GATE>)
        requires
            GATE < 3,
        ensures
            core_gate.source() == Setting::<&HfCoreClk<'static>>::Off,
    {
        HfCoreClkGate { source: Setting::Off }
    }

    /// Enables the clock, by setting its bit in `CMU_HFCORECLKEN0`. The `HFCORECLK` has to have the
    /// clock capability.
    pub fn enable<'new_source>(
        self,
        hfcoreclk: &'new_source HfCoreClk<'new_source>,
        cmu: &mut Cmu,
    ) -> (core_gate: HfCoreClkGate<'new_source, GATE>)
        requires
            hfcoreclk.rate().is_some(),
        ensures
            core_gate.source() == Setting::Configured(hfcoreclk),
            core_gate.rate() == hfcoreclk.rate(),
            final(cmu)@ == old(cmu)@ + seq![
                Operation::Modify(Field::CoreClockEnable(core_gate_bit(GATE), true)),
            ],
    {
        proof {
            use_type_invariant(&self);
            use_type_invariant(hfcoreclk);
        }
        cmu.issue(Operation::Modify(Field::CoreClockEnable(Self::bit(), true)));
        HfCoreClkGate { source: Setting::Configured(hfcoreclk) }
    }

    /// Disables the clock, by clearing its bit in `CMU_HFCORECLKEN0`.
    pub fn disable(self, cmu: &mut Cmu) -> (core_gate: HfCoreClkGate<'static, GATE>)
        ensures
            core_gate.source() == Setting::<&HfCoreClk<'static>>::Off,
            final(cmu)@ == old(cmu)@ + seq![
                Operation::Modify(Field::CoreClockEnable(core_gate_bit(GATE), false)),
            ],
    {
        proof {
            use_type_invariant(&self);
        }
        cmu.issue(Operation::Modify(Field::CoreClockEnable(Self::bit(), false)));
        HfCoreClkGate { source: Setting::Off }
    }
}

impl<'source, const GATE: u8> Clock for HfCoreClkGate<'source, GATE> {
    open spec fn spec_domain() -> Domain {
        core_gate_domain(GATE)
    }

    open spec fn well_formed(&self) -> bool {
        &&& GATE < 3
        &&& self.source() matches Setting::Configured(source) ==> source.well_formed()
            && source.rate().is_some()
    }

    open spec fn state(&self) -> ClockState {
        self.source().state()
    }

    open spec fn rate(&self) -> Option<Ratio> {
        match self.source() {
            Setting::Configured(source) => source.rate(),
            _ => None,
        }
    }

    open spec fn root(&self) -> nat {
        match self.source() {
            Setting::Configured(source) => source.root(),
            _ => 0,
        }
    }

    open spec fn divisors(&self) -> Seq<nat> {
        match self.source() {
            Setting::Configured(source) => source.divisors(),
            _ => Seq::empty(),
        }
    }

    open spec fn largest_division() -> nat {
        8192
    }

    fn domain() -> (domain: Domain) {
        if GATE == 0 {
            Domain::HfCoreClkAes
        } else if GATE == 1 {
            Domain::HfCoreClkDma
        } else {
            Domain::HfCoreClkUsb
        }
    }

    fn status(&self) -> (status: ClockState) {
        self.source.status()
    }

    fn is_clock(&self) -> (capable: bool) {
        proof {
            use_type_invariant(self);
        }
        match self.source {
            Setting::Configured(_) => true,
            _ => false,
        }
    }

    fn frequency(&self) -> (frequency: Option<Frequency>) {
        match self.source {
            Setting::Configured(source) => source.frequency(),
            _ => None,
        }
    }

    fn release(self, cmu: &mut Cmu) {
        switch_off(Self::domain(), cmu);
    }

    proof fn lemma_capability_gating(&self) {
    }

    proof fn lemma_frequency_propagation(&self) {
        let source = self.source()->Configured_0;
        source.lemma_frequency_propagation();
    }

    proof fn lemma_division_bounded(&self) {
        if let Setting::Configured(source) = self.source() {
            source.lemma_division_bounded();
        }
    }
}

impl<'source, const GATE: u8> Device for HfCoreClkGate<'source, GATE> {

}

impl<const GATE: u8> StaticDevice for HfCoreClkGate<'static, GATE> {
    fn finalize(self) -> (device: &'static Self) {
        make_static(self)
    }
}

} // verus!
