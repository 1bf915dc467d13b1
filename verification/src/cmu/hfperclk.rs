//! The peripheral clock and the gates behind it.

use vstd::prelude::*;
use super::registers::{Cmu, Field, Operation, PeripheralClockGate};
use super::{
    joint_state, joint_status, lemma_product_within, power_of_two, switch_off, Clock, ClockState,
    Domain, HfClk, Setting,
};
use crate::devices::{make_static, Device, StaticDevice};
use crate::frequency::{lemma_chain_extends, Frequency, Ratio};

verus! {

/// Ownership of the `HFPERCLK`, the high-frequency peripheral clock.
#[derive(Debug)]
pub struct HfPerClk<'source> {
    source: Setting<&'source HfClk<'source>>,
    division: Setting<u16>,
}

impl<'source> HfPerClk<'source> {
    /// What holds of every token that exists: it is well formed.
    #[verifier::type_invariant]
    pub open spec fn valid(self) -> bool {
        self.well_formed()
    }

    /// The `HFCLK` that the clock is taken from.
    pub closed spec fn spec_source(&self) -> Setting<&'source HfClk<'source>> {
        self.source
    }

    /// The `HFCLK` that the clock is taken from.
    #[verifier::when_used_as_spec(spec_source)]
    pub fn source(&self) -> (source: Setting<&'source HfClk<'source>>)
        ensures
            source == self.spec_source(),
    {
        self.source
    }

    /// The divisor.
    pub closed spec fn spec_division(&self) -> Setting<u16> {
        self.division
    }

    /// The divisor.
    #[verifier::when_used_as_spec(spec_division)]
    pub fn division(&self) -> (division: Setting<u16>)
        ensures
            division == self.spec_division(),
    {
        self.division
    }

    /// The divisors that the domain supports: the powers of two from 1 to 512.
    pub open spec fn supports(divisor: nat) -> bool {
        power_of_two(divisor) && divisor <= 512
    }

    /// The clock as reset leaves it for this library: running, with a divisor that is not
    /// recorded.
    pub(crate) fn claim_ownership() -> (hfperclk: HfPerClk<'static>)
        ensures
            hfperclk.source() == Setting::<&HfClk<'static>>::Uninitialized,
            hfperclk.division() == Setting::<u16>::Uninitialized,
    {
        HfPerClk { source: Setting::Uninitialized, division: Setting::Uninitialized }
    }

    /// What enabling the clock issues: one store of `CMU_HFPERCLKDIV` with the enable bit set and
    /// the divisor.
    pub open spec fn enable_sequence(divisor: u16) -> Seq<Operation> {
        seq![
            Operation::WritePair(Field::HfPerClkEn(true), Field::HfPerClkDiv(divisor)),
        ]
    }

    fn enable<'new_source>(
        self,
        divisor: u16,
        source: &'new_source HfClk<'new_source>,
        cmu: &mut Cmu,
    ) -> (hfperclk: HfPerClk<'new_source>)
        requires
            Self::supports(divisor as nat),
            source.rate().is_some(),
        ensures
            hfperclk.source() == Setting::Configured(source),
            hfperclk.division() == Setting::Configured(divisor),
            final(cmu)@ == old(cmu)@ + Self::enable_sequence(divisor),
    {
        proof {
            use_type_invariant(source);
        }
        cmu.issue(Operation::WritePair(Field::HfPerClkEn(true), Field::HfPerClkDiv(divisor)));
        HfPerClk { source: Setting::Configured(source), division: Setting::Configured(divisor) }
    }

    /// Enables the `HFPERCLK` and takes it from the `HFCLK` divided by 1, by storing `HFPERCLKEN`
    /// and `HFPERCLKDIV` of `CMU_HFPERCLKDIV`. The `HFCLK` has to have the clock capability.
    pub fn enable_div1<'new_source>(
        self,
        hfclk: &'new_source HfClk<'new_source>,
        cmu: &mut Cmu,
    ) -> (hfperclk: HfPerClk<'new_source>)
        requires
            hfclk.rate().is_some(),
        ensures
            hfperclk.source() == Setting::Configured(hfclk),
            hfperclk.division() == Setting::Configured(1u16),
            hfperclk.rate() == Some(hfclk.rate().unwrap().divided_by(1)),
            final(cmu)@ == old(cmu)@ + Self::enable_sequence(1),
    {
        self.enable(1, hfclk, cmu)
    }

    /// Enables the `HFPERCLK` and takes it from the `HFCLK` divided by 2, by storing `HFPERCLKEN`
    /// and `HFPERCLKDIV` of `CMU_HFPERCLKDIV`. The `HFCLK` has to have the clock capability.
    pub fn enable_div2<'new_source>(
        self,
        hfclk: &'new_source HfClk<'new_source>,
        cmu: &mut Cmu,
    ) -> (hfperclk: HfPerClk<'new_source>)
        requires
            hfclk.rate().is_some(),
        ensures
            hfperclk.source() == Setting::Configured(hfclk),
            hfperclk.division() == Setting::Configured(2u16),
            hfperclk.rate() == Some(hfclk.rate().unwrap().divided_by(2)),
            final(cmu)@ == old(cmu)@ + Self::enable_sequence(2),
    {
        self.enable(2, hfclk, cmu)
    }

    /// Enables the `HFPERCLK` and takes it from the `HFCLK` divided by 4, by storing `HFPERCLKEN`
    /// and `HFPERCLKDIV` of `CMU_HFPERCLKDIV`. The `HFCLK` has to have the clock capability.
    pub fn enable_div4<'new_source>(
        self,
        hfclk: &'new_source HfClk<'new_source>,
        cmu: &mut Cmu,
    ) -> (hfperclk: HfPerClk<'new_source>)
        requires
            hfclk.rate().is_some(),
        ensures
            hfperclk.source() == Setting::Configured(hfclk),
            hfperclk.division() == Setting::Configured(4u16),
            hfperclk.rate() == Some(hfclk.rate().unwrap().divided_by(4)),
            final(cmu)@ == old(cmu)@ + Self::enable_sequence(4),
    {
        self.enable(4, hfclk, cmu)
    }

    /// Enables the `HFPERCLK` and takes it from the `HFCLK` divided by 8, by storing `HFPERCLKEN`
    /// and `HFPERCLKDIV` of `CMU_HFPERCLKDIV`. The `HFCLK` has to have the clock capability.
    pub fn enable_div8<'new_source>(
        self,
        hfclk: &'new_source HfClk<'new_source>,
        cmu: &mut Cmu,
    ) -> (hfperclk: HfPerClk<'new_source>)
        requires
            hfclk.rate().is_some(),
        ensures
            hfperclk.source() == Setting::Configured(hfclk),
            hfperclk.division() == Setting::Configured(8u16),
            hfperclk.rate() == Some(hfclk.rate().unwrap().divided_by(8)),
            final(cmu)@ == old(cmu)@ + Self::enable_sequence(8),
    {
        self.enable(8, hfclk, cmu)
    }

    /// Enables the `HFPERCLK` and takes it from the `HFCLK` divided by 16, by storing `HFPERCLKEN`
    /// and `HFPERCLKDIV` of `CMU_HFPERCLKDIV`. The `HFCLK` has to have the clock capability.
    pub fn enable_div16<'new_source>(
        self,
        hfclk: &'new_source HfClk<'new_source>,
        cmu: &mut Cmu,
    ) -> (hfperclk: HfPerClk<'new_source>)
        requires
            hfclk.rate().is_some(),
        ensures
            hfperclk.source() == Setting::Configured(hfclk),
            hfperclk.division() == Setting::Configured(16u16),
            hfperclk.rate() == Some(hfclk.rate().unwrap().divided_by(16)),
            final(cmu)@ == old(cmu)@ + Self::enable_sequence(16),
    {
        self.enable(16, hfclk, cmu)
    }

    /// Enables the `HFPERCLK` and takes it from the `HFCLK` divided by 32, by storing `HFPERCLKEN`
    /// and `HFPERCLKDIV` of `CMU_HFPERCLKDIV`. The `HFCLK` has to have the clock capability.
    pub fn enable_div32<'new_source>(
        self,
        hfclk: &'new_source HfClk<'new_source>,
        cmu: &mut Cmu,
    ) -> (hfperclk: HfPerClk<'new_source>)
        requires
            hfclk.rate().is_some(),
        ensures
            hfperclk.source() == Setting::Configured(hfclk),
            hfperclk.division() == Setting::Configured(32u16),
            hfperclk.rate() == Some(hfclk.rate().unwrap().divided_by(32)),
            final(cmu)@ == old(cmu)@ + Self::enable_sequence(32),
    {
        self.enable(32, hfclk, cmu)
    }

    /// Enables the `HFPERCLK` and takes it from the `HFCLK` divided by 64, by storing `HFPERCLKEN`
    /// and `HFPERCLKDIV` of `CMU_HFPERCLKDIV`. The `HFCLK` has to have the clock capability.
    pub fn enable_div64<'new_source>(
        self,
        hfclk: &'new_source HfClk<'new_source>,
        cmu: &mut Cmu,
    ) -> (hfperclk: HfPerClk<'new_source>)
        requires
            hfclk.rate().is_some(),
        ensures
            hfperclk.source() == Setting::Configured(hfclk),
            hfperclk.division() == Setting::Configured(64u16),
            hfperclk.rate() == Some(hfclk.rate().unwrap().divided_by(64)),
            final(cmu)@ == old(cmu)@ + Self::enable_sequence(64),
    {
        self.enable(64, hfclk, cmu)
    }

    /// Enables the `HFPERCLK` and takes it from the `HFCLK` divided by 128, by storing `HFPERCLKEN`
    /// and `HFPERCLKDIV` of `CMU_HFPERCLKDIV`. The `HFCLK` has to have the clock capability.
    pub fn enable_div128<'new_source>(
        self,
        hfclk: &'new_source HfClk<'new_source>,
        cmu: &mut Cmu,
    ) -> (hfperclk: HfPerClk<'new_source>)
        requires
            hfclk.rate().is_some(),
        ensures
            hfperclk.source() == Setting::Configured(hfclk),
            hfperclk.division() == Setting::Configured(128u16),
            hfperclk.rate() == Some(hfclk.rate().unwrap().divided_by(128)),
            final(cmu)@ == old(cmu)@ + Self::enable_sequence(128),
    {
        self.enable(128, hfclk, cmu)
    }

    /// Enables the `HFPERCLK` and takes it from the `HFCLK` divided by 256, by storing `HFPERCLKEN`
    /// and `HFPERCLKDIV` of `CMU_HFPERCLKDIV`. The `HFCLK` has to have the clock capability.
    pub fn enable_div256<'new_source>(
        self,
        hfclk: &'new_source HfClk<'new_source>,
        cmu: &mut Cmu,
    ) -> (hfperclk: HfPerClk<'new_source>)
        requires
            hfclk.rate().is_some(),
        ensures
            hfperclk.source() == Setting::Configured(hfclk),
            hfperclk.division() == Setting::Configured(256u16),
            hfperclk.rate() == Some(hfclk.rate().unwrap().divided_by(256)),
            final(cmu)@ == old(cmu)@ + Self::enable_sequence(256),
    {
        self.enable(256, hfclk, cmu)
    }

    /// Enables the `HFPERCLK` and takes it from the `HFCLK` divided by 512, by storing `HFPERCLKEN`
    /// and `HFPERCLKDIV` of `CMU_HFPERCLKDIV`. The `HFCLK` has to have the clock capability.
    pub fn enable_div512<'new_source>(
        self,
        hfclk: &'new_source HfClk<'new_source>,
        cmu: &mut Cmu,
    ) -> (hfperclk: HfPerClk<'new_source>)
        requires
            hfclk.rate().is_some(),
        ensures
            hfperclk.source() == Setting::Configured(hfclk),
            hfperclk.division() == Setting::Configured(512u16),
            hfperclk.rate() == Some(hfclk.rate().unwrap().divided_by(512)),
            final(cmu)@ == old(cmu)@ + Self::enable_sequence(512),
    {
        self.enable(512, hfclk, cmu)
    }

    /// Disables the `HFPERCLK`, by storing `CMU_HFPERCLKDIV` with `HFPERCLKEN` clear.
    pub fn disable(self, cmu: &mut Cmu) -> (hfperclk: HfPerClk<'static>)
        ensures
            hfperclk.source() == Setting::<&HfClk<'static>>::Off,
            hfperclk.division() == Setting::<u16>::Off,
            final(cmu)@ == old(cmu)@ + Domain::HfPerClk.disable_sequence(),
    {
        switch_off(Domain::HfPerClk, cmu);
        HfPerClk { source: Setting::Off, division: Setting::Off }
    }

    /// The divisor of a token is always one that the domain supports.
    pub proof fn lemma_divisor_supported(&self)
        requires
            self.well_formed(),
        ensures
            self.division() matches Setting::Configured(divisor) ==> Self::supports(
                divisor as nat,
            ),
    {
    }
}

impl<'source> Clock for HfPerClk<'source> {
    open spec fn spec_domain() -> Domain {
        Domain::HfPerClk
    }

    open spec fn well_formed(&self) -> bool {
        &&& self.source() matches Setting::Configured(source) ==> source.well_formed()
            && source.rate().is_some()
        &&& self.division() matches Setting::Configured(divisor) ==> Self::supports(divisor as nat)
    }

    open spec fn state(&self) -> ClockState {
        joint_state(self.source().state(), self.division().state())
    }

    open spec fn rate(&self) -> Option<Ratio> {
        match (self.source(), self.division()) {
            (Setting::Configured(source), Setting::Configured(divisor)) => match source.rate() {
                Some(rate) => Some(rate.divided_by(divisor as nat)),
                None => None,
            },
            _ => None,
        }
    }

    open spec fn root(&self) -> nat {
        match self.source() {
            Setting::Configured(source) => source.root(),
            _ => 0,
        }
    }

    open spec fn divisors(&self) -> Seq<nat> {
        match (self.source(), self.division()) {
            (Setting::Configured(source), Setting::Configured(divisor)) => source.divisors().push(
                divisor as nat,
            ),
            _ => Seq::empty(),
        }
    }

    open spec fn largest_division() -> nat {
        8192
    }

    fn domain() -> (domain: Domain) {
        Domain::HfPerClk
    }

    fn status(&self) -> (status: ClockState) {
        joint_status(self.source.status(), self.division.status())
    }

    fn is_clock(&self) -> (capable: bool) {
        proof {
            use_type_invariant(self);
        }
        match (self.source, self.division) {
            (Setting::Configured(_), Setting::Configured(_)) => true,
            _ => false,
        }
    }

    fn frequency(&self) -> (frequency: Option<Frequency>) {
        proof {
            use_type_invariant(self);
        }
        match (self.source, self.division) {
            (Setting::Configured(source), Setting::Configured(divisor)) => {
                match source.frequency() {
                    Some(frequency) => Some(frequency.divided_by(divisor as u64)),
                    None => None,
                }
            },
            _ => None,
        }
    }

    fn release(self, cmu: &mut Cmu) {
        switch_off(Domain::HfPerClk, cmu);
    }

    proof fn lemma_capability_gating(&self) {
    }

    proof fn lemma_frequency_propagation(&self) {
        let source = self.source()->Configured_0;
        let divisor = self.division()->Configured_0;
        source.lemma_frequency_propagation();
        lemma_chain_extends(Ratio::whole(source.root()), source.divisors(), divisor as nat);
    }

    proof fn lemma_division_bounded(&self) {
        if let (Setting::Configured(source), Setting::Configured(divisor)) = (
            self.source(),
            self.division(),
        ) {
            source.lemma_division_bounded();
            lemma_product_within(
                source.rate().unwrap().denominator,
                divisor as nat,
                16,
                512,
            );
        }
    }
}

impl<'source> Device for HfPerClk<'source> {

}

impl StaticDevice for HfPerClk<'static> {
    fn finalize(self) -> (device: &'static Self) {
        make_static(self)
    }
}

/// Ownership of one of the gates that pass the `HFPERCLK` on to a peripheral. The gates differ
/// in the position of their enable bit in `CMU_HFPERCLKEN0`, which is part of their type.
#[derive(Debug)]
pub struct HfPerClkGate<'source, const GATE: u8> {
    source: Setting<&'source HfPerClk<'source>>,
}

/// Ownership of the `HFPERCLKTIMER0`, the clock of `TIMER0`.
pub type HfPerClkTimer0<'source> = HfPerClkGate<'source, 0>;

/// Ownership of the `HFPERCLKTIMER1`, the clock of `TIMER1`.
pub type HfPerClkTimer1<'source> = HfPerClkGate<'source, 1>;

/// Ownership of the `HFPERCLKTIMER2`, the clock of `TIMER2`.
pub type HfPerClkTimer2<'source> = HfPerClkGate<'source, 2>;

/// Ownership of the `HFPERCLKUSART0`, the clock of `USART0`.
pub type HfPerClkUsart0<'source> = HfPerClkGate<'source, 3>;

/// Ownership of the `HFPERCLKUSART1`, the clock of `USART1`.
pub type HfPerClkUsart1<'source> = HfPerClkGate<'source, 4>;

/// Ownership of the `HFPERCLKACMP0`, the clock of the analog comparator.
pub type HfPerClkAcmp0<'source> = HfPerClkGate<'source, 5>;

/// Ownership of the `HFPERCLKPRS`, the clock of the peripheral reflex system.
pub type HfPerClkPrs<'source> = HfPerClkGate<'source, 6>;

/// Ownership of the `HFPERCLKIDAC0`, the clock of the current digital to analog converter.
pub type HfPerClkIdac0<'source> = HfPerClkGate<'source, 7>;

/// Ownership of the `HFPERCLKGPIO`, the clock of the general purpose input and output.
pub type HfPerClkGpio<'source> = HfPerClkGate<'source, 8>;

/// Ownership of the `HFPERCLKVCMP`, the clock of the voltage comparator.
pub type HfPerClkVcmp<'source> = HfPerClkGate<'source, 9>;

/// Ownership of the `HFPERCLKADC0`, the clock of the analog to digital converter.
pub type HfPerClkAdc0<'source> = HfPerClkGate<'source, 10>;

/// Ownership of the `HFPERCLKI2C0`, the clock of the I2C system.
pub type HfPerClkI2c0<'source> = HfPerClkGate<'source, 11>;

/// The enable bit of the clock at a position.
pub open spec fn peripheral_gate_bit(index: u8) -> PeripheralClockGate {
    if index == 0 {
        PeripheralClockGate::Timer0
    } else if index == 1 {
        PeripheralClockGate::Timer1
    } else if index == 2 {
        PeripheralClockGate::Timer2
    } else if index == 3 {
        PeripheralClockGate::Usart0
    } else if index == 4 {
        PeripheralClockGate::Usart1
    } else if index == 5 {
        PeripheralClockGate::Acmp0
    } else if index == 6 {
        PeripheralClockGate::Prs
    } else if index == 7 {
        PeripheralClockGate::Idac0
    } else if index == 8 {
        PeripheralClockGate::Gpio
    } else if index == 9 {
        PeripheralClockGate::Vcmp
    } else if index == 10 {
        PeripheralClockGate::Adc0
    } else {
        PeripheralClockGate::I2c0
    }
}

/// The domain of the clock at a position.
pub open spec fn peripheral_gate_domain(index: u8) -> Domain {
    if index == 0 {
        Domain::HfPerClkTimer0
    } else if index == 1 {
        Domain::HfPerClkTimer1
    } else if index == 2 {
        Domain::HfPerClkTimer2
    } else if index == 3 {
        Domain::HfPerClkUsart0
    } else if index == 4 {
        Domain::HfPerClkUsart1
    } else if index == 5 {
        Domain::HfPerClkAcmp0
    } else if index == 6 {
        Domain::HfPerClkPrs
    } else if index == 7 {
        Domain::HfPerClkIdac0
    } else if index == 8 {
        Domain::HfPerClkGpio
    } else if index == 9 {
        Domain::HfPerClkVcmp
    } else if index == 10 {
        Domain::HfPerClkAdc0
    } else {
        Domain::HfPerClkI2c0
    }
}

impl<'source, const GATE: u8> HfPerClkGate<'source, GATE> {
    /// What holds of every token that exists: it is well formed.
    #[verifier::type_invariant]
    pub open spec fn valid(self) -> bool {
        self.well_formed()
    }

    /// The `HFPERCLK` that is passed on.
    pub closed spec fn spec_source(&self) -> Setting<&'source HfPerClk<'source>> {
        self.source
    }

    /// The `HFPERCLK` that is passed on.
    #[verifier::when_used_as_spec(spec_source)]
    pub fn source(&self) -> (source: Setting<&'source HfPerClk<'source>>)
        ensures
            source == self.spec_source(),
    {
        self.source
    }

    /// The enable bit of this clock.
    pub fn bit() -> (bit: PeripheralClockGate)
        ensures
            bit == peripheral_gate_bit(GATE),
    {
        if GATE == 0 {
            PeripheralClockGate::Timer0
        } else if GATE == 1 {
            PeripheralClockGate::Timer1
        } else if GATE == 2 {
            PeripheralClockGate::Timer2
        } else if GATE == 3 {
            PeripheralClockGate::Usart0
        } else if GATE == 4 {
            PeripheralClockGate::Usart1
        } else if GATE == 5 {
            PeripheralClockGate::Acmp0
        } else if GATE == 6 {
            PeripheralClockGate::Prs
        } else if GATE == 7 {
            PeripheralClockGate::Idac0
        } else if GATE == 8 {
            PeripheralClockGate::Gpio
        } else if GATE == 9 {
            PeripheralClockGate::Vcmp
        } else if GATE == 10 {
            PeripheralClockGate::Adc0
        } else {
            PeripheralClockGate::I2c0
        }
    }

    /// The clock as reset leaves it: off.
    pub(crate) fn claim_ownership() -> (peripheral_gate: HfPerClkGate<'static, GATE>)
        requires
            GATE < 12,
        ensures
            peripheral_gate.source() == Setting::<&HfPerClk<'static>>::Off,
    {
        HfPerClkGate { source: Setting::Off }
    }

    /// Enables the clock, by setting its bit in `CMU_HFPERCLKEN0`. The `HFPERCLK` has to have the
    /// clock capability.
    pub fn enable<'new_source>(
        self,
        hfperclk: &'new_source HfPerClk<'new_source>,
        cmu: &mut Cmu,
    ) -> (peripheral_gate: HfPerClkGate<'new_source, GATE>)
        requires
            hfperclk.rate().is_some(),
        ensures
            peripheral_gate.source() == Setting::Configured(hfperclk),
            peripheral_gate.rate() == hfperclk.rate(),
            final(cmu)@ == old(cmu)@ + seq![
                Operation::Modify(Field::PeripheralClockEnable(peripheral_gate_bit(GATE), true)),
            ],
    {
        proof {
            use_type_invariant(&self);
            use_type_invariant(hfperclk);
        }
        cmu.issue(Operation::Modify(Field::PeripheralClockEnable(Self::bit(), true)));
        HfPerClkGate { source: Setting::Configured(hfperclk) }
    }

    /// Disables the clock, by clearing its bit in `CMU_HFPERCLKEN0`.
    pub fn disable(self, cmu: &mut Cmu) -> (peripheral_gate: HfPerClkGate<'static, GATE>)
        ensures
            peripheral_gate.source() == Setting::<&HfPerClk<'static>>::Off,
            final(cmu)@ == old(cmu)@ + seq![
                Operation::Modify(Field::PeripheralClockEnable(peripheral_gate_bit(GATE), false)),
            ],
    {
        proof {
            use_type_invariant(&self);
        }
        cmu.issue(Operation::Modify(Field::PeripheralClockEnable(Self::bit(), false)));
        HfPerClkGate { source: Setting::Off }
    }
}

impl<'source, const GATE: u8> Clock for HfPerClkGate<'source, GATE> {
    open spec fn spec_domain() -> Domain {
        peripheral_gate_domain(GATE)
    }

    open spec fn well_formed(&self) -> bool {
        &&& GATE < 12
        &&& self.source() matches Setting::Configured(source) ==> source.well_formed()
            && source.rate().is_some()
    }

    open spec fn state(&self) -> ClockState {
        self.source().state()
    }

    open spec fn rate(&self) -> Option<Ratio> {
        match self.source() {
            Setting::Configured(source) => source.rate(),
            _ => None,
        }
    }

    open spec fn root(&self) -> nat {
        match self.source() {
            Setting::Configured(source) => source.root(),
            _ => 0,
        }
    }

    open spec fn divisors(&self) -> Seq<nat> {
        match self.source() {
            Setting::Configured(source) => source.divisors(),
            _ => Seq::empty(),
        }
    }

    open spec fn largest_division() -> nat {
        8192
    }

    fn domain() -> (domain: Domain) {
        if GATE == 0 {
            Domain::HfPerClkTimer0
        } else if GATE == 1 {
            Domain::HfPerClkTimer1
        } else if GATE == 2 {
            Domain::HfPerClkTimer2
        } else if GATE == 3 {
            Domain::HfPerClkUsart0
        } else if GATE == 4 {
            Domain::HfPerClkUsart1
        } else if GATE == 5 {
            Domain::HfPerClkAcmp0
        } else if GATE == 6 {
            Domain::HfPerClkPrs
        } else if GATE == 7 {
            Domain::HfPerClkIdac0
        } else if GATE == 8 {
            Domain::HfPerClkGpio
        } else if GATE == 9 {
            Domain::HfPerClkVcmp
        } else if GATE == 10 {
            Domain::HfPerClkAdc0
        } else {
            Domain::HfPerClkI2c0
        }
    }

    fn status(&self) -> (status: ClockState) {
        self.source.status()
    }

    fn is_clock(&self) -> (capable: bool) {
        proof {
            use_type_invariant(self);
        }
        match self.source {
            Setting::Configured(_) => true,
            _ => false,
        }
    }

    fn frequency(&self) -> (frequency: Option<Frequency>) {
        match self.source {
            Setting::Configured(source) => source.frequency(),
            _ => None,
        }
    }

    fn release(self, cmu: &mut Cmu) {
        switch_off(Self::domain(), cmu);
    }

    proof fn lemma_capability_gating(&self) {
    }

    proof fn lemma_frequency_propagation(&self) {
        let source = self.source()->Configured_0;
        source.lemma_frequency_propagation();
    }

    proof fn lemma_division_bounded(&self) {
        if let Setting::Configured(source) = self.source() {
            source.lemma_division_bounded();
        }
    }
}

impl<'source, const GATE: u8> Device for HfPerClkGate<'source, GATE> {

}

impl<const GATE: u8> StaticDevice for HfPerClkGate<'static, GATE> {
    fn finalize(self) -> (device: &'static Self) {
        make_static(self)
    }
}

} // verus!
