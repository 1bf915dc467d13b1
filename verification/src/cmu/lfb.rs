//! The low-frequency clock B and the clock of the low-energy UART behind it.

use vstd::prelude::*;
use super::lfa::LfSource;
use super::registers::{Cmu, Field, LfSelect, Operation, SyncBusyFlag};
use super::{
    joint_state, joint_status, lemma_product_within, switch_off, Clock, ClockState,
    Domain, HfCoreClkLeDiv, LfRco, LfXo, Setting, ULfRco,
};
use crate::devices::{make_static, Device, StaticDevice};
use crate::frequency::{lemma_chain_extends, Frequency, Ratio};

verus! {

/// Ownership of the `LFBCLK`, the low-frequency clock B. It can drive the low-energy UART.
#[derive(Debug)]
pub struct LfbClk<'source> {
    source: Setting<LfSource<'source>>,
}

impl<'source> LfbClk<'source> {
    /// What holds of every token that exists: it is well formed.
    #[verifier::type_invariant]
    pub open spec fn valid(self) -> bool {
        self.well_formed()
    }

    /// The source that the clock selects.
    pub closed spec fn spec_source(&self) -> Setting<LfSource<'source>> {
        self.source
    }

    /// The source that the clock selects.
    #[verifier::when_used_as_spec(spec_source)]
    pub fn source(&self) -> (source: Setting<LfSource<'source>>)
        ensures
            source == self.spec_source(),
    {
        self.source
    }

    /// The clock as reset leaves it for this library: off.
    pub(crate) fn claim_ownership() -> (lfbclk: LfbClk<'static>)
        ensures
            lfbclk.source() == Setting::<LfSource<'static>>::Off,
    {
        LfbClk { source: Setting::Off }
    }

    /// Enables the `LFBCLK` and takes it from the `LFRCO`, by clearing `LFBE` and storing `LFB` in
    /// `CMU_LFCLKSEL`. The `LFRCO` has to have the clock capability.
    pub fn enable_lfrco<'new_source>(
        self,
        lfrco: &'new_source LfRco,
        cmu: &mut Cmu,
    ) -> (lfbclk: LfbClk<'new_source>)
        requires
            lfrco.rate().is_some(),
        ensures
            lfbclk.source() == Setting::Configured(LfSource::LfRco(lfrco)),
            lfbclk.rate() == lfrco.rate(),
            final(cmu)@ == old(cmu)@ + seq![
                Operation::ModifyPair(Field::Lfbe(false), Field::Lfb(LfSelect::LfRco)),
            ],
    {
        cmu.issue(Operation::ModifyPair(Field::Lfbe(false), Field::Lfb(LfSelect::LfRco)));
        LfbClk { source: Setting::Configured(LfSource::LfRco(lfrco)) }
    }

    /// Enables the `LFBCLK` and takes it from the `LFXO`, by clearing `LFBE` and storing `LFB` in
    /// `CMU_LFCLKSEL`. The `LFXO` has to have the clock capability.
    pub fn enable_lfxo<'new_source>(
        self,
        lfxo: &'new_source LfXo,
        cmu: &mut Cmu,
    ) -> (lfbclk: LfbClk<'new_source>)
        requires
            lfxo.rate().is_some(),
        ensures
            lfbclk.source() == Setting::Configured(LfSource::LfXo(lfxo)),
            lfbclk.rate() == lfxo.rate(),
            final(cmu)@ == old(cmu)@ + seq![
                Operation::ModifyPair(Field::Lfbe(false), Field::Lfb(LfSelect::LfXo)),
            ],
    {
        cmu.issue(Operation::ModifyPair(Field::Lfbe(false), Field::Lfb(LfSelect::LfXo)));
        LfbClk { source: Setting::Configured(LfSource::LfXo(lfxo)) }
    }

    /// Enables the `LFBCLK` and takes it from the `ULFRCO`, by setting `LFBE` and storing `LFB` as
    /// disabled in `CMU_LFCLKSEL`.
    pub fn enable_ulfrco<'new_source>(
        self,
        ulfrco: &'new_source ULfRco,
        cmu: &mut Cmu,
    ) -> (lfbclk: LfbClk<'new_source>)
        requires
            ulfrco.rate().is_some(),
        ensures
            lfbclk.source() == Setting::Configured(LfSource::ULfRco(ulfrco)),
            lfbclk.rate() == ulfrco.rate(),
            final(cmu)@ == old(cmu)@ + seq![
                Operation::ModifyPair(Field::Lfbe(true), Field::Lfb(LfSelect::Disabled)),
            ],
    {
        cmu.issue(Operation::ModifyPair(Field::Lfbe(true), Field::Lfb(LfSelect::Disabled)));
        LfbClk { source: Setting::Configured(LfSource::ULfRco(ulfrco)) }
    }

    /// Enables the `LFBCLK` and takes it from the `HFCORECLKLE` behind its divider, by clearing
    /// `LFBE` and storing `LFB` in `CMU_LFCLKSEL`. That clock has to have the clock capability.
    pub fn enable_hfcoreclklediv<'new_source>(
        self,
        hfcoreclklediv: &'new_source HfCoreClkLeDiv<'new_source>,
        cmu: &mut Cmu,
    ) -> (lfbclk: LfbClk<'new_source>)
        requires
            hfcoreclklediv.rate().is_some(),
        ensures
            lfbclk.source() == Setting::Configured(LfSource::HfCoreClkLeDiv(hfcoreclklediv)),
            lfbclk.rate() == hfcoreclklediv.rate(),
            final(cmu)@ == old(cmu)@ + seq![
                Operation::ModifyPair(Field::Lfbe(false), Field::Lfb(LfSelect::HfCoreClkLeDiv2)),
            ],
    {
        proof {
            use_type_invariant(hfcoreclklediv);
        }
        cmu.issue(Operation::ModifyPair(Field::Lfbe(false), Field::Lfb(LfSelect::HfCoreClkLeDiv2)));
        LfbClk { source: Setting::Configured(LfSource::HfCoreClkLeDiv(hfcoreclklediv)) }
    }

    /// Disables the `LFBCLK`, by clearing `LFBE` and storing `LFB` as disabled in `CMU_LFCLKSEL`.
    pub fn disable(self, cmu: &mut Cmu) -> (lfbclk: LfbClk<'static>)
        ensures
            lfbclk.source() == Setting::<LfSource<'static>>::Off,
            final(cmu)@ == old(cmu)@ + Domain::LfbClk.disable_sequence(),
    {
        switch_off(Domain::LfbClk, cmu);
        LfbClk { source: Setting::Off }
    }
}

impl<'source> Clock for LfbClk<'source> {
    open spec fn spec_domain() -> Domain {
        Domain::LfbClk
    }

    open spec fn well_formed(&self) -> bool {
        self.source() matches Setting::Configured(source) ==> source.well_formed()
            && source.rate().is_some()
    }

    open spec fn state(&self) -> ClockState {
        self.source().state()
    }

    open spec fn rate(&self) -> Option<Ratio> {
        match self.source() {
            Setting::Configured(source) => source.rate(),
            _ => None,
        }
    }

    open spec fn root(&self) -> nat {
        match self.source() {
            Setting::Configured(source) => source.root(),
            _ => 0,
        }
    }

    open spec fn divisors(&self) -> Seq<nat> {
        match self.source() {
            Setting::Configured(source) => source.divisors(),
            _ => Seq::empty(),
        }
    }

    open spec fn largest_division() -> nat {
        32768
    }

    fn domain() -> (domain: Domain) {
        Domain::LfbClk
    }

    fn status(&self) -> (status: ClockState) {
        self.source.status()
    }

    fn is_clock(&self) -> (capable: bool) {
        proof {
            use_type_invariant(self);
        }
        match self.source {
            Setting::Configured(_) => true,
            _ => false,
        }
    }

    fn frequency(&self) -> (frequency: Option<Frequency>) {
        match self.source {
            Setting::Configured(source) => source.frequency(),
            _ => None,
        }
    }

    fn release(self, cmu: &mut Cmu) {
        switch_off(Domain::LfbClk, cmu);
    }

    proof fn lemma_capability_gating(&self) {
    }

    proof fn lemma_frequency_propagation(&self) {
        let source = self.source()->Configured_0;
        source.lemma_frequency_propagation();
    }

    proof fn lemma_division_bounded(&self) {
        if let Setting::Configured(source) = self.source() {
            source.lemma_division_bounded();
        }
    }
}

impl<'source> Device for LfbClk<'source> {

}

impl StaticDevice for LfbClk<'static> {
    fn finalize(self) -> (device: &'static Self) {
        make_static(self)
    }
}

/// Ownership of the `LFBCLKLEUART0`, the clock of the low-energy UART.
#[derive(Debug)]
pub struct LfbClkLeuart0<'source> {
    source: Setting<&'source LfbClk<'source>>,
    division: Setting<u8>,
}

impl<'source> LfbClkLeuart0<'source> {
    /// What holds of every token that exists: it is well formed.
    #[verifier::type_invariant]
    pub open spec fn valid(self) -> bool {
        self.well_formed()
    }

    /// The `LFBCLK` that the clock is taken from.
    pub closed spec fn spec_source(&self) -> Setting<&'source LfbClk<'source>> {
        self.source
    }

    /// The `LFBCLK` that the clock is taken from.
    #[verifier::when_used_as_spec(spec_source)]
    pub fn source(&self) -> (source: Setting<&'source LfbClk<'source>>)
        ensures
            source == self.spec_source(),
    {
        self.source
    }

    /// The divisor.
    pub closed spec fn spec_division(&self) -> Setting<u8> {
        self.division
    }

    /// The divisor.
    #[verifier::when_used_as_spec(spec_division)]
    pub fn division(&self) -> (division: Setting<u8>)
        ensures
            division == self.spec_division(),
    {
        self.division
    }

    /// The divisors that the domain supports: one, two, four and eight.
    pub open spec fn supports(divisor: nat) -> bool {
        divisor == 1 || divisor == 2 || divisor == 4 || divisor == 8
    }

    /// The clock as reset leaves it: off.
    pub(crate) fn claim_ownership() -> (lfbclkleuart0: LfbClkLeuart0<'static>)
        ensures
            lfbclkleuart0.source() == Setting::<&LfbClk<'static>>::Off,
            lfbclkleuart0.division() == Setting::<u8>::Off,
    {
        LfbClkLeuart0 { source: Setting::Off, division: Setting::Off }
    }

    /// What enabling the clock issues. Both registers lie in the low-frequency domain: each store
    /// comes directly after a poll of the register's bit in `CMU_SYNCBUSY`.
    pub open spec fn enable_sequence(divisor: u8) -> Seq<Operation> {
        seq![
            Operation::WaitUntilClear(SyncBusyFlag::LfbPresc0),
            Operation::Write(Field::Leuart0Prescaler(divisor)),
            Operation::WaitUntilClear(SyncBusyFlag::LfbClkEn0),
            Operation::Write(Field::Leuart0Enable(true)),
        ]
    }

    fn enable<'new_source>(
        self,
        divisor: u8,
        source: &'new_source LfbClk<'new_source>,
        cmu: &mut Cmu,
    ) -> (lfbclkleuart0: LfbClkLeuart0<'new_source>)
        requires
            Self::supports(divisor as nat),
            source.rate().is_some(),
        ensures
            lfbclkleuart0.source() == Setting::Configured(source),
            lfbclkleuart0.division() == Setting::Configured(divisor),
            final(cmu)@ == old(cmu)@ + Self::enable_sequence(divisor),
    {
        proof {
            use_type_invariant(source);
        }
        cmu.issue(Operation::Write(Field::Leuart0Prescaler(divisor)));
        cmu.issue(Operation::Write(Field::Leuart0Enable(true)));
        LfbClkLeuart0 {
            source: Setting::Configured(source),
            division: Setting::Configured(divisor),
        }
    }

    /// Enables the `LFBCLKLEUART0` and takes it from the `LFBCLK` divided by 1: stores the
    /// prescaler in `CMU_LFBPRESC0` and sets the enable bit in `CMU_LFBCLKEN0`, each once
    /// `CMU_SYNCBUSY` shows that the register is free. The `LFBCLK` has to have the clock
    /// capability.
    pub fn enable_div1<'new_source>(
        self,
        lfbclk: &'new_source LfbClk<'new_source>,
        cmu: &mut Cmu,
    ) -> (lfbclkleuart0: LfbClkLeuart0<'new_source>)
        requires
            lfbclk.rate().is_some(),
        ensures
            lfbclkleuart0.source() == Setting::Configured(lfbclk),
            lfbclkleuart0.division() == Setting::Configured(1u8),
            lfbclkleuart0.rate() == Some(lfbclk.rate().unwrap().divided_by(1)),
            final(cmu)@ == old(cmu)@ + Self::enable_sequence(1),
    {
        self.enable(1, lfbclk, cmu)
    }

    /// Enables the `LFBCLKLEUART0` and takes it from the `LFBCLK` divided by 2: stores the
    /// prescaler in `CMU_LFBPRESC0` and sets the enable bit in `CMU_LFBCLKEN0`, each once
    /// `CMU_SYNCBUSY` shows that the register is free. The `LFBCLK` has to have the clock
    /// capability.
    pub fn enable_div2<'new_source>(
        self,
        lfbclk: &'new_source LfbClk<'new_source>,
        cmu: &mut Cmu,
    ) -> (lfbclkleuart0: LfbClkLeuart0<'new_source>)
        requires
            lfbclk.rate().is_some(),
        ensures
            lfbclkleuart0.source() == Setting::Configured(lfbclk),
            lfbclkleuart0.division() == Setting::Configured(2u8),
            lfbclkleuart0.rate() == Some(lfbclk.rate().unwrap().divided_by(2)),
            final(cmu)@ == old(cmu)@ + Self::enable_sequence(2),
    {
        self.enable(2, lfbclk, cmu)
    }

    /// Enables the `LFBCLKLEUART0` and takes it from the `LFBCLK` divided by 4: stores the
    /// prescaler in `CMU_LFBPRESC0` and sets the enable bit in `CMU_LFBCLKEN0`, each once
    /// `CMU_SYNCBUSY` shows that the register is free. The `LFBCLK` has to have the clock
    /// capability.
    pub fn enable_div4<'new_source>(
        self,
        lfbclk: &'new_source LfbClk<'new_source>,
        cmu: &mut Cmu,
    ) -> (lfbclkleuart0: LfbClkLeuart0<'new_source>)
        requires
            lfbclk.rate().is_some(),
        ensures
            lfbclkleuart0.source() == Setting::Configured(lfbclk),
            lfbclkleuart0.division() == Setting::Configured(4u8),
            lfbclkleuart0.rate() == Some(lfbclk.rate().unwrap().divided_by(4)),
            final(cmu)@ == old(cmu)@ + Self::enable_sequence(4),
    {
        self.enable(4, lfbclk, cmu)
    }

    /// Enables the `LFBCLKLEUART0` and takes it from the `LFBCLK` divided by 8: stores the
    /// prescaler in `CMU_LFBPRESC0` and sets the enable bit in `CMU_LFBCLKEN0`, each once
    /// `CMU_SYNCBUSY` shows that the register is free. The `LFBCLK` has to have the clock
    /// capability.
    pub fn enable_div8<'new_source>(
        self,
        lfbclk: &'new_source LfbClk<'new_source>,
        cmu: &mut Cmu,
    ) -> (lfbclkleuart0: LfbClkLeuart0<'new_source>)
        requires
            lfbclk.rate().is_some(),
        ensures
            lfbclkleuart0.source() == Setting::Configured(lfbclk),
            lfbclkleuart0.division() == Setting::Configured(8u8),
            lfbclkleuart0.rate() == Some(lfbclk.rate().unwrap().divided_by(8)),
            final(cmu)@ == old(cmu)@ + Self::enable_sequence(8),
    {
        self.enable(8, lfbclk, cmu)
    }

    /// Disables the `LFBCLKLEUART0`, by clearing the enable bit in `CMU_LFBCLKEN0` once
    /// `CMU_SYNCBUSY` shows that the register is free.
    pub fn disable(self, cmu: &mut Cmu) -> (lfbclkleuart0: LfbClkLeuart0<'static>)
        ensures
            lfbclkleuart0.source() == Setting::<&LfbClk<'static>>::Off,
            lfbclkleuart0.division() == Setting::<u8>::Off,
            final(cmu)@ == old(cmu)@ + Domain::LfbClkLeuart0.disable_sequence(),
    {
        switch_off(Domain::LfbClkLeuart0, cmu);
        LfbClkLeuart0 { source: Setting::Off, division: Setting::Off }
    }

    /// The divisor of a token is always one that the domain supports.
    pub proof fn lemma_divisor_supported(&self)
        requires
            self.well_formed(),
        ensures
            self.division() matches Setting::Configured(divisor) ==> Self::supports(
                divisor as nat,
            ),
    {
    }
}

impl<'source> Clock for LfbClkLeuart0<'source> {
    open spec fn spec_domain() -> Domain {
        Domain::LfbClkLeuart0
    }

    open spec fn well_formed(&self) -> bool {
        &&& self.source() matches Setting::Configured(source) ==> source.well_formed()
            && source.rate().is_some()
        &&& self.division() matches Setting::Configured(divisor) ==> Self::supports(divisor as nat)
    }

    open spec fn state(&self) -> ClockState {
        joint_state(self.source().state(), self.division().state())
    }

    open spec fn rate(&self) -> Option<Ratio> {
        match (self.source(), self.division()) {
            (Setting::Configured(source), Setting::Configured(divisor)) => match source.rate() {
                Some(rate) => Some(rate.divided_by(divisor as nat)),
                None => None,
            },
            _ => None,
        }
    }

    open spec fn root(&self) -> nat {
        match self.source() {
            Setting::Configured(source) => source.root(),
            _ => 0,
        }
    }

    open spec fn divisors(&self) -> Seq<nat> {
        match (self.source(), self.division()) {
            (Setting::Configured(source), Setting::Configured(divisor)) => source.divisors().push(
                divisor as nat,
            ),
            _ => Seq::empty(),
        }
    }

    open spec fn largest_division() -> nat {
        262144
    }

    fn domain() -> (domain: Domain) {
        Domain::LfbClkLeuart0
    }

    fn status(&self) -> (status: ClockState) {
        joint_status(self.source.status(), self.division.status())
    }

    fn is_clock(&self) -> (capable: bool) {
        proof {
            use_type_invariant(self);
        }
        match (self.source, self.division) {
            (Setting::Configured(_), Setting::Configured(_)) => true,
            _ => false,
        }
    }

    fn frequency(&self) -> (frequency: Option<Frequency>) {
        proof {
            use_type_invariant(self);
        }
        match (self.source, self.division) {
            (Setting::Configured(source), Setting::Configured(divisor)) => {
                match source.frequency() {
                    Some(frequency) => Some(frequency.divided_by(divisor as u64)),
                    None => None,
                }
            },
            _ => None,
        }
    }

    fn release(self, cmu: &mut Cmu) {
        switch_off(Domain::LfbClkLeuart0, cmu);
    }

    proof fn lemma_capability_gating(&self) {
    }

    proof fn lemma_frequency_propagation(&self) {
        let source = self.source()->Configured_0;
        let divisor = self.division()->Configured_0;
        source.lemma_frequency_propagation();
        lemma_chain_extends(Ratio::whole(source.root()), source.divisors(), divisor as nat);
    }

    proof fn lemma_division_bounded(&self) {
        if let (Setting::Configured(source), Setting::Configured(divisor)) = (
            self.source(),
            self.division(),
        ) {
            source.lemma_division_bounded();
            lemma_product_within(
                source.rate().unwrap().denominator,
                divisor as nat,
                32768,
                8,
            );
        }
    }
}

impl<'source> Device for LfbClkLeuart0<'source> {

}

impl StaticDevice for LfbClkLeuart0<'static> {
    fn finalize(self) -> (device: &'static Self) {
        make_static(self)
    }
}

} // verus!
