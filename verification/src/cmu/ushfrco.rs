//! The RC oscillator for USB and the divider behind it.

use vstd::prelude::*;
use super::registers::{Cmu, Field, Operation, OscillatorCommand, StatusFlag, UsHfRcoBand};
use super::{joint_state, joint_status, switch_off, Clock, ClockState, Domain, Setting};
use crate::device_information::{
    get_ushfrco_calib_band_24, get_ushfrco_calib_band_48, DeviceInformation,
};
use crate::devices::{make_static, Device, StaticDevice};
use crate::frequency::{lemma_chain_extends, Frequency, Ratio};

verus! {

/// Ownership of the `USHFRCO`, the high-frequency RC oscillator for USB, which oscillates at 24
/// or at 48 MHz.
#[derive(Debug)]
pub struct UsHfRco {
    band: Setting<UsHfRcoBand>,
}

impl UsHfRco {
    /// The band that the oscillator runs in.
    pub closed spec fn spec_band(&self) -> Setting<UsHfRcoBand> {
        self.band
    }

    /// The band that the oscillator runs in.
    #[verifier::when_used_as_spec(spec_band)]
    pub fn band(&self) -> (band: Setting<UsHfRcoBand>)
        ensures
            band == self.spec_band(),
    {
        self.band
    }

    /// The oscillator as reset leaves it: off.
    pub(crate) fn claim_ownership() -> (ushfrco: UsHfRco)
        ensures
            ushfrco.band() == Setting::<UsHfRcoBand>::Off,
    {
        UsHfRco { band: Setting::Off }
    }

    /// What enabling the oscillator issues: the band to `CMU_USHFRCOCONF`, the coarse tuning to
    /// `CMU_USHFRCOCTRL`, the fine tuning to `CMU_USHFRCOTUNE`, the command `USHFRCOEN`, and a
    /// wait for `USHFRCORDY`.
    pub open spec fn enable_sequence(band: UsHfRcoBand, coarse: u8, fine: u8) -> Seq<Operation> {
        seq![
            Operation::Write(Field::UsHfRcoBand(band)),
            Operation::Write(Field::UsHfRcoTuning(coarse)),
            Operation::Write(Field::UsHfRcoFineTuning(fine)),
            Operation::Write(Field::Oscillator(OscillatorCommand::UsHfRcoEn)),
            Operation::WaitUntilSet(StatusFlag::UsHfRcoRdy),
        ]
    }

    fn enable(self, band: UsHfRcoBand, calibration: (u8, u8), cmu: &mut Cmu) -> (ushfrco: UsHfRco)
        ensures
            ushfrco.band() == Setting::Configured(band),
            final(cmu)@ == old(cmu)@ + Self::enable_sequence(band, calibration.0, calibration.1),
    {
        cmu.issue(Operation::Write(Field::UsHfRcoBand(band)));
        cmu.issue(Operation::Write(Field::UsHfRcoTuning(calibration.0)));
        cmu.issue(Operation::Write(Field::UsHfRcoFineTuning(calibration.1)));
        cmu.issue(Operation::Write(Field::Oscillator(OscillatorCommand::UsHfRcoEn)));
        cmu.issue(Operation::WaitUntilSet(StatusFlag::UsHfRcoRdy));
        UsHfRco { band: Setting::Configured(band) }
    }

    /// Enables the `USHFRCO` in its 24 MHz band, with the coarse and the fine tuning that the
    /// factory found for that band, and waits until the oscillator is ready.
    pub fn enable_24mhz(self, information: &DeviceInformation, cmu: &mut Cmu) -> (ushfrco:
        UsHfRco)
        ensures
            ushfrco.band() == Setting::Configured(UsHfRcoBand::Mhz24),
            final(cmu)@ == old(cmu)@ + Self::enable_sequence(
                UsHfRcoBand::Mhz24,
                information.ushfrco_coarsecal_band_24 & 0x7f,
                information.ushfrco_finecal_band_24 & 0x3f,
            ),
    {
        self.enable(UsHfRcoBand::Mhz24, get_ushfrco_calib_band_24(information), cmu)
    }

    /// Enables the `USHFRCO` in its 48 MHz band, with the coarse and the fine tuning that the
    /// factory found for that band, and waits until the oscillator is ready.
    pub fn enable_48mhz(self, information: &DeviceInformation, cmu: &mut Cmu) -> (ushfrco:
        UsHfRco)
        ensures
            ushfrco.band() == Setting::Configured(UsHfRcoBand::Mhz48),
            final(cmu)@ == old(cmu)@ + Self::enable_sequence(
                UsHfRcoBand::Mhz48,
                information.ushfrco_coarsecal_band_48 & 0x7f,
                information.ushfrco_finecal_band_48 & 0x3f,
            ),
    {
        self.enable(UsHfRcoBand::Mhz48, get_ushfrco_calib_band_48(information), cmu)
    }

    /// Disables the `USHFRCO` with the command `USHFRCODIS`. The hardware stops the oscillator at
    /// once, so nothing is waited for.
    pub fn disable(self, cmu: &mut Cmu) -> (ushfrco: UsHfRco)
        ensures
            ushfrco.band() == Setting::<UsHfRcoBand>::Off,
            final(cmu)@ == old(cmu)@ + Domain::UsHfRco.disable_sequence(),
    {
        switch_off(Domain::UsHfRco, cmu);
        UsHfRco { band: Setting::Off }
    }
}

impl Clock for UsHfRco {
    open spec fn spec_domain() -> Domain {
        Domain::UsHfRco
    }

    open spec fn well_formed(&self) -> bool {
        true
    }

    open spec fn state(&self) -> ClockState {
        self.band().state()
    }

    open spec fn rate(&self) -> Option<Ratio> {
        match self.band() {
            Setting::Configured(band) => Some(Ratio::whole(band.hertz() as nat)),
            _ => None,
        }
    }

    open spec fn root(&self) -> nat {
        match self.band() {
            Setting::Configured(band) => band.hertz() as nat,
            _ => 0,
        }
    }

    open spec fn divisors(&self) -> Seq<nat> {
        Seq::empty()
    }

    open spec fn largest_division() -> nat {
        1
    }

    fn domain() -> (domain: Domain) {
        Domain::UsHfRco
    }

    fn status(&self) -> (status: ClockState) {
        self.band.status()
    }

    fn is_clock(&self) -> (capable: bool) {
        match self.band {
            Setting::Configured(_) => true,
            _ => false,
        }
    }

    fn frequency(&self) -> (frequency: Option<Frequency>) {
        match self.band {
            Setting::Configured(band) => Some(Frequency::new(band.hertz())),
            _ => None,
        }
    }

    fn release(self, cmu: &mut Cmu) {
        switch_off(Domain::UsHfRco, cmu);
    }

    proof fn lemma_capability_gating(&self) {
    }

    proof fn lemma_frequency_propagation(&self) {
    }

    proof fn lemma_division_bounded(&self) {
    }
}

impl Device for UsHfRco {

}

impl StaticDevice for UsHfRco {
    fn finalize(self) -> (device: &'static Self) {
        make_static(self)
    }
}

/// Ownership of the clock that the reference manual calls `USHFRCODIV2`.
///
/// Despite its name the clock is the `USHFRCO` divided by one or by two, as one bit of
/// `CMU_USHFRCOCONF` says. Undivided it can only be had from the 24 MHz band.
#[derive(Debug)]
pub struct UsHfRcoDiv<'source> {
    source: Setting<&'source UsHfRco>,
    division: Setting<u8>,
}

impl<'source> UsHfRcoDiv<'source> {
    /// What holds of every token that exists: it is well formed.
    #[verifier::type_invariant]
    pub open spec fn valid(self) -> bool {
        self.well_formed()
    }

    /// The oscillator that the clock is taken from.
    pub closed spec fn spec_source(&self) -> Setting<&'source UsHfRco> {
        self.source
    }

    /// The oscillator that the clock is taken from.
    #[verifier::when_used_as_spec(spec_source)]
    pub fn source(&self) -> (source: Setting<&'source UsHfRco>)
        ensures
            source == self.spec_source(),
    {
        self.source
    }

    /// The divisor.
    pub closed spec fn spec_division(&self) -> Setting<u8> {
        self.division
    }

    /// The divisor.
    #[verifier::when_used_as_spec(spec_division)]
    pub fn division(&self) -> (division: Setting<u8>)
        ensures
            division == self.spec_division(),
    {
        self.division
    }

    /// The divisors that the domain supports.
    pub open spec fn supports(divisor: nat) -> bool {
        divisor == 1 || divisor == 2
    }

    /// The clock as reset leaves it for this library: off.
    pub(crate) fn claim_ownership() -> (ushfrcodiv: UsHfRcoDiv<'static>)
        ensures
            ushfrcodiv.source() == Setting::<&UsHfRco>::Off,
            ushfrcodiv.division() == Setting::<u8>::Off,
    {
        UsHfRcoDiv { source: Setting::Off, division: Setting::Off }
    }

    /// Takes the clock from the `USHFRCO` undivided, by setting `USHFRCODIV2DIS` in
    /// `CMU_USHFRCOCONF`. The oscillator has to run in its 24 MHz band.
    pub fn enable_div1<'new_source>(
        self,
        ushfrco: &'new_source UsHfRco,
        cmu: &mut Cmu,
    ) -> (ushfrcodiv: UsHfRcoDiv<'new_source>)
        requires
            ushfrco.band() == Setting::Configured(UsHfRcoBand::Mhz24),
        ensures
            ushfrcodiv.source() == Setting::Configured(ushfrco),
            ushfrcodiv.division() == Setting::Configured(1u8),
            ushfrcodiv.rate() == Some(ushfrco.rate().unwrap().divided_by(1)),
            final(cmu)@ == old(cmu)@ + seq![Operation::Modify(Field::UsHfRcoDiv2Dis(true))],
    {
        cmu.issue(Operation::Modify(Field::UsHfRcoDiv2Dis(true)));
        UsHfRcoDiv { source: Setting::Configured(ushfrco), division: Setting::Configured(1) }
    }

    /// Takes the clock from the `USHFRCO` divided by two, by clearing `USHFRCODIV2DIS` in
    /// `CMU_USHFRCOCONF`.
    pub fn enable_div2<'new_source>(
        self,
        ushfrco: &'new_source UsHfRco,
        cmu: &mut Cmu,
    ) -> (ushfrcodiv: UsHfRcoDiv<'new_source>)
        requires
            ushfrco.rate().is_some(),
        ensures
            ushfrcodiv.source() == Setting::Configured(ushfrco),
            ushfrcodiv.division() == Setting::Configured(2u8),
            ushfrcodiv.rate() == Some(ushfrco.rate().unwrap().divided_by(2)),
            final(cmu)@ == old(cmu)@ + seq![Operation::Modify(Field::UsHfRcoDiv2Dis(false))],
    {
        cmu.issue(Operation::Modify(Field::UsHfRcoDiv2Dis(false)));
        UsHfRcoDiv { source: Setting::Configured(ushfrco), division: Setting::Configured(2) }
    }

    /// Gives the oscillator back. Nothing is done to the hardware, which has no gate here: the
    /// transition is there so that the `USHFRCO` is no longer borrowed and can be retuned.
    pub fn disable(self) -> (ushfrcodiv: UsHfRcoDiv<'static>)
        ensures
            ushfrcodiv.source() == Setting::<&UsHfRco>::Off,
            ushfrcodiv.division() == Setting::<u8>::Off,
    {
        UsHfRcoDiv { source: Setting::Off, division: Setting::Off }
    }

    /// The divisor of a token is always one that the domain supports.
    pub proof fn lemma_divisor_supported(&self)
        requires
            self.well_formed(),
        ensures
            self.division() matches Setting::Configured(divisor) ==> Self::supports(
                divisor as nat,
            ),
    {
    }
}

impl<'source> Clock for UsHfRcoDiv<'source> {
    open spec fn spec_domain() -> Domain {
        Domain::UsHfRcoDiv
    }

    open spec fn well_formed(&self) -> bool {
        &&& self.source() matches Setting::Configured(ushfrco) ==> ushfrco.rate().is_some()
        &&& self.division() matches Setting::Configured(divisor) ==> Self::supports(divisor as nat)
        &&& self.division() == Setting::Configured(1u8) ==> (self.source() matches
            Setting::Configured(ushfrco) && ushfrco.band() == Setting::Configured(
            UsHfRcoBand::Mhz24,
        ))
    }

    open spec fn state(&self) -> ClockState {
        joint_state(self.source().state(), self.division().state())
    }

    open spec fn rate(&self) -> Option<Ratio> {
        match (self.source(), self.division()) {
            (Setting::Configured(ushfrco), Setting::Configured(divisor)) => match ushfrco.rate() {
                Some(rate) => Some(rate.divided_by(divisor as nat)),
                None => None,
            },
            _ => None,
        }
    }

    open spec fn root(&self) -> nat {
        match self.source() {
            Setting::Configured(ushfrco) => ushfrco.root(),
            _ => 0,
        }
    }

    open spec fn divisors(&self) -> Seq<nat> {
        match (self.source(), self.division()) {
            (Setting::Configured(ushfrco), Setting::Configured(divisor)) => ushfrco.divisors().push(
                divisor as nat,
            ),
            _ => Seq::empty(),
        }
    }

    open spec fn largest_division() -> nat {
        2
    }

    fn domain() -> (domain: Domain) {
        Domain::UsHfRcoDiv
    }

    fn status(&self) -> (status: ClockState) {
        joint_status(self.source.status(), self.division.status())
    }

    fn is_clock(&self) -> (capable: bool) {
        proof {
            use_type_invariant(self);
        }
        match (self.source, self.division) {
            (Setting::Configured(_), Setting::Configured(_)) => true,
            _ => false,
        }
    }

    fn frequency(&self) -> (frequency: Option<Frequency>) {
        proof {
            use_type_invariant(self);
        }
        match (self.source, self.division) {
            (Setting::Configured(ushfrco), Setting::Configured(divisor)) => {
                match ushfrco.frequency() {
                    Some(frequency) => Some(frequency.divided_by(divisor as u64)),
                    None => None,
                }
            },
            _ => None,
        }
    }

    fn release(self, cmu: &mut Cmu) {
        switch_off(Domain::UsHfRcoDiv, cmu);
    }

    proof fn lemma_capability_gating(&self) {
    }

    proof fn lemma_frequency_propagation(&self) {
        let ushfrco = self.source()->Configured_0;
        let divisor = self.division()->Configured_0;
        lemma_chain_extends(Ratio::whole(ushfrco.root()), ushfrco.divisors(), divisor as nat);
    }

    proof fn lemma_division_bounded(&self) {
    }
}

impl<'source> Device for UsHfRcoDiv<'source> {

}

impl StaticDevice for UsHfRcoDiv<'static> {
    fn finalize(self) -> (device: &'static Self) {
        make_static(self)
    }
}

} // verus!
