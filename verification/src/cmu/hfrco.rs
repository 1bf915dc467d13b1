//! The high-frequency RC oscillators.

use vstd::prelude::*;
use super::registers::{Cmu, Field, HfRcoBand, Operation, OscillatorCommand, StatusFlag};
use super::{switch_off, Clock, ClockState, Domain, Setting};
use crate::device_information::{
    get_auxhfrco_calib_band_1, get_auxhfrco_calib_band_11, get_auxhfrco_calib_band_14,
    get_auxhfrco_calib_band_21, get_auxhfrco_calib_band_7, get_hfrco_calib_band_1,
    get_hfrco_calib_band_11, get_hfrco_calib_band_14, get_hfrco_calib_band_21,
    get_hfrco_calib_band_7, DeviceInformation,
};
use crate::devices::{make_static, Device, StaticDevice};
use crate::frequency::{Frequency, Ratio};

verus! {

/// Ownership of the `HFRCO`, the high-frequency RC oscillator, which oscillates at 1 to 21 MHz.
#[derive(Debug)]
pub struct HfRco {
    band: Setting<HfRcoBand>,
}

impl HfRco {
    /// The band that the oscillator runs in.
    pub closed spec fn spec_band(&self) -> Setting<HfRcoBand> {
        self.band
    }

    /// The band that the oscillator runs in.
    #[verifier::when_used_as_spec(spec_band)]
    pub fn band(&self) -> (band: Setting<HfRcoBand>)
        ensures
            band == self.spec_band(),
    {
        self.band
    }

    /// The oscillator as reset leaves it: running in its 14 MHz band.
    pub(crate) fn claim_ownership() -> (hfrco: HfRco)
        ensures
            hfrco.band() == Setting::Configured(HfRcoBand::Mhz14),
    {
        HfRco { band: Setting::Configured(HfRcoBand::Mhz14) }
    }

    /// What enabling the oscillator issues: the band and its tuning in one store to
    /// `CMU_HFRCOCTRL`, the command `HFRCOEN`, and a wait for `HFRCORDY`.
    pub open spec fn enable_sequence(band: HfRcoBand, tuning: u8) -> Seq<Operation> {
        seq![
            Operation::WritePair(Field::HfRcoBand(band), Field::HfRcoTuning(tuning)),
            Operation::Write(Field::Oscillator(OscillatorCommand::HfRcoEn)),
            Operation::WaitUntilSet(StatusFlag::HfRcoRdy),
        ]
    }

    fn enable(self, band: HfRcoBand, tuning: u8, cmu: &mut Cmu) -> (hfrco: HfRco)
        ensures
            hfrco.band() == Setting::Configured(band),
            final(cmu)@ == old(cmu)@ + Self::enable_sequence(band, tuning),
    {
        cmu.issue(Operation::WritePair(Field::HfRcoBand(band), Field::HfRcoTuning(tuning)));
        cmu.issue(Operation::Write(Field::Oscillator(OscillatorCommand::HfRcoEn)));
        cmu.issue(Operation::WaitUntilSet(StatusFlag::HfRcoRdy));
        HfRco { band: Setting::Configured(band) }
    }

    /// Enables the `HFRCO` in its 1 MHz band, with the tuning that the factory found for that
    /// band, and waits until the oscillator is ready.
    pub fn enable_1mhz(self, information: &DeviceInformation, cmu: &mut Cmu) -> (hfrco: HfRco)
        ensures
            hfrco.band() == Setting::Configured(HfRcoBand::Mhz1),
            final(cmu)@ == old(cmu)@ + Self::enable_sequence(
                HfRcoBand::Mhz1,
                information.hfrco_calib_band_1,
            ),
    {
        self.enable(HfRcoBand::Mhz1, get_hfrco_calib_band_1(information), cmu)
    }

    /// Enables the `HFRCO` in its 7 MHz band, with the tuning that the factory found for that
    /// band, and waits until the oscillator is ready.
    pub fn enable_7mhz(self, information: &DeviceInformation, cmu: &mut Cmu) -> (hfrco: HfRco)
        ensures
            hfrco.band() == Setting::Configured(HfRcoBand::Mhz7),
            final(cmu)@ == old(cmu)@ + Self::enable_sequence(
                HfRcoBand::Mhz7,
                information.hfrco_calib_band_7,
            ),
    {
        self.enable(HfRcoBand::Mhz7, get_hfrco_calib_band_7(information), cmu)
    }

    /// Enables the `HFRCO` in its 11 MHz band, with the tuning that the factory found for that
    /// band, and waits until the oscillator is ready.
    pub fn enable_11mhz(self, information: &DeviceInformation, cmu: &mut Cmu) -> (hfrco: HfRco)
        ensures
            hfrco.band() == Setting::Configured(HfRcoBand::Mhz11),
            final(cmu)@ == old(cmu)@ + Self::enable_sequence(
                HfRcoBand::Mhz11,
                information.hfrco_calib_band_11,
            ),
    {
        self.enable(HfRcoBand::Mhz11, get_hfrco_calib_band_11(information), cmu)
    }

    /// Enables the `HFRCO` in its 14 MHz band, with the tuning that the factory found for that
    /// band, and waits until the oscillator is ready.
    pub fn enable_14mhz(self, information: &DeviceInformation, cmu: &mut Cmu) -> (hfrco: HfRco)
        ensures
            hfrco.band() == Setting::Configured(HfRcoBand::Mhz14),
            final(cmu)@ == old(cmu)@ + Self::enable_sequence(
                HfRcoBand::Mhz14,
                information.hfrco_calib_band_14,
            ),
    {
        self.enable(HfRcoBand::Mhz14, get_hfrco_calib_band_14(information), cmu)
    }

    /// Enables the `HFRCO` in its 21 MHz band, with the tuning that the factory found for that
    /// band, and waits until the oscillator is ready.
    pub fn enable_21mhz(self, information: &DeviceInformation, cmu: &mut Cmu) -> (hfrco: HfRco)
        ensures
            hfrco.band() == Setting::Configured(HfRcoBand::Mhz21),
            final(cmu)@ == old(cmu)@ + Self::enable_sequence(
                HfRcoBand::Mhz21,
                information.hfrco_calib_band_21,
            ),
    {
        self.enable(HfRcoBand::Mhz21, get_hfrco_calib_band_21(information), cmu)
    }

    /// Disables the `HFRCO` with the command `HFRCODIS`. The hardware stops the oscillator at
    /// once, so nothing is waited for.
    pub fn disable(self, cmu: &mut Cmu) -> (hfrco: HfRco)
        ensures
            hfrco.band() == Setting::<HfRcoBand>::Off,
            final(cmu)@ == old(cmu)@ + Domain::HfRco.disable_sequence(),
    {
        switch_off(Domain::HfRco, cmu);
        HfRco { band: Setting::Off }
    }
}

impl Clock for HfRco {
    open spec fn spec_domain() -> Domain {
        Domain::HfRco
    }

    open spec fn well_formed(&self) -> bool {
        true
    }

    open spec fn state(&self) -> ClockState {
        self.band().state()
    }

    open spec fn rate(&self) -> Option<Ratio> {
        match self.band() {
            Setting::Configured(band) => Some(Ratio::whole(band.hertz() as nat)),
            _ => None,
        }
    }

    open spec fn root(&self) -> nat {
        match self.band() {
            Setting::Configured(band) => band.hertz() as nat,
            _ => 0,
        }
    }

    open spec fn divisors(&self) -> Seq<nat> {
        Seq::empty()
    }

    open spec fn largest_division() -> nat {
        1
    }

    fn domain() -> (domain: Domain) {
        Domain::HfRco
    }

    fn status(&self) -> (status: ClockState) {
        self.band.status()
    }

    fn is_clock(&self) -> (capable: bool) {
        match self.band {
            Setting::Configured(_) => true,
            _ => false,
        }
    }

    fn frequency(&self) -> (frequency: Option<Frequency>) {
        match self.band {
            Setting::Configured(band) => Some(Frequency::new(band.hertz())),
            _ => None,
        }
    }

    fn release(self, cmu: &mut Cmu) {
        switch_off(Domain::HfRco, cmu);
    }

    proof fn lemma_capability_gating(&self) {
    }

    proof fn lemma_frequency_propagation(&self) {
    }

    proof fn lemma_division_bounded(&self) {
    }
}

impl Device for HfRco {

}

impl StaticDevice for HfRco {
    fn finalize(self) -> (device: &'static Self) {
        make_static(self)
    }
}

/// Ownership of the `AUXHFRCO`, the auxiliary high-frequency RC oscillator, which oscillates at
/// 1 to 21 MHz.
#[derive(Debug)]
pub struct AuxHfRco {
    band: Setting<HfRcoBand>,
}

impl AuxHfRco {
    /// The band that the oscillator runs in.
    pub closed spec fn spec_band(&self) -> Setting<HfRcoBand> {
        self.band
    }

    /// The band that the oscillator runs in.
    #[verifier::when_used_as_spec(spec_band)]
    pub fn band(&self) -> (band: Setting<HfRcoBand>)
        ensures
            band == self.spec_band(),
    {
        self.band
    }

    /// The oscillator as reset leaves it: off.
    pub(crate) fn claim_ownership() -> (auxhfrco: AuxHfRco)
        ensures
            auxhfrco.band() == Setting::<HfRcoBand>::Off,
    {
        AuxHfRco { band: Setting::Off }
    }

    /// What enabling the oscillator issues: the band and its tuning in one store to
    /// `CMU_AUXHFRCOCTRL`, the command `AUXHFRCOEN`, and a wait for `AUXHFRCORDY`.
    pub open spec fn enable_sequence(band: HfRcoBand, tuning: u8) -> Seq<Operation> {
        seq![
            Operation::WritePair(Field::AuxHfRcoBand(band), Field::AuxHfRcoTuning(tuning)),
            Operation::Write(Field::Oscillator(OscillatorCommand::AuxHfRcoEn)),
            Operation::WaitUntilSet(StatusFlag::AuxHfRcoRdy),
        ]
    }

    fn enable(self, band: HfRcoBand, tuning: u8, cmu: &mut Cmu) -> (auxhfrco: AuxHfRco)
        ensures
            auxhfrco.band() == Setting::Configured(band),
            final(cmu)@ == old(cmu)@ + Self::enable_sequence(band, tuning),
    {
        cmu.issue(Operation::WritePair(Field::AuxHfRcoBand(band), Field::AuxHfRcoTuning(tuning)));
        cmu.issue(Operation::Write(Field::Oscillator(OscillatorCommand::AuxHfRcoEn)));
        cmu.issue(Operation::WaitUntilSet(StatusFlag::AuxHfRcoRdy));
        AuxHfRco { band: Setting::Configured(band) }
    }

    /// Enables the `AUXHFRCO` in its 1 MHz band, with the tuning that the factory found for that
    /// band, and waits until the oscillator is ready.
    pub fn enable_1mhz(self, information: &DeviceInformation, cmu: &mut Cmu) -> (auxhfrco:
        AuxHfRco)
        ensures
            auxhfrco.band() == Setting::Configured(HfRcoBand::Mhz1),
            final(cmu)@ == old(cmu)@ + Self::enable_sequence(
                HfRcoBand::Mhz1,
                information.auxhfrco_calib_band_1,
            ),
    {
        self.enable(HfRcoBand::Mhz1, get_auxhfrco_calib_band_1(information), cmu)
    }

    /// Enables the `AUXHFRCO` in its 7 MHz band, with the tuning that the factory found for that
    /// band, and waits until the oscillator is ready.
    pub fn enable_7mhz(self, information: &DeviceInformation, cmu: &mut Cmu) -> (auxhfrco:
        AuxHfRco)
        ensures
            auxhfrco.band() == Setting::Configured(HfRcoBand::Mhz7),
            final(cmu)@ == old(cmu)@ + Self::enable_sequence(
                HfRcoBand::Mhz7,
                information.auxhfrco_calib_band_7,
            ),
    {
        self.enable(HfRcoBand::Mhz7, get_auxhfrco_calib_band_7(information), cmu)
    }

    /// Enables the `AUXHFRCO` in its 11 MHz band, with the tuning that the factory found for
    /// that band, and waits until the oscillator is ready.
    pub fn enable_11mhz(self, information: &DeviceInformation, cmu: &mut Cmu) -> (auxhfrco:
        AuxHfRco)
        ensures
            auxhfrco.band() == Setting::Configured(HfRcoBand::Mhz11),
            final(cmu)@ == old(cmu)@ + Self::enable_sequence(
                HfRcoBand::Mhz11,
                information.auxhfrco_calib_band_11,
            ),
    {
        self.enable(HfRcoBand::Mhz11, get_auxhfrco_calib_band_11(information), cmu)
    }

    /// Enables the `AUXHFRCO` in its 14 MHz band, with the tuning that the factory found for
    /// that band, and waits until the oscillator is ready.
    pub fn enable_14mhz(self, information: &DeviceInformation, cmu: &mut Cmu) -> (auxhfrco:
        AuxHfRco)
        ensures
            auxhfrco.band() == Setting::Configured(HfRcoBand::Mhz14),
            final(cmu)@ == old(cmu)@ + Self::enable_sequence(
                HfRcoBand::Mhz14,
                information.auxhfrco_calib_band_14,
            ),
    {
        self.enable(HfRcoBand::Mhz14, get_auxhfrco_calib_band_14(information), cmu)
    }

    /// Enables the `AUXHFRCO` in its 21 MHz band, with the tuning that the factory found for
    /// that band, and waits until the oscillator is ready.
    pub fn enable_21mhz(self, information: &DeviceInformation, cmu: &mut Cmu) -> (auxhfrco:
        AuxHfRco)
        ensures
            auxhfrco.band() == Setting::Configured(HfRcoBand::Mhz21),
            final(cmu)@ == old(cmu)@ + Self::enable_sequence(
                HfRcoBand::Mhz21,
                information.auxhfrco_calib_band_21,
            ),
    {
        self.enable(HfRcoBand::Mhz21, get_auxhfrco_calib_band_21(information), cmu)
    }

    /// Disables the `AUXHFRCO` with the command `AUXHFRCODIS`. The hardware stops the oscillator
    /// at once, so nothing is waited for.
    pub fn disable(self, cmu: &mut Cmu) -> (auxhfrco: AuxHfRco)
        ensures
            auxhfrco.band() == Setting::<HfRcoBand>::Off,
            final(cmu)@ == old(cmu)@ + Domain::AuxHfRco.disable_sequence(),
    {
        switch_off(Domain::AuxHfRco, cmu);
        AuxHfRco { band: Setting::Off }
    }
}

impl Clock for AuxHfRco {
    open spec fn spec_domain() -> Domain {
        Domain::AuxHfRco
    }

    open spec fn well_formed(&self) -> bool {
        true
    }

    open spec fn state(&self) -> ClockState {
        self.band().state()
    }

    open spec fn rate(&self) -> Option<Ratio> {
        match self.band() {
            Setting::Configured(band) => Some(Ratio::whole(band.hertz() as nat)),
            _ => None,
        }
    }

    open spec fn root(&self) -> nat {
        match self.band() {
            Setting::Configured(band) => band.hertz() as nat,
            _ => 0,
        }
    }

    open spec fn divisors(&self) -> Seq<nat> {
        Seq::empty()
    }

    open spec fn largest_division() -> nat {
        1
    }

    fn domain() -> (domain: Domain) {
        Domain::AuxHfRco
    }

    fn status(&self) -> (status: ClockState) {
        self.band.status()
    }

    fn is_clock(&self) -> (capable: bool) {
        match self.band {
            Setting::Configured(_) => true,
            _ => false,
        }
    }

    fn frequency(&self) -> (frequency: Option<Frequency>) {
        match self.band {
            Setting::Configured(band) => Some(Frequency::new(band.hertz())),
            _ => None,
        }
    }

    fn release(self, cmu: &mut Cmu) {
        switch_off(Domain::AuxHfRco, cmu);
    }

    proof fn lemma_capability_gating(&self) {
    }

    proof fn lemma_frequency_propagation(&self) {
    }

    proof fn lemma_division_bounded(&self) {
    }
}

impl Device for AuxHfRco {

}

impl StaticDevice for AuxHfRco {
    fn finalize(self) -> (device: &'static Self) {
        make_static(self)
    }
}

} // verus!
