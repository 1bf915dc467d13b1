//! The crystal oscillators.
//!
//! Neither can be enabled through this library yet: their tokens start off and can only be
//! told to stay off.

use vstd::prelude::*;
use super::registers::Cmu;
use super::{switch_off, Clock, ClockState, Domain, Setting};
use crate::devices::{make_static, Device, StaticDevice};
use crate::frequency::{Frequency, Ratio};

verus! {

/// Ownership of the `HFXO`, the high-frequency crystal oscillator, which oscillates at the 4 to
/// 25 MHz of an external crystal.
#[derive(Debug)]
pub struct HfXo {
    crystal: Setting<u64>,
}

impl HfXo {
    /// The frequency of the crystal in hertz.
    pub closed spec fn spec_crystal(&self) -> Setting<u64> {
        self.crystal
    }

    /// The frequency of the crystal in hertz.
    #[verifier::when_used_as_spec(spec_crystal)]
    pub fn crystal(&self) -> (crystal: Setting<u64>)
        ensures
            crystal == self.spec_crystal(),
    {
        self.crystal
    }

    /// The oscillator as reset leaves it: off.
    pub(crate) fn claim_ownership() -> (hfxo: HfXo)
        ensures
            hfxo.crystal() == Setting::<u64>::Off,
    {
        HfXo { crystal: Setting::Off }
    }

    /// Disables the `HFXO` with the command `HFXODIS`.
    pub fn disable(self, cmu: &mut Cmu) -> (hfxo: HfXo)
        ensures
            hfxo.crystal() == Setting::<u64>::Off,
            final(cmu)@ == old(cmu)@ + Domain::HfXo.disable_sequence(),
    {
        switch_off(Domain::HfXo, cmu);
        HfXo { crystal: Setting::Off }
    }
}

impl Clock for HfXo {
    open spec fn spec_domain() -> Domain {
        Domain::HfXo
    }

    open spec fn well_formed(&self) -> bool {
        true
    }

    open spec fn state(&self) -> ClockState {
        self.crystal().state()
    }

    open spec fn rate(&self) -> Option<Ratio> {
        match self.crystal() {
            Setting::Configured(hertz) => Some(Ratio::whole(hertz as nat)),
            _ => None,
        }
    }

    open spec fn root(&self) -> nat {
        match self.crystal() {
            Setting::Configured(hertz) => hertz as nat,
            _ => 0,
        }
    }

    open spec fn divisors(&self) -> Seq<nat> {
        Seq::empty()
    }

    open spec fn largest_division() -> nat {
        1
    }

    fn domain() -> (domain: Domain) {
        Domain::HfXo
    }

    fn status(&self) -> (status: ClockState) {
        self.crystal.status()
    }

    fn is_clock(&self) -> (capable: bool) {
        match self.crystal {
            Setting::Configured(_) => true,
            _ => false,
        }
    }

    fn frequency(&self) -> (frequency: Option<Frequency>) {
        match self.crystal {
            Setting::Configured(hertz) => Some(Frequency::new(hertz)),
            _ => None,
        }
    }

    fn release(self, cmu: &mut Cmu) {
        switch_off(Domain::HfXo, cmu);
    }

    proof fn lemma_capability_gating(&self) {
    }

    proof fn lemma_frequency_propagation(&self) {
    }

    proof fn lemma_division_bounded(&self) {
    }
}

impl Device for HfXo {

}

impl StaticDevice for HfXo {
    fn finalize(self) -> (device: &'static Self) {
        make_static(self)
    }
}

/// Ownership of the `LFXO`, the low-frequency crystal oscillator, which oscillates at the
/// 32768 Hz of an external crystal.
#[derive(Debug)]
pub struct LfXo {
    crystal: Setting<u64>,
}

impl LfXo {
    /// The frequency of the crystal in hertz.
    pub closed spec fn spec_crystal(&self) -> Setting<u64> {
        self.crystal
    }

    /// The frequency of the crystal in hertz.
    #[verifier::when_used_as_spec(spec_crystal)]
    pub fn crystal(&self) -> (crystal: Setting<u64>)
        ensures
            crystal == self.spec_crystal(),
    {
        self.crystal
    }

    /// The oscillator as reset leaves it: off.
    pub(crate) fn claim_ownership() -> (lfxo: LfXo)
        ensures
            lfxo.crystal() == Setting::<u64>::Off,
    {
        LfXo { crystal: Setting::Off }
    }

    /// Disables the `LFXO` with the command `LFXODIS`.
    pub fn disable(self, cmu: &mut Cmu) -> (lfxo: LfXo)
        ensures
            lfxo.crystal() == Setting::<u64>::Off,
            final(cmu)@ == old(cmu)@ + Domain::LfXo.disable_sequence(),
    {
        switch_off(Domain::LfXo, cmu);
        LfXo { crystal: Setting::Off }
    }
}

impl Clock for LfXo {
    open spec fn spec_domain() -> Domain {
        Domain::LfXo
    }

    open spec fn well_formed(&self) -> bool {
        true
    }

    open spec fn state(&self) -> ClockState {
        self.crystal().state()
    }

    open spec fn rate(&self) -> Option<Ratio> {
        match self.crystal() {
            Setting::Configured(hertz) => Some(Ratio::whole(hertz as nat)),
            _ => None,
        }
    }

    open spec fn root(&self) -> nat {
        match self.crystal() {
            Setting::Configured(hertz) => hertz as nat,
            _ => 0,
        }
    }

    open spec fn divisors(&self) -> Seq<nat> {
        Seq::empty()
    }

    open spec fn largest_division() -> nat {
        1
    }

    fn domain() -> (domain: Domain) {
        Domain::LfXo
    }

    fn status(&self) -> (status: ClockState) {
        self.crystal.status()
    }

    fn is_clock(&self) -> (capable: bool) {
        match self.crystal {
            Setting::Configured(_) => true,
            _ => false,
        }
    }

    fn frequency(&self) -> (frequency: Option<Frequency>) {
        match self.crystal {
            Setting::Configured(hertz) => Some(Frequency::new(hertz)),
            _ => None,
        }
    }

    fn release(self, cmu: &mut Cmu) {
        switch_off(Domain::LfXo, cmu);
    }

    proof fn lemma_capability_gating(&self) {
    }

    proof fn lemma_frequency_propagation(&self) {
    }

    proof fn lemma_division_bounded(&self) {
    }
}

impl Device for LfXo {

}

impl StaticDevice for LfXo {
    fn finalize(self) -> (device: &'static Self) {
        make_static(self)
    }
}

} // verus!
