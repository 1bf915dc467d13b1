//! The low-frequency RC oscillators.

use vstd::prelude::*;
use super::registers::{Cmu, Field, Operation, OscillatorCommand, StatusFlag};
use super::{switch_off, Clock, ClockState, Domain};
use crate::devices::{make_static, Device, StaticDevice};
use crate::frequency::{Frequency, Ratio};

verus! {

/// The frequency of the `LFRCO` in hertz.
pub const LFRCO_HERTZ: u64 = 32_768;

/// The frequency of the `ULFRCO` in hertz.
pub const ULFRCO_HERTZ: u64 = 1_000;

/// Ownership of the `LFRCO`, the low-frequency RC oscillator, which oscillates at 32768 Hz
/// unless it is turned off.
#[derive(Debug)]
pub struct LfRco {
    oscillation: ClockState,
}

impl LfRco {
    /// The oscillator as reset leaves it: off.
    pub(crate) fn claim_ownership() -> (lfrco: LfRco)
        ensures
            lfrco.state() == ClockState::Off,
    {
        LfRco { oscillation: ClockState::Off }
    }

    /// What enabling the oscillator issues: the command `LFRCOEN`, and a wait for `LFRCORDY`.
    pub open spec fn enable_sequence() -> Seq<Operation> {
        seq![
            Operation::Write(Field::Oscillator(OscillatorCommand::LfRcoEn)),
            Operation::WaitUntilSet(StatusFlag::LfRcoRdy),
        ]
    }

    /// Enables the `LFRCO` with the command `LFRCOEN` and waits until the oscillator is ready.
    pub fn enable_32768hz(self, cmu: &mut Cmu) -> (lfrco: LfRco)
        ensures
            lfrco.state() == ClockState::Configured,
            lfrco.rate() == Some(Ratio::whole(32_768)),
            final(cmu)@ == old(cmu)@ + Self::enable_sequence(),
    {
        cmu.issue(Operation::Write(Field::Oscillator(OscillatorCommand::LfRcoEn)));
        cmu.issue(Operation::WaitUntilSet(StatusFlag::LfRcoRdy));
        LfRco { oscillation: ClockState::Configured }
    }

    /// Disables the `LFRCO` with the command `LFRCODIS`. The hardware stops the oscillator at
    /// once, so nothing is waited for.
    pub fn disable(self, cmu: &mut Cmu) -> (lfrco: LfRco)
        ensures
            lfrco.state() == ClockState::Off,
            final(cmu)@ == old(cmu)@ + Domain::LfRco.disable_sequence(),
    {
        switch_off(Domain::LfRco, cmu);
        LfRco { oscillation: ClockState::Off }
    }
}

impl Clock for LfRco {
    open spec fn spec_domain() -> Domain {
        Domain::LfRco
    }

    open spec fn well_formed(&self) -> bool {
        true
    }

    closed spec fn state(&self) -> ClockState {
        self.oscillation
    }

    open spec fn rate(&self) -> Option<Ratio> {
        if self.state() == ClockState::Configured {
            Some(Ratio::whole(LFRCO_HERTZ as nat))
        } else {
            None
        }
    }

    open spec fn root(&self) -> nat {
        LFRCO_HERTZ as nat
    }

    open spec fn divisors(&self) -> Seq<nat> {
        Seq::empty()
    }

    open spec fn largest_division() -> nat {
        1
    }

    fn domain() -> (domain: Domain) {
        Domain::LfRco
    }

    fn status(&self) -> (status: ClockState) {
        self.oscillation
    }

    fn is_clock(&self) -> (capable: bool) {
        match self.oscillation {
            ClockState::Configured => true,
            _ => false,
        }
    }

    fn frequency(&self) -> (frequency: Option<Frequency>) {
        match self.oscillation {
            ClockState::Configured => Some(Frequency::new(LFRCO_HERTZ)),
            _ => None,
        }
    }

    fn release(self, cmu: &mut Cmu) {
        switch_off(Domain::LfRco, cmu);
    }

    proof fn lemma_capability_gating(&self) {
    }

    proof fn lemma_frequency_propagation(&self) {
    }

    proof fn lemma_division_bounded(&self) {
    }
}

impl Device for LfRco {

}

impl StaticDevice for LfRco {
    fn finalize(self) -> (device: &'static Self) {
        make_static(self)
    }
}

/// Ownership of the `ULFRCO`, the ultra low-frequency RC oscillator, which always oscillates at
/// 1000 Hz.
///
/// The hardware can neither stop nor retune this oscillator, so its token has one state and no
/// transition, and giving the token up does nothing.
#[derive(Debug)]
pub struct ULfRco {
    always_on: (),
}

impl ULfRco {
    /// The oscillator as reset leaves it, and as it stays: running.
    pub(crate) fn claim_ownership() -> (ulfrco: ULfRco) {
        ULfRco { always_on: () }
    }
}

impl Clock for ULfRco {
    open spec fn spec_domain() -> Domain {
        Domain::ULfRco
    }

    open spec fn well_formed(&self) -> bool {
        true
    }

    open spec fn state(&self) -> ClockState {
        ClockState::Configured
    }

    open spec fn rate(&self) -> Option<Ratio> {
        Some(Ratio::whole(ULFRCO_HERTZ as nat))
    }

    open spec fn root(&self) -> nat {
        ULFRCO_HERTZ as nat
    }

    open spec fn divisors(&self) -> Seq<nat> {
        Seq::empty()
    }

    open spec fn largest_division() -> nat {
        1
    }

    fn domain() -> (domain: Domain) {
        Domain::ULfRco
    }

    fn status(&self) -> (status: ClockState) {
        ClockState::Configured
    }

    fn is_clock(&self) -> (capable: bool) {
        true
    }

    fn frequency(&self) -> (frequency: Option<Frequency>) {
        Some(Frequency::new(ULFRCO_HERTZ))
    }

    fn release(self, cmu: &mut Cmu) {
        switch_off(Domain::ULfRco, cmu);
    }

    proof fn lemma_capability_gating(&self) {
    }

    proof fn lemma_frequency_propagation(&self) {
    }

    proof fn lemma_division_bounded(&self) {
    }
}

impl Device for ULfRco {

}

impl StaticDevice for ULfRco {
    fn finalize(self) -> (device: &'static Self) {
        make_static(self)
    }
}

} // verus!
