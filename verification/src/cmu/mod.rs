//! The clock tree of the clock management unit.
//!
//! Every clock domain of the chip is owned through one token. A token records how its domain is
//! configured: an oscillator its frequency, a switch the source it selects, a switch with a
//! divider its source and its divisor. A domain is reconfigured by giving its token up and
//! getting a new one back, so a token that has been through a transition cannot be used again.
//! A switch borrows the token of the source it selects, so the source cannot be stopped or
//! retuned while anything runs on it.
//!
//! The types follow the clock diagram of the reference manual, with these exceptions:
//!
//! * [`HfCoreClkLeDiv`] is the clock behind the box "/2 or /4" that follows `HFCORECLKLE`. The
//!   manual calls it `HFCORECLKLEDIV2`, although it is divided by two or by four. The type also
//!   turns `HFCORECLKLE` itself on and off, which therefore has no type of its own.
//! * [`UsHfRcoDiv`] is the clock behind the box "/1 or /2" that feeds `HFCLK`. The manual calls
//!   it `USHFRCODIV2`, although it is divided by one or by two.
//! * `HFCORECLKCM0`, `PCNT0CLK` and `WDOGCLK` have no type.

use vstd::prelude::*;
use crate::frequency::{lemma_chain_is_exact, product, rate_of, Frequency, Ratio};
use self::registers::{
    lemma_stores_of_guarded, stores, Cmu, CoreClockGate, Field, HfRcoBand, LfSelect, LfcSelect,
    Operation, OscillatorCommand, PeripheralClockGate, UsHfRcoBand,
};

pub mod hfclk;
pub mod hfcoreclk;
pub mod hfcoreclkle;
pub mod hfcoreclkusbc;
pub mod hfperclk;
pub mod hfrco;
pub mod lfa;
pub mod lfb;
pub mod lfc;
pub mod lfrco;
pub mod registers;
pub mod ushfrco;
pub mod xo;

pub use self::hfclk::{HfClk, HfClkSource};
pub use self::hfcoreclk::{HfCoreClk, HfCoreClkAes, HfCoreClkDma, HfCoreClkGate, HfCoreClkUsb};
pub use self::hfcoreclkle::HfCoreClkLeDiv;
pub use self::hfcoreclkusbc::{HfCoreClkUsbC, UsbcSource};
pub use self::hfperclk::{
    HfPerClk, HfPerClkAcmp0, HfPerClkAdc0, HfPerClkGate, HfPerClkGpio, HfPerClkI2c0, HfPerClkIdac0,
    HfPerClkPrs, HfPerClkTimer0, HfPerClkTimer1, HfPerClkTimer2, HfPerClkUsart0, HfPerClkUsart1,
    HfPerClkVcmp,
};
pub use self::hfrco::{AuxHfRco, HfRco};
pub use self::lfa::{LfSource, LfaClk, LfaClkRtc};
pub use self::lfb::{LfbClk, LfbClkLeuart0};
pub use self::lfc::{LfcClk, LfcClkUsbLe, LfcSource};
pub use self::lfrco::{LfRco, ULfRco};
pub use self::ushfrco::{UsHfRco, UsHfRcoDiv};
pub use self::xo::{HfXo, LfXo};

verus! {

/// The three families of states that a token can be in.
#[derive(Clone, Copy, Debug, PartialEq, Eq, Structural)]
pub enum ClockState {
    /// The domain is switched off. It has no frequency.
    Off,
    /// The domain was not touched since reset. It may be running, but nothing is known of it.
    Uninitialized,
    /// The domain runs, from a known source at a known frequency.
    Configured,
}

/// How one part of a domain is set: the frequency of an oscillator, the source of a switch, the
/// divisor of a divider.
#[derive(Debug, PartialEq, Eq)]
pub enum Setting<T> {
    /// Switched off.
    Off,
    /// Not touched since reset.
    Uninitialized,
    /// Set to this value.
    Configured(T),
}

impl<T: Copy> Clone for Setting<T> {
    fn clone(&self) -> (copy: Self)
        ensures
            copy == *self,
    {
        *self
    }
}

impl<T: Copy> Copy for Setting<T> {

}

impl<T> Setting<T> {
    /// The family of this setting.
    pub open spec fn state(self) -> ClockState {
        match self {
            Setting::Off => ClockState::Off,
            Setting::Uninitialized => ClockState::Uninitialized,
            Setting::Configured(_) => ClockState::Configured,
        }
    }

    /// The family of this setting.
    pub fn status(&self) -> (status: ClockState)
        ensures
            status == self.state(),
    {
        match self {
            Setting::Off => ClockState::Off,
            Setting::Uninitialized => ClockState::Uninitialized,
            Setting::Configured(_) => ClockState::Configured,
        }
    }
}

/// The family of a domain with a source and a divider: it is configured where both are, and
/// uninitialized where that fails because one of them was not touched since reset.
pub open spec fn joint_state(source: ClockState, division: ClockState) -> ClockState {
    if source == ClockState::Configured && division == ClockState::Configured {
        ClockState::Configured
    } else if source == ClockState::Uninitialized || division == ClockState::Uninitialized {
        ClockState::Uninitialized
    } else {
        ClockState::Off
    }
}

/// The family of a domain with a source and a divider.
pub fn joint_status(source: ClockState, division: ClockState) -> (status: ClockState)
    ensures
        status == joint_state(source, division),
{
    match (source, division) {
        (ClockState::Configured, ClockState::Configured) => ClockState::Configured,
        (ClockState::Uninitialized, _) => ClockState::Uninitialized,
        (_, ClockState::Uninitialized) => ClockState::Uninitialized,
        _ => ClockState::Off,
    }
}

/// The clock domains.
#[derive(Clone, Copy, Debug, PartialEq, Eq, Structural)]
pub enum Domain {
    HfRco,
    AuxHfRco,
    LfRco,
    ULfRco,
    UsHfRco,
    HfXo,
    LfXo,
    UsHfRcoDiv,
    HfClk,
    HfCoreClk,
    HfCoreClkAes,
    HfCoreClkDma,
    HfCoreClkUsb,
    HfCoreClkLeDiv,
    HfCoreClkUsbC,
    HfPerClk,
    HfPerClkTimer0,
    HfPerClkTimer1,
    HfPerClkTimer2,
    HfPerClkUsart0,
    HfPerClkUsart1,
    HfPerClkAcmp0,
    HfPerClkPrs,
    HfPerClkIdac0,
    HfPerClkGpio,
    HfPerClkVcmp,
    HfPerClkAdc0,
    HfPerClkI2c0,
    LfaClk,
    LfaClkRtc,
    LfbClk,
    LfbClkLeuart0,
    LfcClk,
    LfcClkUsbLe,
}

impl Domain {
    /// The store that switches the domain off, for the domains that the hardware can switch off.
    ///
    /// Four domains have none. `HFCORECLK` drives the processor, and the `ULFRCO` cannot be
    /// stopped at all. `HFCLK` has no gate of its own, and the divider behind the `USHFRCO` is
    /// one bit that selects the divisor.
    pub open spec fn spec_disable_operation(self) -> Option<Operation> {
        match self {
            Domain::HfRco => Some(Operation::Write(Field::Oscillator(OscillatorCommand::HfRcoDis))),
            Domain::AuxHfRco => Some(
                Operation::Write(Field::Oscillator(OscillatorCommand::AuxHfRcoDis)),
            ),
            Domain::LfRco => Some(Operation::Write(Field::Oscillator(OscillatorCommand::LfRcoDis))),
            Domain::ULfRco => None,
            Domain::UsHfRco => Some(
                Operation::Write(Field::Oscillator(OscillatorCommand::UsHfRcoDis)),
            ),
            Domain::HfXo => Some(Operation::Write(Field::Oscillator(OscillatorCommand::HfXoDis))),
            Domain::LfXo => Some(Operation::Write(Field::Oscillator(OscillatorCommand::LfXoDis))),
            Domain::UsHfRcoDiv => None,
            Domain::HfClk => None,
            Domain::HfCoreClk => None,
            Domain::HfCoreClkAes => Some(
                Operation::Modify(Field::CoreClockEnable(CoreClockGate::Aes, false)),
            ),
            Domain::HfCoreClkDma => Some(
                Operation::Modify(Field::CoreClockEnable(CoreClockGate::Dma, false)),
            ),
            Domain::HfCoreClkUsb => Some(
                Operation::Modify(Field::CoreClockEnable(CoreClockGate::Usb, false)),
            ),
            Domain::HfCoreClkLeDiv => Some(
                Operation::Modify(Field::CoreClockEnable(CoreClockGate::Le, false)),
            ),
            Domain::HfCoreClkUsbC => Some(
                Operation::Modify(Field::CoreClockEnable(CoreClockGate::Usbc, false)),
            ),
            Domain::HfPerClk => Some(Operation::Write(Field::HfPerClkEn(false))),
            Domain::HfPerClkTimer0 => Some(
                Operation::Modify(Field::PeripheralClockEnable(PeripheralClockGate::Timer0, false)),
            ),
            Domain::HfPerClkTimer1 => Some(
                Operation::Modify(Field::PeripheralClockEnable(PeripheralClockGate::Timer1, false)),
            ),
            Domain::HfPerClkTimer2 => Some(
                Operation::Modify(Field::PeripheralClockEnable(PeripheralClockGate::Timer2, false)),
            ),
            Domain::HfPerClkUsart0 => Some(
                Operation::Modify(Field::PeripheralClockEnable(PeripheralClockGate::Usart0, false)),
            ),
            Domain::HfPerClkUsart1 => Some(
                Operation::Modify(Field::PeripheralClockEnable(PeripheralClockGate::Usart1, false)),
            ),
            Domain::HfPerClkAcmp0 => Some(
                Operation::Modify(Field::PeripheralClockEnable(PeripheralClockGate::Acmp0, false)),
            ),
            Domain::HfPerClkPrs => Some(
                Operation::Modify(Field::PeripheralClockEnable(PeripheralClockGate::Prs, false)),
            ),
            Domain::HfPerClkIdac0 => Some(
                Operation::Modify(Field::PeripheralClockEnable(PeripheralClockGate::Idac0, false)),
            ),
            Domain::HfPerClkGpio => Some(
                Operation::Modify(Field::PeripheralClockEnable(PeripheralClockGate::Gpio, false)),
            ),
            Domain::HfPerClkVcmp => Some(
                Operation::Modify(Field::PeripheralClockEnable(PeripheralClockGate::Vcmp, false)),
            ),
            Domain::HfPerClkAdc0 => Some(
                Operation::Modify(Field::PeripheralClockEnable(PeripheralClockGate::Adc0, false)),
            ),
            Domain::HfPerClkI2c0 => Some(
                Operation::Modify(Field::PeripheralClockEnable(PeripheralClockGate::I2c0, false)),
            ),
            Domain::LfaClk => Some(
                Operation::ModifyPair(Field::Lfae(false), Field::Lfa(LfSelect::Disabled)),
            ),
            Domain::LfaClkRtc => Some(Operation::Write(Field::RtcEnable(false))),
            Domain::LfbClk => Some(
                Operation::ModifyPair(Field::Lfbe(false), Field::Lfb(LfSelect::Disabled)),
            ),
            Domain::LfbClkLeuart0 => Some(Operation::Write(Field::Leuart0Enable(false))),
            Domain::LfcClk => Some(Operation::Modify(Field::Lfc(LfcSelect::Disabled))),
            Domain::LfcClkUsbLe => Some(Operation::Write(Field::UsbLeEnable(false))),
        }
    }

    /// The store that switches the domain off, for the domains that the hardware can switch off.
    #[verifier::when_used_as_spec(spec_disable_operation)]
    pub fn disable_operation(self) -> (operation: Option<Operation>)
        ensures
            operation == self.spec_disable_operation(),
            operation matches Some(store) ==> store.well_formed(),
    {
        match self {
            Domain::HfRco => Some(Operation::Write(Field::Oscillator(OscillatorCommand::HfRcoDis))),
            Domain::AuxHfRco => Some(
                Operation::Write(Field::Oscillator(OscillatorCommand::AuxHfRcoDis)),
            ),
            Domain::LfRco => Some(Operation::Write(Field::Oscillator(OscillatorCommand::LfRcoDis))),
            Domain::UsHfRco => Some(
                Operation::Write(Field::Oscillator(OscillatorCommand::UsHfRcoDis)),
            ),
            Domain::HfXo => Some(Operation::Write(Field::Oscillator(OscillatorCommand::HfXoDis))),
            Domain::LfXo => Some(Operation::Write(Field::Oscillator(OscillatorCommand::LfXoDis))),
            Domain::ULfRco | Domain::UsHfRcoDiv | Domain::HfClk | Domain::HfCoreClk => None,
            Domain::HfCoreClkAes => Some(core_gate(CoreClockGate::Aes)),
            Domain::HfCoreClkDma => Some(core_gate(CoreClockGate::Dma)),
            Domain::HfCoreClkUsb => Some(core_gate(CoreClockGate::Usb)),
            Domain::HfCoreClkLeDiv => Some(core_gate(CoreClockGate::Le)),
            Domain::HfCoreClkUsbC => Some(core_gate(CoreClockGate::Usbc)),
            Domain::HfPerClk => Some(Operation::Write(Field::HfPerClkEn(false))),
            Domain::HfPerClkTimer0 => Some(peripheral_gate(PeripheralClockGate::Timer0)),
            Domain::HfPerClkTimer1 => Some(peripheral_gate(PeripheralClockGate::Timer1)),
            Domain::HfPerClkTimer2 => Some(peripheral_gate(PeripheralClockGate::Timer2)),
            Domain::HfPerClkUsart0 => Some(peripheral_gate(PeripheralClockGate::Usart0)),
            Domain::HfPerClkUsart1 => Some(peripheral_gate(PeripheralClockGate::Usart1)),
            Domain::HfPerClkAcmp0 => Some(peripheral_gate(PeripheralClockGate::Acmp0)),
            Domain::HfPerClkPrs => Some(peripheral_gate(PeripheralClockGate::Prs)),
            Domain::HfPerClkIdac0 => Some(peripheral_gate(PeripheralClockGate::Idac0)),
            Domain::HfPerClkGpio => Some(peripheral_gate(PeripheralClockGate::Gpio)),
            Domain::HfPerClkVcmp => Some(peripheral_gate(PeripheralClockGate::Vcmp)),
            Domain::HfPerClkAdc0 => Some(peripheral_gate(PeripheralClockGate::Adc0)),
            Domain::HfPerClkI2c0 => Some(peripheral_gate(PeripheralClockGate::I2c0)),
            Domain::LfaClk => Some(
                Operation::ModifyPair(Field::Lfae(false), Field::Lfa(LfSelect::Disabled)),
            ),
            Domain::LfaClkRtc => Some(Operation::Write(Field::RtcEnable(false))),
            Domain::LfbClk => Some(
                Operation::ModifyPair(Field::Lfbe(false), Field::Lfb(LfSelect::Disabled)),
            ),
            Domain::LfbClkLeuart0 => Some(Operation::Write(Field::Leuart0Enable(false))),
            Domain::LfcClk => Some(Operation::Modify(Field::Lfc(LfcSelect::Disabled))),
            Domain::LfcClkUsbLe => Some(Operation::Write(Field::UsbLeEnable(false))),
        }
    }

    /// What is issued when the domain is switched off: its store, behind the poll that the store
    /// needs if the register lies in the low-frequency domain; nothing for a domain that the
    /// hardware cannot switch off.
    pub open spec fn disable_sequence(self) -> Seq<Operation> {
        match self.spec_disable_operation() {
            Some(operation) => operation.guarded(),
            None => Seq::empty(),
        }
    }
}

/// The store that clears one enable bit of `CMU_HFCORECLKEN0`.
fn core_gate(gate: CoreClockGate) -> (operation: Operation)
    ensures
        operation == Operation::Modify(Field::CoreClockEnable(gate, false)),
{
    Operation::Modify(Field::CoreClockEnable(gate, false))
}

/// The store that clears one enable bit of `CMU_HFPERCLKEN0`.
fn peripheral_gate(gate: PeripheralClockGate) -> (operation: Operation)
    ensures
        operation == Operation::Modify(Field::PeripheralClockEnable(gate, false)),
{
    Operation::Modify(Field::PeripheralClockEnable(gate, false))
}

/// Giving up the token of a domain issues exactly one store, the one that switches the domain
/// off, except that it issues none for the `HFCORECLK`, which drives the processor, and none for
/// the `ULFRCO`, which cannot be stopped.
///
/// The `HFCLK` and the divider behind the `USHFRCO` are left out here: see
/// [`lemma_release_without_gate`].
pub proof fn lemma_release_stores(domain: Domain)
    requires
        domain != Domain::HfClk,
        domain != Domain::UsHfRcoDiv,
    ensures
        stores(domain.disable_sequence()) == if domain == Domain::HfCoreClk || domain
            == Domain::ULfRco {
            0nat
        } else {
            1nat
        },
{
    match domain.spec_disable_operation() {
        Some(operation) => {
            lemma_stores_of_guarded(operation);
        },
        None => {},
    }
}

/// The `HFCLK` and the divider behind the `USHFRCO` have nothing in the hardware that would
/// switch them off: giving up their tokens issues nothing.
pub proof fn lemma_release_without_gate(domain: Domain)
    requires
        domain == Domain::HfClk || domain == Domain::UsHfRcoDiv,
    ensures
        domain.disable_sequence() == Seq::<Operation>::empty(),
{
}

/// Switches a domain off: issues what [`Domain::disable_sequence`] says.
pub(crate) fn switch_off(domain: Domain, cmu: &mut Cmu)
    ensures
        final(cmu)@ == old(cmu)@ + domain.disable_sequence(),
{
    match domain.disable_operation() {
        Some(operation) => {
            cmu.issue(operation);
        },
        None => {
        },
    }
}

/// Whether a number is one of the powers of two from 1 to 32768: the divisors that a prescaler
/// can have.
pub open spec fn power_of_two(number: nat) -> bool {
    ||| number == 1
    ||| number == 2
    ||| number == 4
    ||| number == 8
    ||| number == 16
    ||| number == 32
    ||| number == 64
    ||| number == 128
    ||| number == 256
    ||| number == 512
    ||| number == 1024
    ||| number == 2048
    ||| number == 4096
    ||| number == 8192
    ||| number == 16384
    ||| number == 32768
}

/// The product of two positive factors within bounds is positive and within the product of the
/// bounds.
pub(crate) proof fn lemma_product_within(
    first: nat,
    second: nat,
    first_bound: nat,
    second_bound: nat,
)
    requires
        0 < first <= first_bound,
        0 < second <= second_bound,
    ensures
        0 < first * second <= first_bound * second_bound,
{
    assert(0 < first * second <= first_bound * second_bound) by (nonlinear_arith)
        requires
            0 < first <= first_bound,
            0 < second <= second_bound,
    ;
}

/// A token of the clock tree.
///
/// A token has the *clock capability* while its domain is configured, and only then: it reports
/// a frequency, and a domain downstream can select it as its source. Every transition that
/// selects a source asks for the capability of the token it is handed.
pub trait Clock: Sized {
    /// The domain that tokens of this type own.
    spec fn spec_domain() -> Domain;

    /// What holds of every token that the library hands out: what it selects has the clock
    /// capability, and what it divides by is a divisor that its domain supports.
    spec fn well_formed(&self) -> bool;

    /// The family of the token's state.
    spec fn state(&self) -> ClockState;

    /// The frequency of the domain, if the token has the clock capability.
    spec fn rate(&self) -> Option<Ratio>;

    /// The frequency in hertz of the oscillator at the root of the chain that feeds the domain.
    spec fn root(&self) -> nat;

    /// The divisors of the dividers between that oscillator and the domain, the domain's own
    /// last.
    spec fn divisors(&self) -> Seq<nat>;

    /// The largest product of divisors that can lie between an oscillator and this domain.
    spec fn largest_division() -> nat;

    /// The domain that tokens of this type own.
    fn domain() -> (domain: Domain)
        ensures
            domain == Self::spec_domain(),
    ;

    /// The family of the token's state.
    fn status(&self) -> (status: ClockState)
        ensures
            status == self.state(),
    ;

    /// Whether the token has the clock capability.
    fn is_clock(&self) -> (capable: bool)
        ensures
            capable == self.rate().is_some(),
            capable == (self.state() == ClockState::Configured),
    ;

    /// The frequency of the domain, if the token has the clock capability.
    fn frequency(&self) -> (frequency: Option<Frequency>)
        ensures
            rate_of(frequency) == self.rate(),
            frequency matches Some(f) ==> 0 < f@.denominator <= Self::largest_division(),
    ;

    /// Gives the token up without a successor, as when it goes out of scope: the domain is
    /// switched off, if the hardware can do that.
    fn release(self, cmu: &mut Cmu)
        ensures
            final(cmu)@ == old(cmu)@ + Self::spec_domain().disable_sequence(),
    ;

    /// A token has the clock capability if and only if it is in the configured state: one that
    /// is off or uninitialized never has it.
    proof fn lemma_capability_gating(&self)
        requires
            self.well_formed(),
        ensures
            self.rate().is_some() <==> self.state() == ClockState::Configured,
    ;

    /// The frequency of a configured domain is the frequency of the oscillator at the root of
    /// its chain, divided in turn by each divisor of the chain, with nothing rounded on the way.
    proof fn lemma_frequency_propagation(&self)
        requires
            self.well_formed(),
            self.state() == ClockState::Configured,
        ensures
            self.rate() == Some(Ratio::whole(self.root()).divided_by_all(self.divisors())),
    ;

    /// The product of the divisors of a configured domain stays within the bound of its type.
    proof fn lemma_division_bounded(&self)
        requires
            self.well_formed(),
        ensures
            self.rate() matches Some(rate) ==> 0 < rate.denominator <= Self::largest_division(),
            Self::largest_division() <= 0x4000_0000,
    ;
}

/// The frequency of a configured domain, in one formula: the hertz of the oscillator at the root
/// of its chain over the product of the divisors of the chain.
pub proof fn lemma_frequency_is_exact<C: Clock>(clock: &C)
    requires
        clock.well_formed(),
        clock.state() == ClockState::Configured,
    ensures
        clock.rate() == Some(
            Ratio { numerator: clock.root(), denominator: product(clock.divisors()) },
        ),
{
    clock.lemma_frequency_propagation();
    lemma_chain_is_exact(Ratio::whole(clock.root()), clock.divisors());
    assert(1 * product(clock.divisors()) == product(clock.divisors()));
}

/// The tokens of all clock domains, in the state that reset leaves the clocks in.
#[derive(Debug)]
pub struct InitialCmuState {
    pub hfclk: HfClk<'static>,
    pub hfcoreclk: HfCoreClk<'static>,
    pub hfperclk: HfPerClk<'static>,
    pub hfcoreclkaes: HfCoreClkAes<'static>,
    pub hfcoreclkdma: HfCoreClkDma<'static>,
    pub hfcoreclkusb: HfCoreClkUsb<'static>,
    pub hfcoreclklediv: HfCoreClkLeDiv<'static>,
    pub hfcoreclkusbc: HfCoreClkUsbC<'static>,
    pub hfperclkacmp0: HfPerClkAcmp0<'static>,
    pub hfperclkadc0: HfPerClkAdc0<'static>,
    pub hfperclkgpio: HfPerClkGpio<'static>,
    pub hfperclki2c0: HfPerClkI2c0<'static>,
    pub hfperclkidac0: HfPerClkIdac0<'static>,
    pub hfperclkprs: HfPerClkPrs<'static>,
    pub hfperclktimer0: HfPerClkTimer0<'static>,
    pub hfperclktimer1: HfPerClkTimer1<'static>,
    pub hfperclktimer2: HfPerClkTimer2<'static>,
    pub hfperclkusart0: HfPerClkUsart0<'static>,
    pub hfperclkusart1: HfPerClkUsart1<'static>,
    pub hfperclkvcmp: HfPerClkVcmp<'static>,
    pub lfaclk: LfaClk<'static>,
    pub lfaclkrtc: LfaClkRtc<'static>,
    pub lfbclk: LfbClk<'static>,
    pub lfbclkleuart0: LfbClkLeuart0<'static>,
    pub lfcclk: LfcClk<'static>,
    pub lfcclkusble: LfcClkUsbLe<'static>,
    pub hfrco: HfRco,
    pub auxhfrco: AuxHfRco,
    pub lfrco: LfRco,
    pub ulfrco: ULfRco,
    pub ushfrco: UsHfRco,
    pub ushfrcodiv: UsHfRcoDiv<'static>,
    pub hfxo: HfXo,
    pub lfxo: LfXo,
}

impl InitialCmuState {
    /// The state that reset leaves the clocks in. The `HFRCO` runs in its 14 MHz band and the
    /// `ULFRCO` runs as always. The `HFCLK`, the `HFCORECLK` and the `HFPERCLK` run too, but how
    /// they are set is not recorded: their tokens are uninitialized. Everything else is off.
    pub open spec fn is_reset(&self) -> bool {
        &&& self.hfclk.state() == ClockState::Uninitialized
        &&& self.hfclk.source().state() == ClockState::Uninitialized
        &&& self.hfclk.division().state() == ClockState::Uninitialized
        &&& self.hfcoreclk.state() == ClockState::Uninitialized
        &&& self.hfperclk.state() == ClockState::Uninitialized
        &&& self.hfcoreclkaes.state() == ClockState::Off
        &&& self.hfcoreclkdma.state() == ClockState::Off
        &&& self.hfcoreclkusb.state() == ClockState::Off
        &&& self.hfcoreclklediv.state() == ClockState::Off
        &&& self.hfcoreclkusbc.state() == ClockState::Off
        &&& self.hfperclkacmp0.state() == ClockState::Off
        &&& self.hfperclkadc0.state() == ClockState::Off
        &&& self.hfperclkgpio.state() == ClockState::Off
        &&& self.hfperclki2c0.state() == ClockState::Off
        &&& self.hfperclkidac0.state() == ClockState::Off
        &&& self.hfperclkprs.state() == ClockState::Off
        &&& self.hfperclktimer0.state() == ClockState::Off
        &&& self.hfperclktimer1.state() == ClockState::Off
        &&& self.hfperclktimer2.state() == ClockState::Off
        &&& self.hfperclkusart0.state() == ClockState::Off
        &&& self.hfperclkusart1.state() == ClockState::Off
        &&& self.hfperclkvcmp.state() == ClockState::Off
        &&& self.lfaclk.state() == ClockState::Off
        &&& self.lfaclkrtc.state() == ClockState::Off
        &&& self.lfbclk.state() == ClockState::Off
        &&& self.lfbclkleuart0.state() == ClockState::Off
        &&& self.lfcclk.state() == ClockState::Off
        &&& self.lfcclkusble.state() == ClockState::Off
        &&& self.hfrco.band() == Setting::Configured(HfRcoBand::Mhz14)
        &&& self.auxhfrco.band() == Setting::<HfRcoBand>::Off
        &&& self.lfrco.state() == ClockState::Off
        &&& self.ulfrco.state() == ClockState::Configured
        &&& self.ushfrco.band() == Setting::<UsHfRcoBand>::Off
        &&& self.ushfrcodiv.state() == ClockState::Off
        &&& self.hfxo.state() == ClockState::Off
        &&& self.lfxo.state() == ClockState::Off
    }

    /// Claims the clocks of a control block and hands out their tokens, in the state that reset
    /// leaves the clocks in.
    ///
    /// The clocks of a control block can be claimed once: a second set of tokens would let a
    /// domain be configured twice. That the hardware is indeed in its reset state is the
    /// caller's promise, and nothing here can check it.
    pub fn get_initial_state(cmu: &mut Cmu) -> (initial: InitialCmuState)
        requires
            !old(cmu).is_claimed(),
        ensures
            initial.is_reset(),
            final(cmu).is_claimed(),
            final(cmu)@ == old(cmu)@,
    {
        cmu.claim();
        InitialCmuState {
            hfclk: HfClk::claim_ownership(),
            hfcoreclk: HfCoreClk::claim_ownership(),
            hfperclk: HfPerClk::claim_ownership(),
            hfcoreclkaes: HfCoreClkAes::claim_ownership(),
            hfcoreclkdma: HfCoreClkDma::claim_ownership(),
            hfcoreclkusb: HfCoreClkUsb::claim_ownership(),
            hfcoreclklediv: HfCoreClkLeDiv::claim_ownership(),
            hfcoreclkusbc: HfCoreClkUsbC::claim_ownership(),
            hfperclkacmp0: HfPerClkAcmp0::claim_ownership(),
            hfperclkadc0: HfPerClkAdc0::claim_ownership(),
            hfperclkgpio: HfPerClkGpio::claim_ownership(),
            hfperclki2c0: HfPerClkI2c0::claim_ownership(),
            hfperclkidac0: HfPerClkIdac0::claim_ownership(),
            hfperclkprs: HfPerClkPrs::claim_ownership(),
            hfperclktimer0: HfPerClkTimer0::claim_ownership(),
            hfperclktimer1: HfPerClkTimer1::claim_ownership(),
            hfperclktimer2: HfPerClkTimer2::claim_ownership(),
            hfperclkusart0: HfPerClkUsart0::claim_ownership(),
            hfperclkusart1: HfPerClkUsart1::claim_ownership(),
            hfperclkvcmp: HfPerClkVcmp::claim_ownership(),
            lfaclk: LfaClk::claim_ownership(),
            lfaclkrtc: LfaClkRtc::claim_ownership(),
            lfbclk: LfbClk::claim_ownership(),
            lfbclkleuart0: LfbClkLeuart0::claim_ownership(),
            lfcclk: LfcClk::claim_ownership(),
            lfcclkusble: LfcClkUsbLe::claim_ownership(),
            hfrco: HfRco::claim_ownership(),
            auxhfrco: AuxHfRco::claim_ownership(),
            lfrco: LfRco::claim_ownership(),
            ulfrco: ULfRco::claim_ownership(),
            ushfrco: UsHfRco::claim_ownership(),
            ushfrcodiv: UsHfRcoDiv::claim_ownership(),
            hfxo: HfXo::claim_ownership(),
            lfxo: LfXo::claim_ownership(),
        }
    }
}

} // verus!
