//! Bringing the clock tree up after reset.

use vstd::prelude::*;
use crate::cmu::registers::{
    Cmu, CoreClockGate, Field, HfClkSelect, HfRcoBand, LfSelect, LfcSelect, Operation,
    OscillatorCommand, PeripheralClockGate, StatusFlag, SyncBusyFlag, UsHfRcoBand, UsbcClkSelect,
};
use crate::cmu::{
    AuxHfRco, Clock, ClockState, HfClk, HfCoreClk, HfCoreClkAes, HfCoreClkDma,
    HfCoreClkLeDiv, HfCoreClkUsb, HfCoreClkUsbC, HfPerClk, HfPerClkAcmp0, HfPerClkAdc0,
    HfPerClkGpio, HfPerClkI2c0, HfPerClkIdac0, HfPerClkPrs, HfPerClkTimer0, HfPerClkTimer1,
    HfPerClkTimer2, HfPerClkUsart0, HfPerClkUsart1, HfPerClkVcmp, HfRco, HfXo, InitialCmuState,
    LfRco, LfXo, LfaClk, LfaClkRtc, LfbClk, LfbClkLeuart0, LfcClk, LfcClkUsbLe, Setting, ULfRco,
    UsHfRco, UsHfRcoDiv,
};
use crate::device_information::DeviceInformation;
use crate::devices::StaticDevice;
use crate::frequency::Ratio;

verus! {

/// What starting the oscillators issues: the `LFRCO`, the `HFRCO` at 21 MHz, the `USHFRCO` at
/// 48 MHz.
pub open spec fn oscillator_sequence(information: DeviceInformation) -> Seq<Operation> {
    LfRco::enable_sequence() + HfRco::enable_sequence(
        HfRcoBand::Mhz21,
        information.hfrco_calib_band_21,
    ) + UsHfRco::enable_sequence(
        UsHfRcoBand::Mhz48,
        information.ushfrco_coarsecal_band_48 & 0x7f,
        information.ushfrco_finecal_band_48 & 0x3f,
    )
}

/// What wiring the main clocks issues: the `HFCLK` undivided from the `HFRCO`, the `HFCORECLK`
/// undivided, the `HFCORECLKLE` divided by four, the `HFPERCLK` undivided.
pub open spec fn main_clock_sequence() -> Seq<Operation> {
    seq![
        Operation::Modify(Field::HfClkDiv(0)),
        Operation::Write(Field::HfClkSel(HfClkSelect::HfRco)),
    ] + HfCoreClk::enable_sequence(1) + HfCoreClkLeDiv::enable_sequence(4)
        + HfPerClk::enable_sequence(1)
}

/// What wiring the three low-frequency clocks issues: the `LFACLK` and the `LFCCLK` from the
/// `LFRCO`, the `LFBCLK` from the `HFCORECLKLE`.
pub open spec fn low_frequency_sequence() -> Seq<Operation> {
    seq![
        Operation::ModifyPair(Field::Lfae(false), Field::Lfa(LfSelect::LfRco)),
        Operation::ModifyPair(Field::Lfbe(false), Field::Lfb(LfSelect::HfCoreClkLeDiv2)),
        Operation::Modify(Field::Lfc(LfcSelect::LfRco)),
    ]
}

/// What enabling the clocks of USB issues.
pub open spec fn usb_sequence() -> Seq<Operation> {
    seq![
        Operation::Modify(Field::CoreClockEnable(CoreClockGate::Usb, true)),
        Operation::Write(Field::UsbcClkSel(UsbcClkSelect::UsHfRco)),
        Operation::Modify(Field::CoreClockEnable(CoreClockGate::Usbc, true)),
        Operation::WaitUntilSet(StatusFlag::UsbcUsHfRcoSel),
        Operation::WaitUntilClear(SyncBusyFlag::LfcClkEn0),
        Operation::Write(Field::UsbLeEnable(true)),
    ]
}

/// What enabling the clocks of the peripherals issues: the pins, the DMA, the real-time counter
/// undivided, the low-energy UART divided by eight.
pub open spec fn peripheral_sequence() -> Seq<Operation> {
    seq![
        Operation::Modify(Field::PeripheralClockEnable(PeripheralClockGate::Gpio, true)),
        Operation::Modify(Field::CoreClockEnable(CoreClockGate::Dma, true)),
    ] + LfaClkRtc::enable_sequence(1) + LfbClkLeuart0::enable_sequence(8)
}

/// What giving up the tokens of the gates that the wiring leaves closed issues, in the order in
/// which the initial state lists them.
pub open spec fn leftover_gate_sequence() -> Seq<Operation> {
    seq![
        Operation::Modify(Field::CoreClockEnable(CoreClockGate::Aes, false)),
        Operation::Modify(Field::PeripheralClockEnable(PeripheralClockGate::Acmp0, false)),
        Operation::Modify(Field::PeripheralClockEnable(PeripheralClockGate::Adc0, false)),
        Operation::Modify(Field::PeripheralClockEnable(PeripheralClockGate::I2c0, false)),
        Operation::Modify(Field::PeripheralClockEnable(PeripheralClockGate::Idac0, false)),
        Operation::Modify(Field::PeripheralClockEnable(PeripheralClockGate::Prs, false)),
        Operation::Modify(Field::PeripheralClockEnable(PeripheralClockGate::Timer0, false)),
        Operation::Modify(Field::PeripheralClockEnable(PeripheralClockGate::Timer1, false)),
        Operation::Modify(Field::PeripheralClockEnable(PeripheralClockGate::Timer2, false)),
        Operation::Modify(Field::PeripheralClockEnable(PeripheralClockGate::Usart0, false)),
        Operation::Modify(Field::PeripheralClockEnable(PeripheralClockGate::Usart1, false)),
        Operation::Modify(Field::PeripheralClockEnable(PeripheralClockGate::Vcmp, false)),
    ]
}

/// What giving up the tokens of the oscillators that the wiring leaves alone issues, in the
/// order in which the initial state lists them. The `ULFRCO` and the divider behind the
/// `USHFRCO` are among them, and add nothing.
pub open spec fn leftover_oscillator_sequence() -> Seq<Operation> {
    seq![
        Operation::Write(Field::Oscillator(OscillatorCommand::AuxHfRcoDis)),
        Operation::Write(Field::Oscillator(OscillatorCommand::HfXoDis)),
        Operation::Write(Field::Oscillator(OscillatorCommand::LfXoDis)),
    ]
}

fn start_oscillators(
    lfrco: LfRco,
    hfrco: HfRco,
    ushfrco: UsHfRco,
    information: &DeviceInformation,
    cmu: &mut Cmu,
) -> (oscillators: (&'static LfRco, &'static HfRco, &'static UsHfRco))
    ensures
        oscillators.0.rate() == Some(Ratio::whole(32_768)),
        oscillators.1.rate() == Some(Ratio::whole(21_000_000)),
        oscillators.2.rate() == Some(Ratio::whole(48_000_000)),
        final(cmu)@ == old(cmu)@ + oscillator_sequence(*information),
{
    let lfrco = lfrco.enable_32768hz(cmu).finalize();
    let hfrco = hfrco.enable_21mhz(information, cmu).finalize();
    let ushfrco = ushfrco.enable_48mhz(information, cmu).finalize();
    (lfrco, hfrco, ushfrco)
}

fn wire_main_clocks(
    hfclk: HfClk<'static>,
    hfcoreclk: HfCoreClk<'static>,
    hfcoreclklediv: HfCoreClkLeDiv<'static>,
    hfperclk: HfPerClk<'static>,
    hfrco: &'static HfRco,
    cmu: &mut Cmu,
) -> (clocks: (&'static HfCoreClk<'static>, &'static HfCoreClkLeDiv<'static>, &'static HfPerClk<
    'static,
>))
    requires
        hfrco.rate() == Some(Ratio::whole(21_000_000)),
    ensures
        clocks.0.rate() == Some(Ratio { numerator: 21_000_000, denominator: 1 }),
        clocks.1.rate() == Some(Ratio { numerator: 21_000_000, denominator: 4 }),
        clocks.2.rate() == Some(Ratio { numerator: 21_000_000, denominator: 1 }),
        final(cmu)@ == old(cmu)@ + main_clock_sequence(),
{
    let hfclk = hfclk.div1(cmu).hfrco(hfrco, cmu).finalize();
    let hfcoreclk = hfcoreclk.div1(hfclk, cmu).finalize();
    let hfcoreclklediv = hfcoreclklediv.enable_div4(hfcoreclk, cmu).finalize();
    let hfperclk = hfperclk.enable_div1(hfclk, cmu).finalize();
    (hfcoreclk, hfcoreclklediv, hfperclk)
}

fn wire_low_frequency_clocks(
    lfaclk: LfaClk<'static>,
    lfbclk: LfbClk<'static>,
    lfcclk: LfcClk<'static>,
    lfrco: &'static LfRco,
    hfcoreclklediv: &'static HfCoreClkLeDiv<'static>,
    cmu: &mut Cmu,
) -> (clocks: (&'static LfaClk<'static>, &'static LfbClk<'static>, &'static LfcClk<'static>))
    requires
        lfrco.rate().is_some(),
        hfcoreclklediv.rate().is_some(),
    ensures
        clocks.0.rate() == lfrco.rate(),
        clocks.1.rate() == hfcoreclklediv.rate(),
        clocks.2.rate() == lfrco.rate(),
        final(cmu)@ == old(cmu)@ + low_frequency_sequence(),
{
    let lfa = lfaclk.enable_lfrco(lfrco, cmu).finalize();
    let lfb = lfbclk.enable_hfcoreclklediv(hfcoreclklediv, cmu).finalize();
    let lfc = lfcclk.enable_lfrco(lfrco, cmu).finalize();
    (lfa, lfb, lfc)
}

fn enable_usb_clocks(
    hfcoreclkusb: HfCoreClkUsb<'static>,
    hfcoreclkusbc: HfCoreClkUsbC<'static>,
    lfcclkusble: LfcClkUsbLe<'static>,
    hfcoreclk: &'static HfCoreClk<'static>,
    ushfrco: &'static UsHfRco,
    lfcclk: &'static LfcClk<'static>,
    cmu: &mut Cmu,
)
    requires
        hfcoreclk.rate().is_some(),
        ushfrco.rate().is_some(),
        lfcclk.rate().is_some(),
    ensures
        final(cmu)@ == old(cmu)@ + usb_sequence(),
{
    let _usb = hfcoreclkusb.enable(hfcoreclk, cmu).finalize();
    let _usbc = hfcoreclkusbc.enable_ushfrco(ushfrco, cmu).finalize();
    let _usble = lfcclkusble.enable(lfcclk, cmu).finalize();
}

fn enable_peripheral_clocks(
    hfperclkgpio: HfPerClkGpio<'static>,
    hfcoreclkdma: HfCoreClkDma<'static>,
    lfaclkrtc: LfaClkRtc<'static>,
    lfbclkleuart0: LfbClkLeuart0<'static>,
    hfperclk: &'static HfPerClk<'static>,
    hfcoreclk: &'static HfCoreClk<'static>,
    lfaclk: &'static LfaClk<'static>,
    lfbclk: &'static LfbClk<'static>,
    cmu: &mut Cmu,
) -> (leuart: &'static LfbClkLeuart0<'static>)
    requires
        hfperclk.rate().is_some(),
        hfcoreclk.rate().is_some(),
        lfaclk.rate().is_some(),
        lfbclk.rate().is_some(),
    ensures
        leuart.source() == Setting::Configured(lfbclk),
        leuart.division() == Setting::Configured(8u8),
        leuart.rate() == Some(lfbclk.rate().unwrap().divided_by(8)),
        final(cmu)@ == old(cmu)@ + peripheral_sequence(),
{
    let _gpio = hfperclkgpio.enable(hfperclk, cmu).finalize();
    let _dma = hfcoreclkdma.enable(hfcoreclk, cmu).finalize();
    let _rtc = lfaclkrtc.enable_div1(lfaclk, cmu).finalize();
    let leuart = lfbclkleuart0.enable_div8(lfbclk, cmu).finalize();
    leuart
}

fn release_leftover_gates(
    hfcoreclkaes: HfCoreClkAes<'static>,
    gates: PeripheralLeftovers,
    cmu: &mut Cmu,
)
    ensures
        final(cmu)@ == old(cmu)@ + leftover_gate_sequence(),
{
    hfcoreclkaes.release(cmu);
    gates.hfperclkacmp0.release(cmu);
    gates.hfperclkadc0.release(cmu);
    gates.hfperclki2c0.release(cmu);
    gates.hfperclkidac0.release(cmu);
    gates.hfperclkprs.release(cmu);
    gates.hfperclktimer0.release(cmu);
    gates.hfperclktimer1.release(cmu);
    gates.hfperclktimer2.release(cmu);
    gates.hfperclkusart0.release(cmu);
    gates.hfperclkusart1.release(cmu);
    gates.hfperclkvcmp.release(cmu);
}

fn release_leftover_oscillators(
    auxhfrco: AuxHfRco,
    ulfrco: ULfRco,
    ushfrcodiv: UsHfRcoDiv<'static>,
    hfxo: HfXo,
    lfxo: LfXo,
    cmu: &mut Cmu,
)
    ensures
        final(cmu)@ == old(cmu)@ + leftover_oscillator_sequence(),
{
    auxhfrco.release(cmu);
    ulfrco.release(cmu);
    ushfrcodiv.release(cmu);
    hfxo.release(cmu);
    lfxo.release(cmu);
}

/// The gates of the peripheral clock that the wiring leaves closed.
struct PeripheralLeftovers {
    hfperclkacmp0: HfPerClkAcmp0<'static>,
    hfperclkadc0: HfPerClkAdc0<'static>,
    hfperclki2c0: HfPerClkI2c0<'static>,
    hfperclkidac0: HfPerClkIdac0<'static>,
    hfperclkprs: HfPerClkPrs<'static>,
    hfperclktimer0: HfPerClkTimer0<'static>,
    hfperclktimer1: HfPerClkTimer1<'static>,
    hfperclktimer2: HfPerClkTimer2<'static>,
    hfperclkusart0: HfPerClkUsart0<'static>,
    hfperclkusart1: HfPerClkUsart1<'static>,
    hfperclkvcmp: HfPerClkVcmp<'static>,
}

/// The ticks of the `LFRCO` in a number of milliseconds, rounded down: the value with which the
/// real-time counter is told to come round once in that time.
pub fn rtc_ticks(milliseconds: u32) -> (ticks: u32)
    requires
        32_768 * milliseconds <= u32::MAX,
    ensures
        ticks == 32_768 * milliseconds / 1_000,
{
    let ticks_per_1000ms: u32 = 32_768;
    ticks_per_1000ms * milliseconds / 1_000
}

/// Wires the clock tree for a board that talks over the low-energy UART and over USB, and
/// locks every clock it has configured.
///
/// The `HFRCO` runs at 21 MHz and feeds the `HFCLK`, the `HFCORECLK` and the `HFPERCLK`
/// undivided. The `HFCORECLKLE` is the `HFCORECLK` divided by four. The `LFACLK` and the
/// `LFCCLK` run from the `LFRCO`, the `LFBCLK` from the `HFCORECLKLE`. The clock of the
/// low-energy UART, which is handed back, is the `LFBCLK` divided by eight: 656250 Hz.
///
/// The tokens that the wiring has no use for are given up when it is done, in the order in which
/// the initial state lists them, which switches their domains off once more.
pub fn init_cmu(
    initial: InitialCmuState,
    information: &DeviceInformation,
    cmu: &mut Cmu,
) -> (leuart: &'static LfbClkLeuart0<'static>)
    ensures
        leuart.state() == ClockState::Configured,
        leuart.division() == Setting::Configured(8u8),
        leuart.rate() == Some(Ratio { numerator: 21_000_000, denominator: 32 }),
        leuart.rate().unwrap().hertz() == Some(656_250nat),
        final(cmu)@ == old(cmu)@ + oscillator_sequence(*information) + main_clock_sequence()
            + low_frequency_sequence() + usb_sequence() + peripheral_sequence()
            + leftover_gate_sequence() + leftover_oscillator_sequence(),
{
    let (lfrco, hfrco, ushfrco) = start_oscillators(
        initial.lfrco,
        initial.hfrco,
        initial.ushfrco,
        information,
        cmu,
    );
    let (hfcoreclk, hfcoreclklediv, hfperclk) = wire_main_clocks(
        initial.hfclk,
        initial.hfcoreclk,
        initial.hfcoreclklediv,
        initial.hfperclk,
        hfrco,
        cmu,
    );
    let (lfa, lfb, lfc) = wire_low_frequency_clocks(
        initial.lfaclk,
        initial.lfbclk,
        initial.lfcclk,
        lfrco,
        hfcoreclklediv,
        cmu,
    );
    enable_usb_clocks(
        initial.hfcoreclkusb,
        initial.hfcoreclkusbc,
        initial.lfcclkusble,
        hfcoreclk,
        ushfrco,
        lfc,
        cmu,
    );
    let leuart = enable_peripheral_clocks(
        initial.hfperclkgpio,
        initial.hfcoreclkdma,
        initial.lfaclkrtc,
        initial.lfbclkleuart0,
        hfperclk,
        hfcoreclk,
        lfa,
        lfb,
        cmu,
    );
    release_leftover_gates(
        initial.hfcoreclkaes,
        PeripheralLeftovers {
            hfperclkacmp0: initial.hfperclkacmp0,
            hfperclkadc0: initial.hfperclkadc0,
            hfperclki2c0: initial.hfperclki2c0,
            hfperclkidac0: initial.hfperclkidac0,
            hfperclkprs: initial.hfperclkprs,
            hfperclktimer0: initial.hfperclktimer0,
            hfperclktimer1: initial.hfperclktimer1,
            hfperclktimer2: initial.hfperclktimer2,
            hfperclkusart0: initial.hfperclkusart0,
            hfperclkusart1: initial.hfperclkusart1,
            hfperclkvcmp: initial.hfperclkvcmp,
        },
        cmu,
    );
    release_leftover_oscillators(
        initial.auxhfrco,
        initial.ulfrco,
        initial.ushfrcodiv,
        initial.hfxo,
        initial.lfxo,
        cmu,
    );
    assert(21_000_000nat % 32 == 0 && 21_000_000nat / 32 == 656_250);
    leuart
}

} // verus!
