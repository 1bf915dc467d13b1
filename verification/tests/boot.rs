use efm32hg_hal::boot::{init_cmu, rtc_ticks};
use efm32hg_hal::cmu::registers::{
    Cmu, CoreClockGate, Field, HfClkSelect, HfRcoBand, LfSelect, LfcSelect, Operation,
    OscillatorCommand, PeripheralClockGate, StatusFlag, SyncBusyFlag, UsHfRcoBand, UsbcClkSelect,
};
use efm32hg_hal::cmu::{Clock, ClockState, InitialCmuState, Setting};
use efm32hg_hal::device_information::DeviceInformation;

fn page() -> DeviceInformation {
    DeviceInformation {
        ushfrco_coarsecal_band_24: 0x01,
        ushfrco_finecal_band_24: 0x02,
        ushfrco_coarsecal_band_48: 0xe3,
        ushfrco_finecal_band_48: 0xc4,
        auxhfrco_calib_band_1: 0x11,
        auxhfrco_calib_band_7: 0x17,
        auxhfrco_calib_band_11: 0x1b,
        auxhfrco_calib_band_14: 0x1e,
        auxhfrco_calib_band_21: 0x25,
        hfrco_calib_band_1: 0x81,
        hfrco_calib_band_7: 0x87,
        hfrco_calib_band_11: 0x8b,
        hfrco_calib_band_14: 0x8e,
        hfrco_calib_band_21: 0x95,
    }
}

#[test]
fn the_wired_tree_feeds_the_uart_with_656250_hertz() {
    let mut cmu = Cmu::new();
    let initial = InitialCmuState::get_initial_state(&mut cmu);
    let leuart = init_cmu(initial, &page(), &mut cmu);
    assert!(leuart.is_clock());
    assert_eq!(leuart.status(), ClockState::Configured);
    assert_eq!(leuart.division(), Setting::Configured(8));
    let frequency = leuart.frequency().unwrap();
    assert_eq!(frequency.hertz(), Some(656_250));
    assert_eq!(frequency.numerator(), 21_000_000);
    assert_eq!(frequency.denominator(), 32);
}

#[test]
fn the_frequency_of_the_uart_is_the_same_on_every_run() {
    let mut first = Cmu::new();
    let one = init_cmu(InitialCmuState::get_initial_state(&mut first), &page(), &mut first);
    let mut second = Cmu::new();
    let other = init_cmu(InitialCmuState::get_initial_state(&mut second), &page(), &mut second);
    assert_eq!(one.frequency(), other.frequency());
    assert_eq!(first.issued(), second.issued());
}

#[test]
fn wiring_the_tree_issues_its_operations_in_order() {
    let mut cmu = Cmu::new();
    let initial = InitialCmuState::get_initial_state(&mut cmu);
    init_cmu(initial, &page(), &mut cmu);
    let expected = vec![
        // the oscillators
        Operation::Write(Field::Oscillator(OscillatorCommand::LfRcoEn)),
        Operation::WaitUntilSet(StatusFlag::LfRcoRdy),
        Operation::WritePair(Field::HfRcoBand(HfRcoBand::Mhz21), Field::HfRcoTuning(0x95)),
        Operation::Write(Field::Oscillator(OscillatorCommand::HfRcoEn)),
        Operation::WaitUntilSet(StatusFlag::HfRcoRdy),
        Operation::Write(Field::UsHfRcoBand(UsHfRcoBand::Mhz48)),
        Operation::Write(Field::UsHfRcoTuning(0x63)),
        Operation::Write(Field::UsHfRcoFineTuning(0x04)),
        Operation::Write(Field::Oscillator(OscillatorCommand::UsHfRcoEn)),
        Operation::WaitUntilSet(StatusFlag::UsHfRcoRdy),
        // the main clocks
        Operation::Modify(Field::HfClkDiv(0)),
        Operation::Write(Field::HfClkSel(HfClkSelect::HfRco)),
        Operation::Write(Field::HfCoreClkDiv(1)),
        Operation::Modify(Field::HfCoreClkLeDiv(true)),
        Operation::Modify(Field::CoreClockEnable(CoreClockGate::Le, true)),
        Operation::WritePair(Field::HfPerClkEn(true), Field::HfPerClkDiv(1)),
        // the low-frequency clocks
        Operation::ModifyPair(Field::Lfae(false), Field::Lfa(LfSelect::LfRco)),
        Operation::ModifyPair(Field::Lfbe(false), Field::Lfb(LfSelect::HfCoreClkLeDiv2)),
        Operation::Modify(Field::Lfc(LfcSelect::LfRco)),
        // the clocks of USB
        Operation::Modify(Field::CoreClockEnable(CoreClockGate::Usb, true)),
        Operation::Write(Field::UsbcClkSel(UsbcClkSelect::UsHfRco)),
        Operation::Modify(Field::CoreClockEnable(CoreClockGate::Usbc, true)),
        Operation::WaitUntilSet(StatusFlag::UsbcUsHfRcoSel),
        Operation::WaitUntilClear(SyncBusyFlag::LfcClkEn0),
        Operation::Write(Field::UsbLeEnable(true)),
        // the clocks of the peripherals
        Operation::Modify(Field::PeripheralClockEnable(PeripheralClockGate::Gpio, true)),
        Operation::Modify(Field::CoreClockEnable(CoreClockGate::Dma, true)),
        Operation::WaitUntilClear(SyncBusyFlag::LfaPresc0),
        Operation::Write(Field::RtcPrescaler(1)),
        Operation::WaitUntilClear(SyncBusyFlag::LfaClkEn0),
        Operation::Write(Field::RtcEnable(true)),
        Operation::WaitUntilClear(SyncBusyFlag::LfbPresc0),
        Operation::Write(Field::Leuart0Prescaler(8)),
        Operation::WaitUntilClear(SyncBusyFlag::LfbClkEn0),
        Operation::Write(Field::Leuart0Enable(true)),
        // what is left over
        Operation::Modify(Field::CoreClockEnable(CoreClockGate::Aes, false)),
        Operation::Modify(Field::PeripheralClockEnable(PeripheralClockGate::Acmp0, false)),
        Operation::Modify(Field::PeripheralClockEnable(PeripheralClockGate::Adc0, false)),
        Operation::Modify(Field::PeripheralClockEnable(PeripheralClockGate::I2c0, false)),
        Operation::Modify(Field::PeripheralClockEnable(PeripheralClockGate::Idac0, false)),
        Operation::Modify(Field::PeripheralClockEnable(PeripheralClockGate::Prs, false)),
        Operation::Modify(Field::PeripheralClockEnable(PeripheralClockGate::Timer0, false)),
        Operation::Modify(Field::PeripheralClockEnable(PeripheralClockGate::Timer1, false)),
        Operation::Modify(Field::PeripheralClockEnable(PeripheralClockGate::Timer2, false)),
        Operation::Modify(Field::PeripheralClockEnable(PeripheralClockGate::Usart0, false)),
        Operation::Modify(Field::PeripheralClockEnable(PeripheralClockGate::Usart1, false)),
        Operation::Modify(Field::PeripheralClockEnable(PeripheralClockGate::Vcmp, false)),
        Operation::Write(Field::Oscillator(OscillatorCommand::AuxHfRcoDis)),
        Operation::Write(Field::Oscillator(OscillatorCommand::HfXoDis)),
        Operation::Write(Field::Oscillator(OscillatorCommand::LfXoDis)),
    ];
    assert_eq!(cmu.issued(), &expected);
}

#[test]
fn every_store_behind_the_bridge_follows_its_poll() {
    let mut cmu = Cmu::new();
    let initial = InitialCmuState::get_initial_state(&mut cmu);
    init_cmu(initial, &page(), &mut cmu);
    let issued = cmu.take();
    let mut guarded: usize = 0;
    for (index, operation) in issued.iter().enumerate() {
        if let Some(flag) = operation.guard() {
            assert!(index > 0);
            assert_eq!(issued[index - 1], Operation::WaitUntilClear(flag));
            guarded += 1;
        }
    }
    assert_eq!(guarded, 5);
    assert!(cmu.issued().is_empty());
    assert!(cmu.is_claimed());
}

#[test]
fn the_real_time_counter_counts_32768_ticks_a_second() {
    assert_eq!(rtc_ticks(0), 0);
    assert_eq!(rtc_ticks(1), 32);
    assert_eq!(rtc_ticks(80), 2_621);
    assert_eq!(rtc_ticks(1_000), 32_768);
    assert_eq!(rtc_ticks(131_071), 4_294_934);
}
