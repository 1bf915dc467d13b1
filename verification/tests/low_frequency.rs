use efm32hg_hal::cmu::registers::{
    Cmu, Field, LfSelect, LfcSelect, Operation, SyncBusyFlag,
};
use efm32hg_hal::cmu::{
    Clock, ClockState, Domain, InitialCmuState, LfSource, LfaClk, LfaClkRtc, LfbClk,
    LfbClkLeuart0, LfcClk, LfcClkUsbLe, LfcSource, Setting,
};
use efm32hg_hal::device_information::DeviceInformation;

fn page() -> DeviceInformation {
    DeviceInformation {
        ushfrco_coarsecal_band_24: 0,
        ushfrco_finecal_band_24: 0,
        ushfrco_coarsecal_band_48: 0,
        ushfrco_finecal_band_48: 0,
        auxhfrco_calib_band_1: 0,
        auxhfrco_calib_band_7: 0,
        auxhfrco_calib_band_11: 0,
        auxhfrco_calib_band_14: 0,
        auxhfrco_calib_band_21: 0,
        hfrco_calib_band_1: 0,
        hfrco_calib_band_7: 0,
        hfrco_calib_band_11: 0,
        hfrco_calib_band_14: 0,
        hfrco_calib_band_21: 0x95,
    }
}

fn claimed() -> (Cmu, InitialCmuState) {
    let mut cmu = Cmu::new();
    let initial = InitialCmuState::get_initial_state(&mut cmu);
    (cmu, initial)
}

fn rtc_sequence(divisor: u16) -> Vec<Operation> {
    vec![
        Operation::WaitUntilClear(SyncBusyFlag::LfaPresc0),
        Operation::Write(Field::RtcPrescaler(divisor)),
        Operation::WaitUntilClear(SyncBusyFlag::LfaClkEn0),
        Operation::Write(Field::RtcEnable(true)),
    ]
}

fn leuart_sequence(divisor: u8) -> Vec<Operation> {
    vec![
        Operation::WaitUntilClear(SyncBusyFlag::LfbPresc0),
        Operation::Write(Field::Leuart0Prescaler(divisor)),
        Operation::WaitUntilClear(SyncBusyFlag::LfbClkEn0),
        Operation::Write(Field::Leuart0Enable(true)),
    ]
}

#[test]
fn the_lfaclk_selects_each_of_its_sources() {
    let (mut cmu, initial) = claimed();
    let lfrco = initial.lfrco.enable_32768hz(&mut cmu);
    cmu.take();
    let lfa = initial.lfaclk.enable_lfrco(&lfrco, &mut cmu);
    assert_eq!(
        cmu.take(),
        vec![Operation::ModifyPair(Field::Lfae(false), Field::Lfa(LfSelect::LfRco))]
    );
    assert_eq!(lfa.frequency().unwrap().hertz(), Some(32_768));
    assert!(matches!(lfa.source(), Setting::Configured(LfSource::LfRco(_))));

    let lfa = lfa.enable_ulfrco(&initial.ulfrco, &mut cmu);
    assert_eq!(
        cmu.take(),
        vec![Operation::ModifyPair(Field::Lfae(true), Field::Lfa(LfSelect::Disabled))]
    );
    assert_eq!(lfa.frequency().unwrap().hertz(), Some(1_000));
    assert!(matches!(lfa.source(), Setting::Configured(LfSource::ULfRco(_))));

    let hfclk = initial.hfclk.div1(&mut cmu).hfrco(&initial.hfrco, &mut cmu);
    let hfcoreclk = initial.hfcoreclk.div1(&hfclk, &mut cmu);
    let lediv = initial.hfcoreclklediv.enable_div2(&hfcoreclk, &mut cmu);
    cmu.take();
    let lfa = lfa.enable_hfcoreclklediv(&lediv, &mut cmu);
    assert_eq!(
        cmu.take(),
        vec![Operation::ModifyPair(Field::Lfae(false), Field::Lfa(LfSelect::HfCoreClkLeDiv2))]
    );
    assert_eq!(lfa.frequency().unwrap().hertz(), Some(7_000_000));

    let lfa = lfa.disable(&mut cmu);
    assert_eq!(
        cmu.take(),
        vec![Operation::ModifyPair(Field::Lfae(false), Field::Lfa(LfSelect::Disabled))]
    );
    assert_eq!(lfa.status(), ClockState::Off);
    assert_eq!(lfa.frequency(), None);
}

#[test]
fn the_lfbclk_selects_each_of_its_sources() {
    let (mut cmu, initial) = claimed();
    let lfrco = initial.lfrco.enable_32768hz(&mut cmu);
    cmu.take();
    let lfb = initial.lfbclk.enable_lfrco(&lfrco, &mut cmu);
    assert_eq!(
        cmu.take(),
        vec![Operation::ModifyPair(Field::Lfbe(false), Field::Lfb(LfSelect::LfRco))]
    );
    assert_eq!(lfb.frequency().unwrap().hertz(), Some(32_768));

    let lfb = lfb.enable_ulfrco(&initial.ulfrco, &mut cmu);
    assert_eq!(
        cmu.take(),
        vec![Operation::ModifyPair(Field::Lfbe(true), Field::Lfb(LfSelect::Disabled))]
    );
    assert_eq!(lfb.frequency().unwrap().hertz(), Some(1_000));

    let lfb = lfb.disable(&mut cmu);
    assert_eq!(
        cmu.take(),
        vec![Operation::ModifyPair(Field::Lfbe(false), Field::Lfb(LfSelect::Disabled))]
    );
    assert!(matches!(lfb.source(), Setting::Off));
}

#[test]
fn the_lfcclk_selects_the_lfrco() {
    let (mut cmu, initial) = claimed();
    let lfrco = initial.lfrco.enable_32768hz(&mut cmu);
    cmu.take();
    let lfc = initial.lfcclk.enable_lfrco(&lfrco, &mut cmu);
    assert_eq!(cmu.take(), vec![Operation::Modify(Field::Lfc(LfcSelect::LfRco))]);
    assert_eq!(lfc.frequency().unwrap().hertz(), Some(32_768));
    assert!(matches!(lfc.source(), Setting::Configured(LfcSource::LfRco(_))));
    let lfc = lfc.disable(&mut cmu);
    assert_eq!(cmu.take(), vec![Operation::Modify(Field::Lfc(LfcSelect::Disabled))]);
    assert_eq!(lfc.status(), ClockState::Off);
}

#[test]
fn every_store_to_the_real_time_counter_clock_follows_a_poll() {
    let (mut cmu, initial) = claimed();
    let lfrco = initial.lfrco.enable_32768hz(&mut cmu);
    let lfa = initial.lfaclk.enable_lfrco(&lfrco, &mut cmu);
    cmu.take();
    let rtc = initial.lfaclkrtc.enable_div1(&lfa, &mut cmu);
    assert_eq!(cmu.take(), rtc_sequence(1));
    assert_eq!(rtc.frequency().unwrap().hertz(), Some(32_768));
    let rtc = rtc.enable_div32768(&lfa, &mut cmu);
    assert_eq!(cmu.take(), rtc_sequence(32768));
    assert_eq!(rtc.division(), Setting::Configured(32768));
    assert_eq!(rtc.frequency().unwrap().hertz(), Some(1));
    let rtc = rtc.disable(&mut cmu);
    assert_eq!(
        cmu.take(),
        vec![
            Operation::WaitUntilClear(SyncBusyFlag::LfaClkEn0),
            Operation::Write(Field::RtcEnable(false)),
        ]
    );
    assert_eq!(rtc.status(), ClockState::Off);
}

#[test]
fn the_real_time_counter_clock_has_sixteen_divisors() {
    let (mut cmu, initial) = claimed();
    let lfrco = initial.lfrco.enable_32768hz(&mut cmu);
    let lfa = initial.lfaclk.enable_lfrco(&lfrco, &mut cmu);
    cmu.take();
    let rtc = initial.lfaclkrtc.enable_div2(&lfa, &mut cmu);
    assert_eq!(rtc.frequency().unwrap().hertz(), Some(16_384));
    let rtc = rtc.enable_div4(&lfa, &mut cmu);
    assert_eq!(rtc.frequency().unwrap().hertz(), Some(8_192));
    let rtc = rtc.enable_div8(&lfa, &mut cmu);
    let rtc = rtc.enable_div16(&lfa, &mut cmu);
    let rtc = rtc.enable_div32(&lfa, &mut cmu);
    let rtc = rtc.enable_div64(&lfa, &mut cmu);
    let rtc = rtc.enable_div128(&lfa, &mut cmu);
    assert_eq!(rtc.frequency().unwrap().hertz(), Some(256));
    let rtc = rtc.enable_div256(&lfa, &mut cmu);
    let rtc = rtc.enable_div512(&lfa, &mut cmu);
    let rtc = rtc.enable_div1024(&lfa, &mut cmu);
    let rtc = rtc.enable_div2048(&lfa, &mut cmu);
    let rtc = rtc.enable_div4096(&lfa, &mut cmu);
    let rtc = rtc.enable_div8192(&lfa, &mut cmu);
    let rtc = rtc.enable_div16384(&lfa, &mut cmu);
    assert_eq!(rtc.frequency().unwrap().hertz(), Some(2));
    let mut expected: Vec<Operation> = Vec::new();
    let mut divisor: u16 = 2;
    while divisor <= 16384 {
        expected.extend(rtc_sequence(divisor));
        divisor *= 2;
    }
    assert_eq!(cmu.take(), expected);
}

#[test]
fn the_clock_of_the_low_energy_uart_divides_by_one_two_four_or_eight() {
    let (mut cmu, initial) = claimed();
    let lfrco = initial.lfrco.enable_32768hz(&mut cmu);
    let lfb = initial.lfbclk.enable_lfrco(&lfrco, &mut cmu);
    cmu.take();
    let leuart = initial.lfbclkleuart0.enable_div1(&lfb, &mut cmu);
    assert_eq!(cmu.take(), leuart_sequence(1));
    assert_eq!(leuart.frequency().unwrap().hertz(), Some(32_768));
    let leuart = leuart.enable_div2(&lfb, &mut cmu);
    assert_eq!(cmu.take(), leuart_sequence(2));
    assert_eq!(leuart.frequency().unwrap().hertz(), Some(16_384));
    let leuart = leuart.enable_div4(&lfb, &mut cmu);
    assert_eq!(cmu.take(), leuart_sequence(4));
    assert_eq!(leuart.frequency().unwrap().hertz(), Some(8_192));
    let leuart = leuart.enable_div8(&lfb, &mut cmu);
    assert_eq!(cmu.take(), leuart_sequence(8));
    assert_eq!(leuart.frequency().unwrap().hertz(), Some(4_096));
    assert_eq!(leuart.division(), Setting::Configured(8));
    let leuart = leuart.disable(&mut cmu);
    assert_eq!(
        cmu.take(),
        vec![
            Operation::WaitUntilClear(SyncBusyFlag::LfbClkEn0),
            Operation::Write(Field::Leuart0Enable(false)),
        ]
    );
    assert_eq!(leuart.status(), ClockState::Off);
    assert_eq!(leuart.division(), Setting::Off);
}

#[test]
fn the_low_energy_clock_of_usb_polls_before_it_stores() {
    let (mut cmu, initial) = claimed();
    let lfrco = initial.lfrco.enable_32768hz(&mut cmu);
    let lfc = initial.lfcclk.enable_lfrco(&lfrco, &mut cmu);
    cmu.take();
    let usble = initial.lfcclkusble.enable(&lfc, &mut cmu);
    assert_eq!(
        cmu.take(),
        vec![
            Operation::WaitUntilClear(SyncBusyFlag::LfcClkEn0),
            Operation::Write(Field::UsbLeEnable(true)),
        ]
    );
    assert_eq!(usble.frequency().unwrap().hertz(), Some(32_768));
    let usble = usble.disable(&mut cmu);
    assert_eq!(
        cmu.take(),
        vec![
            Operation::WaitUntilClear(SyncBusyFlag::LfcClkEn0),
            Operation::Write(Field::UsbLeEnable(false)),
        ]
    );
    assert_eq!(usble.status(), ClockState::Off);
}

#[test]
fn releasing_a_low_frequency_clock_is_one_store_behind_its_poll() {
    let (mut cmu, initial) = claimed();
    initial.lfaclk.release(&mut cmu);
    initial.lfaclkrtc.release(&mut cmu);
    initial.lfbclk.release(&mut cmu);
    initial.lfbclkleuart0.release(&mut cmu);
    initial.lfcclk.release(&mut cmu);
    initial.lfcclkusble.release(&mut cmu);
    let issued = cmu.take();
    assert_eq!(
        issued,
        vec![
            Operation::ModifyPair(Field::Lfae(false), Field::Lfa(LfSelect::Disabled)),
            Operation::WaitUntilClear(SyncBusyFlag::LfaClkEn0),
            Operation::Write(Field::RtcEnable(false)),
            Operation::ModifyPair(Field::Lfbe(false), Field::Lfb(LfSelect::Disabled)),
            Operation::WaitUntilClear(SyncBusyFlag::LfbClkEn0),
            Operation::Write(Field::Leuart0Enable(false)),
            Operation::Modify(Field::Lfc(LfcSelect::Disabled)),
            Operation::WaitUntilClear(SyncBusyFlag::LfcClkEn0),
            Operation::Write(Field::UsbLeEnable(false)),
        ]
    );
    let stores = issued.iter().filter(|operation| operation.register().is_some()).count();
    assert_eq!(stores, 6);
}

#[test]
fn a_chain_of_dividers_is_exact_to_the_last_hertz() {
    // 21 MHz, undivided into the main clock and into the core clock, divided by 4 for the
    // low-energy peripherals, and by 4 again for the real-time counter.
    let (mut cmu, initial) = claimed();
    let hfrco = initial.hfrco.enable_21mhz(&page(), &mut cmu);
    let hfclk = initial.hfclk.div1(&mut cmu).hfrco(&hfrco, &mut cmu);
    let hfcoreclk = initial.hfcoreclk.div1(&hfclk, &mut cmu);
    let lediv = initial.hfcoreclklediv.enable_div4(&hfcoreclk, &mut cmu);
    assert_eq!(lediv.frequency().unwrap().hertz(), Some(5_250_000));
    let lfa = initial.lfaclk.enable_hfcoreclklediv(&lediv, &mut cmu);
    assert_eq!(lfa.frequency().unwrap().hertz(), Some(5_250_000));
    let rtc = initial.lfaclkrtc.enable_div4(&lfa, &mut cmu);
    let frequency = rtc.frequency().unwrap();
    assert_eq!(frequency.numerator(), 21_000_000);
    assert_eq!(frequency.denominator(), 16);
    assert_eq!(frequency.hertz(), Some(1_312_500));
}

#[test]
fn the_uart_runs_at_656250_hertz() {
    let (mut cmu, initial) = claimed();
    let lfrco = initial.lfrco.enable_32768hz(&mut cmu);
    assert_eq!(lfrco.frequency().unwrap().hertz(), Some(32_768));
    let hfrco = initial.hfrco.enable_21mhz(&page(), &mut cmu);
    assert_eq!(hfrco.frequency().unwrap().hertz(), Some(21_000_000));
    let hfclk = initial.hfclk.div1(&mut cmu).hfrco(&hfrco, &mut cmu);
    let hfcoreclk = initial.hfcoreclk.div1(&hfclk, &mut cmu);
    let lediv = initial.hfcoreclklediv.enable_div4(&hfcoreclk, &mut cmu);
    assert_eq!(lediv.frequency().unwrap().hertz(), Some(5_250_000));
    let lfb = initial.lfbclk.enable_hfcoreclklediv(&lediv, &mut cmu);
    let leuart = initial.lfbclkleuart0.enable_div8(&lfb, &mut cmu);
    let frequency = leuart.frequency().unwrap();
    assert_eq!(frequency.hertz(), Some(656_250));
    assert_eq!(frequency.numerator(), 21_000_000);
    assert_eq!(frequency.denominator(), 32);
    assert!(leuart.is_clock());
}

#[test]
fn the_longest_chain_stays_exact() {
    let (mut cmu, initial) = claimed();
    let hfclk = initial.hfclk.div8(&mut cmu).hfrco(&initial.hfrco, &mut cmu);
    let hfcoreclk = initial.hfcoreclk.div512(&hfclk, &mut cmu);
    let lediv = initial.hfcoreclklediv.enable_div4(&hfcoreclk, &mut cmu);
    let lfa = initial.lfaclk.enable_hfcoreclklediv(&lediv, &mut cmu);
    let rtc = initial.lfaclkrtc.enable_div32768(&lfa, &mut cmu);
    let frequency = rtc.frequency().unwrap();
    assert_eq!(frequency.numerator(), 14_000_000);
    assert_eq!(frequency.denominator(), 8 * 512 * 4 * 32768);
    assert_eq!(frequency.hertz(), None);
}

#[test]
fn every_low_frequency_clock_knows_its_domain() {
    assert_eq!(LfaClk::domain(), Domain::LfaClk);
    assert_eq!(LfaClkRtc::domain(), Domain::LfaClkRtc);
    assert_eq!(LfbClk::domain(), Domain::LfbClk);
    assert_eq!(LfbClkLeuart0::domain(), Domain::LfbClkLeuart0);
    assert_eq!(LfcClk::domain(), Domain::LfcClk);
    assert_eq!(LfcClkUsbLe::domain(), Domain::LfcClkUsbLe);
}
