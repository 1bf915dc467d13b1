use efm32hg_hal::cmu::registers::{
    Cmu, Field, HfRcoBand, Operation, OscillatorCommand, StatusFlag, UsHfRcoBand,
};
use efm32hg_hal::cmu::{
    AuxHfRco, Clock, ClockState, Domain, HfRco, HfXo, InitialCmuState, LfRco, LfXo, Setting,
    ULfRco, UsHfRco, UsHfRcoDiv,
};
use efm32hg_hal::device_information::DeviceInformation;
use efm32hg_hal::frequency::Frequency;

fn page() -> DeviceInformation {
    DeviceInformation {
        ushfrco_coarsecal_band_24: 0xc1,
        ushfrco_finecal_band_24: 0xc2,
        ushfrco_coarsecal_band_48: 0xa5,
        ushfrco_finecal_band_48: 0x7b,
        auxhfrco_calib_band_1: 0x11,
        auxhfrco_calib_band_7: 0x17,
        auxhfrco_calib_band_11: 0x1b,
        auxhfrco_calib_band_14: 0x1e,
        auxhfrco_calib_band_21: 0x25,
        hfrco_calib_band_1: 0x81,
        hfrco_calib_band_7: 0x87,
        hfrco_calib_band_11: 0x8b,
        hfrco_calib_band_14: 0x8e,
        hfrco_calib_band_21: 0x95,
    }
}

fn claimed() -> (Cmu, InitialCmuState) {
    let mut cmu = Cmu::new();
    let initial = InitialCmuState::get_initial_state(&mut cmu);
    (cmu, initial)
}

fn hfrco_sequence(band: HfRcoBand, tuning: u8) -> Vec<Operation> {
    vec![
        Operation::WritePair(Field::HfRcoBand(band), Field::HfRcoTuning(tuning)),
        Operation::Write(Field::Oscillator(OscillatorCommand::HfRcoEn)),
        Operation::WaitUntilSet(StatusFlag::HfRcoRdy),
    ]
}

fn auxhfrco_sequence(band: HfRcoBand, tuning: u8) -> Vec<Operation> {
    vec![
        Operation::WritePair(Field::AuxHfRcoBand(band), Field::AuxHfRcoTuning(tuning)),
        Operation::Write(Field::Oscillator(OscillatorCommand::AuxHfRcoEn)),
        Operation::WaitUntilSet(StatusFlag::AuxHfRcoRdy),
    ]
}

#[test]
fn reset_leaves_the_hfrco_at_14_mhz() {
    let (cmu, initial) = claimed();
    assert_eq!(initial.hfrco.band(), Setting::Configured(HfRcoBand::Mhz14));
    assert!(initial.hfrco.is_clock());
    assert_eq!(initial.hfrco.frequency(), Some(Frequency::new(14_000_000)));
    assert!(cmu.issued().is_empty());
    assert!(cmu.is_claimed());
}

#[test]
fn reset_leaves_the_other_oscillators_off_and_the_ulfrco_running() {
    let (_cmu, initial) = claimed();
    assert_eq!(initial.auxhfrco.status(), ClockState::Off);
    assert_eq!(initial.lfrco.status(), ClockState::Off);
    assert_eq!(initial.ushfrco.status(), ClockState::Off);
    assert_eq!(initial.hfxo.status(), ClockState::Off);
    assert_eq!(initial.lfxo.status(), ClockState::Off);
    assert_eq!(initial.ulfrco.status(), ClockState::Configured);
    assert_eq!(initial.ulfrco.frequency(), Some(Frequency::new(1_000)));
    assert!(!initial.auxhfrco.is_clock());
    assert_eq!(initial.auxhfrco.frequency(), None);
    assert_eq!(initial.hfxo.frequency(), None);
    assert_eq!(initial.lfxo.frequency(), None);
}

#[test]
fn a_fresh_control_block_is_unclaimed_and_empty() {
    let cmu = Cmu::new();
    assert!(!cmu.is_claimed());
    assert!(cmu.issued().is_empty());
}

#[test]
fn enabling_the_hfrco_writes_band_and_tuning_then_starts_and_waits() {
    let (mut cmu, initial) = claimed();
    let hfrco = initial.hfrco.enable_21mhz(&page(), &mut cmu);
    assert_eq!(cmu.issued(), &hfrco_sequence(HfRcoBand::Mhz21, 0x95));
    assert_eq!(hfrco.band(), Setting::Configured(HfRcoBand::Mhz21));
    assert_eq!(hfrco.frequency().unwrap().hertz(), Some(21_000_000));
}

#[test]
fn each_hfrco_band_has_its_frequency_and_its_tuning() {
    let page = page();
    let (mut cmu, initial) = claimed();
    let hfrco = initial.hfrco.enable_1mhz(&page, &mut cmu);
    assert_eq!(cmu.take(), hfrco_sequence(HfRcoBand::Mhz1, 0x81));
    assert_eq!(hfrco.frequency().unwrap().hertz(), Some(1_000_000));
    let hfrco = hfrco.enable_7mhz(&page, &mut cmu);
    assert_eq!(cmu.take(), hfrco_sequence(HfRcoBand::Mhz7, 0x87));
    assert_eq!(hfrco.frequency().unwrap().hertz(), Some(7_000_000));
    let hfrco = hfrco.enable_11mhz(&page, &mut cmu);
    assert_eq!(cmu.take(), hfrco_sequence(HfRcoBand::Mhz11, 0x8b));
    assert_eq!(hfrco.frequency().unwrap().hertz(), Some(11_000_000));
    let hfrco = hfrco.enable_14mhz(&page, &mut cmu);
    assert_eq!(cmu.take(), hfrco_sequence(HfRcoBand::Mhz14, 0x8e));
    assert_eq!(hfrco.frequency().unwrap().hertz(), Some(14_000_000));
    let hfrco = hfrco.enable_21mhz(&page, &mut cmu);
    assert_eq!(cmu.take(), hfrco_sequence(HfRcoBand::Mhz21, 0x95));
    assert_eq!(hfrco.frequency().unwrap().hertz(), Some(21_000_000));
}

#[test]
fn each_auxhfrco_band_has_its_frequency_and_its_tuning() {
    let page = page();
    let (mut cmu, initial) = claimed();
    let auxhfrco = initial.auxhfrco.enable_1mhz(&page, &mut cmu);
    assert_eq!(cmu.take(), auxhfrco_sequence(HfRcoBand::Mhz1, 0x11));
    assert_eq!(auxhfrco.frequency().unwrap().hertz(), Some(1_000_000));
    let auxhfrco = auxhfrco.enable_7mhz(&page, &mut cmu);
    assert_eq!(cmu.take(), auxhfrco_sequence(HfRcoBand::Mhz7, 0x17));
    assert_eq!(auxhfrco.frequency().unwrap().hertz(), Some(7_000_000));
    let auxhfrco = auxhfrco.enable_11mhz(&page, &mut cmu);
    assert_eq!(cmu.take(), auxhfrco_sequence(HfRcoBand::Mhz11, 0x1b));
    assert_eq!(auxhfrco.frequency().unwrap().hertz(), Some(11_000_000));
    let auxhfrco = auxhfrco.enable_14mhz(&page, &mut cmu);
    assert_eq!(cmu.take(), auxhfrco_sequence(HfRcoBand::Mhz14, 0x1e));
    assert_eq!(auxhfrco.frequency().unwrap().hertz(), Some(14_000_000));
    let auxhfrco = auxhfrco.enable_21mhz(&page, &mut cmu);
    assert_eq!(cmu.take(), auxhfrco_sequence(HfRcoBand::Mhz21, 0x25));
    assert_eq!(auxhfrco.frequency().unwrap().hertz(), Some(21_000_000));
    assert_eq!(auxhfrco.band(), Setting::Configured(HfRcoBand::Mhz21));
}

#[test]
fn disabling_an_oscillator_is_one_command_and_no_wait() {
    let (mut cmu, initial) = claimed();
    let hfrco = initial.hfrco.disable(&mut cmu);
    assert_eq!(
        cmu.take(),
        vec![Operation::Write(Field::Oscillator(OscillatorCommand::HfRcoDis))]
    );
    assert_eq!(hfrco.band(), Setting::Off);
    assert!(!hfrco.is_clock());
    assert_eq!(hfrco.frequency(), None);

    let auxhfrco = initial.auxhfrco.disable(&mut cmu);
    assert_eq!(
        cmu.take(),
        vec![Operation::Write(Field::Oscillator(OscillatorCommand::AuxHfRcoDis))]
    );
    assert_eq!(auxhfrco.status(), ClockState::Off);

    let lfrco = initial.lfrco.disable(&mut cmu);
    assert_eq!(
        cmu.take(),
        vec![Operation::Write(Field::Oscillator(OscillatorCommand::LfRcoDis))]
    );
    assert_eq!(lfrco.status(), ClockState::Off);

    let ushfrco = initial.ushfrco.disable(&mut cmu);
    assert_eq!(
        cmu.take(),
        vec![Operation::Write(Field::Oscillator(OscillatorCommand::UsHfRcoDis))]
    );
    assert_eq!(ushfrco.band(), Setting::Off);

    let hfxo = initial.hfxo.disable(&mut cmu);
    assert_eq!(
        cmu.take(),
        vec![Operation::Write(Field::Oscillator(OscillatorCommand::HfXoDis))]
    );
    assert_eq!(hfxo.crystal(), Setting::Off);

    let lfxo = initial.lfxo.disable(&mut cmu);
    assert_eq!(
        cmu.take(),
        vec![Operation::Write(Field::Oscillator(OscillatorCommand::LfXoDis))]
    );
    assert_eq!(lfxo.crystal(), Setting::Off);
}

#[test]
fn enabling_the_lfrco_starts_it_and_waits() {
    let (mut cmu, initial) = claimed();
    let lfrco = initial.lfrco.enable_32768hz(&mut cmu);
    assert_eq!(
        cmu.issued(),
        &vec![
            Operation::Write(Field::Oscillator(OscillatorCommand::LfRcoEn)),
            Operation::WaitUntilSet(StatusFlag::LfRcoRdy),
        ]
    );
    assert_eq!(lfrco.status(), ClockState::Configured);
    assert!(lfrco.is_clock());
    assert_eq!(lfrco.frequency().unwrap().hertz(), Some(32_768));
}

#[test]
fn enabling_the_ushfrco_writes_band_and_both_tunings_masked() {
    let (mut cmu, initial) = claimed();
    let ushfrco = initial.ushfrco.enable_48mhz(&page(), &mut cmu);
    assert_eq!(
        cmu.take(),
        vec![
            Operation::Write(Field::UsHfRcoBand(UsHfRcoBand::Mhz48)),
            Operation::Write(Field::UsHfRcoTuning(0x25)),
            Operation::Write(Field::UsHfRcoFineTuning(0x3b)),
            Operation::Write(Field::Oscillator(OscillatorCommand::UsHfRcoEn)),
            Operation::WaitUntilSet(StatusFlag::UsHfRcoRdy),
        ]
    );
    assert_eq!(ushfrco.frequency().unwrap().hertz(), Some(48_000_000));

    let ushfrco = ushfrco.enable_24mhz(&page(), &mut cmu);
    assert_eq!(
        cmu.take(),
        vec![
            Operation::Write(Field::UsHfRcoBand(UsHfRcoBand::Mhz24)),
            Operation::Write(Field::UsHfRcoTuning(0x41)),
            Operation::Write(Field::UsHfRcoFineTuning(0x02)),
            Operation::Write(Field::Oscillator(OscillatorCommand::UsHfRcoEn)),
            Operation::WaitUntilSet(StatusFlag::UsHfRcoRdy),
        ]
    );
    assert_eq!(ushfrco.band(), Setting::Configured(UsHfRcoBand::Mhz24));
    assert_eq!(ushfrco.frequency().unwrap().hertz(), Some(24_000_000));
}

#[test]
fn the_bands_have_their_hertz() {
    assert_eq!(HfRcoBand::Mhz1.hertz(), 1_000_000);
    assert_eq!(HfRcoBand::Mhz7.hertz(), 7_000_000);
    assert_eq!(HfRcoBand::Mhz11.hertz(), 11_000_000);
    assert_eq!(HfRcoBand::Mhz14.hertz(), 14_000_000);
    assert_eq!(HfRcoBand::Mhz21.hertz(), 21_000_000);
    assert_eq!(UsHfRcoBand::Mhz24.hertz(), 24_000_000);
    assert_eq!(UsHfRcoBand::Mhz48.hertz(), 48_000_000);
}

#[test]
fn the_divider_behind_the_ushfrco_divides_by_one_or_two() {
    let (mut cmu, initial) = claimed();
    let ushfrco = initial.ushfrco.enable_24mhz(&page(), &mut cmu);
    cmu.take();
    let ushfrcodiv = initial.ushfrcodiv.enable_div1(&ushfrco, &mut cmu);
    assert_eq!(cmu.take(), vec![Operation::Modify(Field::UsHfRcoDiv2Dis(true))]);
    assert_eq!(ushfrcodiv.division(), Setting::Configured(1));
    assert_eq!(ushfrcodiv.frequency().unwrap().hertz(), Some(24_000_000));

    let ushfrcodiv = ushfrcodiv.enable_div2(&ushfrco, &mut cmu);
    assert_eq!(cmu.take(), vec![Operation::Modify(Field::UsHfRcoDiv2Dis(false))]);
    assert_eq!(ushfrcodiv.division(), Setting::Configured(2));
    assert_eq!(ushfrcodiv.frequency().unwrap().hertz(), Some(12_000_000));
    assert!(ushfrcodiv.is_clock());

    let ushfrcodiv = ushfrcodiv.disable();
    assert!(cmu.issued().is_empty());
    assert_eq!(ushfrcodiv.status(), ClockState::Off);
    assert_eq!(ushfrcodiv.division(), Setting::Off);
    assert!(matches!(ushfrcodiv.source(), Setting::Off));
    assert_eq!(ushfrcodiv.frequency(), None);
}

#[test]
fn the_ushfrco_at_48_mhz_divides_by_two_to_24_mhz() {
    let (mut cmu, initial) = claimed();
    let ushfrco = initial.ushfrco.enable_48mhz(&page(), &mut cmu);
    let ushfrcodiv = initial.ushfrcodiv.enable_div2(&ushfrco, &mut cmu);
    let frequency = ushfrcodiv.frequency().unwrap();
    assert_eq!(frequency.numerator(), 48_000_000);
    assert_eq!(frequency.denominator(), 2);
    assert_eq!(frequency.hertz(), Some(24_000_000));
}

#[test]
fn releasing_an_oscillator_issues_its_one_disable_command() {
    let (mut cmu, initial) = claimed();
    initial.hfrco.release(&mut cmu);
    assert_eq!(
        cmu.take(),
        vec![Operation::Write(Field::Oscillator(OscillatorCommand::HfRcoDis))]
    );
    initial.auxhfrco.release(&mut cmu);
    assert_eq!(
        cmu.take(),
        vec![Operation::Write(Field::Oscillator(OscillatorCommand::AuxHfRcoDis))]
    );
    initial.lfrco.release(&mut cmu);
    assert_eq!(
        cmu.take(),
        vec![Operation::Write(Field::Oscillator(OscillatorCommand::LfRcoDis))]
    );
    initial.ushfrco.release(&mut cmu);
    assert_eq!(
        cmu.take(),
        vec![Operation::Write(Field::Oscillator(OscillatorCommand::UsHfRcoDis))]
    );
    initial.hfxo.release(&mut cmu);
    assert_eq!(
        cmu.take(),
        vec![Operation::Write(Field::Oscillator(OscillatorCommand::HfXoDis))]
    );
    initial.lfxo.release(&mut cmu);
    assert_eq!(
        cmu.take(),
        vec![Operation::Write(Field::Oscillator(OscillatorCommand::LfXoDis))]
    );
}

#[test]
fn releasing_the_ulfrco_issues_nothing() {
    let (mut cmu, initial) = claimed();
    initial.ulfrco.release(&mut cmu);
    assert!(cmu.issued().is_empty());
    initial.ushfrcodiv.release(&mut cmu);
    assert!(cmu.issued().is_empty());
}

#[test]
fn every_oscillator_knows_its_domain() {
    assert_eq!(HfRco::domain(), Domain::HfRco);
    assert_eq!(AuxHfRco::domain(), Domain::AuxHfRco);
    assert_eq!(LfRco::domain(), Domain::LfRco);
    assert_eq!(ULfRco::domain(), Domain::ULfRco);
    assert_eq!(UsHfRco::domain(), Domain::UsHfRco);
    assert_eq!(UsHfRcoDiv::domain(), Domain::UsHfRcoDiv);
    assert_eq!(HfXo::domain(), Domain::HfXo);
    assert_eq!(LfXo::domain(), Domain::LfXo);
}
