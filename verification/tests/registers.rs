use efm32hg_hal::cmu::registers::{
    Cmu, CoreClockGate, Field, HfClkSelect, HfRcoBand, LfSelect, LfcSelect, Operation,
    OscillatorCommand, PeripheralClockGate, Register, StatusFlag, SyncBusyFlag, UsHfRcoBand,
    UsbcClkSelect,
};
use efm32hg_hal::cmu::Domain;

#[test]
fn every_field_lies_in_its_register() {
    assert_eq!(Field::HfClkDiv(0).register(), Register::Ctrl);
    assert_eq!(Field::HfClkSel(HfClkSelect::HfXo).register(), Register::Cmd);
    assert_eq!(Field::UsbcClkSel(UsbcClkSelect::LfXo).register(), Register::Cmd);
    assert_eq!(Field::HfCoreClkDiv(1).register(), Register::HfCoreClkDiv);
    assert_eq!(Field::HfCoreClkLeDiv(true).register(), Register::HfCoreClkDiv);
    assert_eq!(Field::HfPerClkDiv(1).register(), Register::HfPerClkDiv);
    assert_eq!(Field::HfPerClkEn(true).register(), Register::HfPerClkDiv);
    assert_eq!(
        Field::CoreClockEnable(CoreClockGate::Aes, true).register(),
        Register::HfCoreClkEn0
    );
    assert_eq!(
        Field::PeripheralClockEnable(PeripheralClockGate::Prs, true).register(),
        Register::HfPerClkEn0
    );
    assert_eq!(Field::HfRcoBand(HfRcoBand::Mhz1).register(), Register::HfRcoCtrl);
    assert_eq!(Field::HfRcoTuning(0).register(), Register::HfRcoCtrl);
    assert_eq!(Field::AuxHfRcoBand(HfRcoBand::Mhz1).register(), Register::AuxHfRcoCtrl);
    assert_eq!(Field::AuxHfRcoTuning(0).register(), Register::AuxHfRcoCtrl);
    assert_eq!(Field::UsHfRcoBand(UsHfRcoBand::Mhz24).register(), Register::UsHfRcoConf);
    assert_eq!(Field::UsHfRcoDiv2Dis(true).register(), Register::UsHfRcoConf);
    assert_eq!(Field::UsHfRcoTuning(0).register(), Register::UsHfRcoCtrl);
    assert_eq!(Field::UsHfRcoFineTuning(0).register(), Register::UsHfRcoTune);
    assert_eq!(Field::Oscillator(OscillatorCommand::LfXoDis).register(), Register::OscEnCmd);
    assert_eq!(Field::Lfa(LfSelect::LfXo).register(), Register::LfClkSel);
    assert_eq!(Field::Lfae(true).register(), Register::LfClkSel);
    assert_eq!(Field::Lfb(LfSelect::LfXo).register(), Register::LfClkSel);
    assert_eq!(Field::Lfbe(true).register(), Register::LfClkSel);
    assert_eq!(Field::Lfc(LfcSelect::LfXo).register(), Register::LfClkSel);
    assert_eq!(Field::RtcPrescaler(1).register(), Register::LfaPresc0);
    assert_eq!(Field::RtcEnable(true).register(), Register::LfaClkEn0);
    assert_eq!(Field::Leuart0Prescaler(1).register(), Register::LfbPresc0);
    assert_eq!(Field::Leuart0Enable(true).register(), Register::LfbClkEn0);
    assert_eq!(Field::UsbLeEnable(true).register(), Register::LfcClkEn0);
}

#[test]
fn only_the_registers_behind_the_bridge_have_a_busy_bit() {
    assert_eq!(Register::LfaClkEn0.sync_busy(), Some(SyncBusyFlag::LfaClkEn0));
    assert_eq!(Register::LfaPresc0.sync_busy(), Some(SyncBusyFlag::LfaPresc0));
    assert_eq!(Register::LfbClkEn0.sync_busy(), Some(SyncBusyFlag::LfbClkEn0));
    assert_eq!(Register::LfbPresc0.sync_busy(), Some(SyncBusyFlag::LfbPresc0));
    assert_eq!(Register::LfcClkEn0.sync_busy(), Some(SyncBusyFlag::LfcClkEn0));
    for register in [
        Register::Ctrl,
        Register::HfCoreClkDiv,
        Register::HfPerClkDiv,
        Register::HfRcoCtrl,
        Register::AuxHfRcoCtrl,
        Register::OscEnCmd,
        Register::Cmd,
        Register::LfClkSel,
        Register::HfCoreClkEn0,
        Register::HfPerClkEn0,
        Register::UsHfRcoCtrl,
        Register::UsHfRcoTune,
        Register::UsHfRcoConf,
    ] {
        assert_eq!(register.sync_busy(), None);
    }
}

#[test]
fn an_operation_stores_to_the_register_of_its_field() {
    assert_eq!(Operation::Write(Field::RtcEnable(true)).register(), Some(Register::LfaClkEn0));
    assert_eq!(
        Operation::WritePair(Field::HfPerClkEn(true), Field::HfPerClkDiv(2)).register(),
        Some(Register::HfPerClkDiv)
    );
    assert_eq!(Operation::Modify(Field::HfClkDiv(3)).register(), Some(Register::Ctrl));
    assert_eq!(
        Operation::ModifyPair(Field::Lfae(false), Field::Lfa(LfSelect::LfRco)).register(),
        Some(Register::LfClkSel)
    );
    assert_eq!(Operation::WaitUntilSet(StatusFlag::HfRcoRdy).register(), None);
    assert_eq!(Operation::WaitUntilClear(SyncBusyFlag::LfaPresc0).register(), None);
}

#[test]
fn an_operation_is_guarded_where_its_register_is() {
    assert_eq!(
        Operation::Write(Field::RtcPrescaler(4)).guard(),
        Some(SyncBusyFlag::LfaPresc0)
    );
    assert_eq!(
        Operation::Write(Field::Leuart0Enable(false)).guard(),
        Some(SyncBusyFlag::LfbClkEn0)
    );
    assert_eq!(Operation::Modify(Field::Lfc(LfcSelect::LfRco)).guard(), None);
    assert_eq!(Operation::WaitUntilClear(SyncBusyFlag::LfaPresc0).guard(), None);
    assert_eq!(Operation::WaitUntilSet(StatusFlag::LfRcoRdy).guard(), None);
}

#[test]
fn four_domains_have_nothing_that_switches_them_off() {
    let all = [
        Domain::HfRco,
        Domain::AuxHfRco,
        Domain::LfRco,
        Domain::ULfRco,
        Domain::UsHfRco,
        Domain::HfXo,
        Domain::LfXo,
        Domain::UsHfRcoDiv,
        Domain::HfClk,
        Domain::HfCoreClk,
        Domain::HfCoreClkAes,
        Domain::HfCoreClkDma,
        Domain::HfCoreClkUsb,
        Domain::HfCoreClkLeDiv,
        Domain::HfCoreClkUsbC,
        Domain::HfPerClk,
        Domain::HfPerClkTimer0,
        Domain::HfPerClkTimer1,
        Domain::HfPerClkTimer2,
        Domain::HfPerClkUsart0,
        Domain::HfPerClkUsart1,
        Domain::HfPerClkAcmp0,
        Domain::HfPerClkPrs,
        Domain::HfPerClkIdac0,
        Domain::HfPerClkGpio,
        Domain::HfPerClkVcmp,
        Domain::HfPerClkAdc0,
        Domain::HfPerClkI2c0,
        Domain::LfaClk,
        Domain::LfaClkRtc,
        Domain::LfbClk,
        Domain::LfbClkLeuart0,
        Domain::LfcClk,
        Domain::LfcClkUsbLe,
    ];
    let without: Vec<Domain> = all
        .iter()
        .copied()
        .filter(|domain| domain.disable_operation().is_none())
        .collect();
    assert_eq!(
        without,
        vec![Domain::ULfRco, Domain::UsHfRcoDiv, Domain::HfClk, Domain::HfCoreClk]
    );
    for domain in all {
        if let Some(operation) = domain.disable_operation() {
            assert!(operation.register().is_some());
        }
    }
}

#[test]
fn the_store_that_switches_a_domain_off_is_the_one_of_the_domain() {
    assert_eq!(
        Domain::HfRco.disable_operation(),
        Some(Operation::Write(Field::Oscillator(OscillatorCommand::HfRcoDis)))
    );
    assert_eq!(
        Domain::HfPerClk.disable_operation(),
        Some(Operation::Write(Field::HfPerClkEn(false)))
    );
    assert_eq!(
        Domain::HfPerClkVcmp.disable_operation(),
        Some(Operation::Modify(Field::PeripheralClockEnable(PeripheralClockGate::Vcmp, false)))
    );
    assert_eq!(
        Domain::HfCoreClkLeDiv.disable_operation(),
        Some(Operation::Modify(Field::CoreClockEnable(CoreClockGate::Le, false)))
    );
    assert_eq!(
        Domain::LfbClk.disable_operation(),
        Some(Operation::ModifyPair(Field::Lfbe(false), Field::Lfb(LfSelect::Disabled)))
    );
    assert_eq!(
        Domain::LfcClkUsbLe.disable_operation(),
        Some(Operation::Write(Field::UsbLeEnable(false)))
    );
}

#[test]
fn taking_the_operations_leaves_none() {
    let mut cmu = Cmu::new();
    assert_eq!(cmu.take(), Vec::<Operation>::new());
    assert!(cmu.issued().is_empty());
    assert!(!cmu.is_claimed());
}
