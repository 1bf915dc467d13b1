use efm32hg_hal::boot::init_cmu;
use efm32hg_hal::cmu::registers::Cmu;
use efm32hg_hal::cmu::{InitialCmuState, LfbClkLeuart0};
use efm32hg_hal::device_information::DeviceInformation;
use efm32hg_hal::gpio::pin_modes::PinMode;
use efm32hg_hal::gpio::{InitialGpioState, Port};
use efm32hg_hal::leuart::{
    Command, Leuart, Location, LocationPins, Operation, Place, SyncRegister,
};

fn clock() -> &'static LfbClkLeuart0<'static> {
    let information = DeviceInformation {
        ushfrco_coarsecal_band_24: 0,
        ushfrco_finecal_band_24: 0,
        ushfrco_coarsecal_band_48: 0,
        ushfrco_finecal_band_48: 0,
        auxhfrco_calib_band_1: 0,
        auxhfrco_calib_band_7: 0,
        auxhfrco_calib_band_11: 0,
        auxhfrco_calib_band_14: 0,
        auxhfrco_calib_band_21: 0,
        hfrco_calib_band_1: 0,
        hfrco_calib_band_7: 0,
        hfrco_calib_band_11: 0,
        hfrco_calib_band_14: 0,
        hfrco_calib_band_21: 0,
    };
    let mut cmu = Cmu::new();
    let initial = InitialCmuState::get_initial_state(&mut cmu);
    init_cmu(initial, &information, &mut cmu)
}

#[test]
fn reset_leaves_the_uart_without_clock_and_pins() {
    let leuart = Leuart::get_initial_state();
    assert_eq!(leuart.location(), Location::Location0);
    assert!(leuart.clock().is_none());
    assert!(leuart.tx_pin().is_none());
    assert!(leuart.rx_pin().is_none());
}

#[test]
fn only_location_1_has_known_pins() {
    assert_eq!(Location::Location0.pins(), None);
    assert_eq!(
        Location::Location1.pins(),
        Some(LocationPins {
            tx: Place { port: Port::B, pin: 13 },
            rx: Place { port: Port::B, pin: 14 },
        })
    );
}

#[test]
fn the_baud_rate_is_stored_and_waited_for_and_then_the_stop_bits() {
    let mut operations = Vec::new();
    let leuart = Leuart::get_initial_state().baudrate(clock(), 150, &mut operations);
    assert_eq!(
        operations,
        vec![
            Operation::WriteClockDivider(150),
            Operation::WaitUntilArrived(SyncRegister::ClkDiv),
            Operation::SetStopBits,
            Operation::WaitUntilArrived(SyncRegister::Ctrl),
        ]
    );
    assert!(leuart.clock().is_some());
    assert_eq!(leuart.location(), Location::Location0);
    assert!(leuart.tx_pin().is_none());
}

#[test]
fn the_uart_is_routed_and_started_and_says_hello() {
    let pins = InitialGpioState::get_initial_state();
    let push_pull = PinMode::new().push_pull().input_enable();
    let (pb13, _, _) = pins.pb13.mode(push_pull, 0);
    let (pb14, _, _) = pins.pb14.mode(push_pull, 0);
    let mut operations = Vec::new();
    let leuart = Leuart::get_initial_state()
        .baudrate(clock(), 150, &mut operations)
        .location1(&mut operations);
    assert_eq!(leuart.location(), Location::Location1);
    operations.clear();

    let leuart = leuart.enable_tx(&pb13, &mut operations);
    assert_eq!(
        operations,
        vec![
            Operation::EnableTransmitPin,
            Operation::Write(Command::StartTransmitter),
            Operation::WaitUntilArrived(SyncRegister::Cmd),
        ]
    );
    assert!(leuart.tx_pin().is_some());
    assert!(leuart.rx_pin().is_none());
    operations.clear();

    let mut leuart = leuart.enable_rx(&pb14, &mut operations);
    assert_eq!(
        operations,
        vec![
            Operation::EnableReceivePin,
            Operation::Write(Command::StartReceiver),
            Operation::WaitUntilArrived(SyncRegister::Cmd),
        ]
    );
    assert!(leuart.rx_pin().is_some());
    operations.clear();

    leuart.write_blocking(b"Hi!", &mut operations);
    assert_eq!(
        operations,
        vec![
            Operation::Transmit(b'H'),
            Operation::WaitUntilTransmitted,
            Operation::Transmit(b'i'),
            Operation::WaitUntilTransmitted,
            Operation::Transmit(b'!'),
            Operation::WaitUntilTransmitted,
        ]
    );
    operations.clear();
    leuart.write_blocking(b"", &mut operations);
    assert!(operations.is_empty());

    let leuart = leuart.disable(&mut operations);
    assert_eq!(
        operations,
        vec![Operation::Write(Command::Stop), Operation::WaitUntilArrived(SyncRegister::Cmd)]
    );
    assert!(leuart.clock().is_none());
    assert!(leuart.tx_pin().is_none());
    assert!(leuart.rx_pin().is_none());
    assert_eq!(leuart.location(), Location::Location1);
}

#[test]
fn routing_to_location_1_is_one_store() {
    let mut operations = Vec::new();
    let leuart = Leuart::get_initial_state().baudrate(clock(), 0xfff, &mut operations);
    operations.clear();
    let leuart = leuart.location1(&mut operations);
    assert_eq!(operations, vec![Operation::RouteToLocation1]);
    assert!(leuart.clock().is_some());
}
