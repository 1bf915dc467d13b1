use efm32hg_hal::devices::StaticDevice;
use efm32hg_hal::gpio::pin_modes;
use efm32hg_hal::gpio::{Gpio, GpioRegister, InitialGpioState, Pin, PinMode, Port, Store};

#[test]
fn the_modes_are_numbered_as_the_registers_number_them() {
    let all = [
        PinMode::Disabled,
        PinMode::Input,
        PinMode::InputPull,
        PinMode::InputPullFilter,
        PinMode::PushPull,
        PinMode::PushPullDrive,
        PinMode::Wiredor,
        PinMode::WiredOrPullDown,
        PinMode::WiredAnd,
        PinMode::WiredAndFilter,
        PinMode::WiredAndPullUp,
        PinMode::WiredAndPullUpFilter,
        PinMode::WiredAndDrive,
        PinMode::WiredAndDriveFilter,
        PinMode::WiredAndDrivePullUp,
        PinMode::WiredAndDrivePullUpFilter,
    ];
    for (number, mode) in all.iter().enumerate() {
        assert_eq!(mode.bits() as usize, number);
        assert_eq!(PinMode::from_bits(number as u8), Some(*mode));
    }
    assert_eq!(PinMode::from_bits(16), None);
    assert_eq!(PinMode::from_bits(255), None);
}

#[test]
fn the_package_brings_out_thirteen_pins() {
    let pins = Gpio::init_gpio().pins();
    assert_eq!((pins.pa0.port(), pins.pa0.pin()), (Port::A, 0));
    assert_eq!((pins.pb7.port(), pins.pb7.pin()), (Port::B, 7));
    assert_eq!((pins.pb8.port(), pins.pb8.pin()), (Port::B, 8));
    assert_eq!((pins.pb11.port(), pins.pb11.pin()), (Port::B, 11));
    assert_eq!((pins.pb13.port(), pins.pb13.pin()), (Port::B, 13));
    assert_eq!((pins.pb14.port(), pins.pb14.pin()), (Port::B, 14));
    assert_eq!((pins.pc0.port(), pins.pc0.pin()), (Port::C, 0));
    assert_eq!((pins.pc1.port(), pins.pc1.pin()), (Port::C, 1));
    assert_eq!((pins.pe12.port(), pins.pe12.pin()), (Port::E, 12));
    assert_eq!((pins.pe13.port(), pins.pe13.pin()), (Port::E, 13));
    assert_eq!((pins.pf0.port(), pins.pf0.pin()), (Port::F, 0));
    assert_eq!((pins.pf1.port(), pins.pf1.pin()), (Port::F, 1));
    assert_eq!((pins.pf2.port(), pins.pf2.pin()), (Port::F, 2));
}

#[test]
fn the_mode_of_a_low_pin_goes_to_the_low_register() {
    let gpio = Gpio::init_gpio();
    assert_eq!(Gpio::mode_register(Port::A, 0), GpioRegister::ModeLow(Port::A));
    assert_eq!(Gpio::mode_register(Port::B, 7), GpioRegister::ModeLow(Port::B));
    let store = gpio.pin_mode(Port::B, 7, PinMode::PushPull, 0x1234_5678);
    assert_eq!(store, Store { register: GpioRegister::ModeLow(Port::B), value: 0x4234_5678 });
    let store = gpio.pin_mode(Port::A, 0, PinMode::WiredAndDrivePullUpFilter, 0);
    assert_eq!(store, Store { register: GpioRegister::ModeLow(Port::A), value: 0x0000_000f });
    let store = gpio.pin_mode(Port::C, 1, PinMode::Disabled, 0xffff_ffff);
    assert_eq!(store, Store { register: GpioRegister::ModeLow(Port::C), value: 0xffff_ff0f });
}

#[test]
fn the_mode_of_a_high_pin_goes_to_the_high_register() {
    let gpio = Gpio::init_gpio();
    assert_eq!(Gpio::mode_register(Port::B, 8), GpioRegister::ModeHigh(Port::B));
    assert_eq!(Gpio::mode_register(Port::E, 15), GpioRegister::ModeHigh(Port::E));
    let store = gpio.pin_mode(Port::B, 13, PinMode::PushPull, 0x1111_1111);
    assert_eq!(store, Store { register: GpioRegister::ModeHigh(Port::B), value: 0x1141_1111 });
    let store = gpio.pin_mode(Port::E, 8, PinMode::Input, 0xabcd_ef00);
    assert_eq!(store, Store { register: GpioRegister::ModeHigh(Port::E), value: 0xabcd_ef01 });
    let store = gpio.pin_mode(Port::F, 15, PinMode::InputPull, 0xabcd_ef00);
    assert_eq!(store, Store { register: GpioRegister::ModeHigh(Port::F), value: 0x2bcd_ef00 });
}

#[test]
fn giving_a_pin_a_mode_leaves_the_other_pins_alone() {
    let gpio = Gpio::init_gpio();
    let current: u32 = 0x7654_3210;
    for pin in 0u8..16 {
        let store = gpio.pin_mode(Port::D, pin, PinMode::WiredAndPullUp, current);
        for slot in 0u32..8 {
            let field = (store.value >> (slot * 4)) & 0xf;
            if slot == (pin % 8) as u32 {
                assert_eq!(field, 10);
            } else {
                assert_eq!(field, slot);
            }
        }
    }
}

#[test]
fn the_data_bit_of_a_pin_is_set_cleared_and_toggled_by_its_own_bit() {
    let gpio = Gpio::init_gpio();
    assert_eq!(
        gpio.pin_set(Port::A, 0),
        Store { register: GpioRegister::DoutSet(Port::A), value: 0x0001 }
    );
    assert_eq!(
        gpio.pin_set(Port::B, 13),
        Store { register: GpioRegister::DoutSet(Port::B), value: 0x2000 }
    );
    assert_eq!(
        gpio.pin_clr(Port::C, 1),
        Store { register: GpioRegister::DoutClr(Port::C), value: 0x0002 }
    );
    assert_eq!(
        gpio.pin_clr(Port::E, 15),
        Store { register: GpioRegister::DoutClr(Port::E), value: 0x8000 }
    );
    assert_eq!(
        gpio.pin_tgl(Port::F, 2),
        Store { register: GpioRegister::DoutTgl(Port::F), value: 0x0004 }
    );
    assert_eq!(
        gpio.pin_tgl(Port::D, 7),
        Store { register: GpioRegister::DoutTgl(Port::D), value: 0x0080 }
    );
}

#[test]
fn a_pin_reads_high_where_the_shifted_register_is_one() {
    let gpio = Gpio::init_gpio();
    assert!(gpio.pin_din(0, 0x0001));
    assert!(gpio.pin_din(3, 0x0008));
    assert!(gpio.pin_din(3, 0x000f));
    assert!(!gpio.pin_din(3, 0x0000));
    assert!(!gpio.pin_din(3, 0x0007));
    assert!(!gpio.pin_din(3, 0x0018));
    assert!(gpio.pin_din(15, 0x8000));
    assert!(!gpio.pin_din(0, 0x0003));
}

#[test]
fn a_pin_goes_through_the_controller() {
    let mut pins = Gpio::init_gpio().pins();
    assert_eq!(
        pins.pb13.mode(PinMode::PushPull, 0),
        Store { register: GpioRegister::ModeHigh(Port::B), value: 0x0040_0000 }
    );
    assert_eq!(
        pins.pa0.mode(PinMode::InputPullFilter, 0xffff_fff0),
        Store { register: GpioRegister::ModeLow(Port::A), value: 0xffff_fff3 }
    );
    assert_eq!(
        pins.pa0.set(),
        Store { register: GpioRegister::DoutSet(Port::A), value: 0x0001 }
    );
    assert_eq!(
        pins.pb7.clr(),
        Store { register: GpioRegister::DoutClr(Port::B), value: 0x0080 }
    );
    assert_eq!(
        pins.pe12.tgl(),
        Store { register: GpioRegister::DoutTgl(Port::E), value: 0x1000 }
    );
    assert_eq!(
        pins.pf2.dout(true),
        Store { register: GpioRegister::DoutSet(Port::F), value: 0x0004 }
    );
    assert_eq!(
        pins.pf2.dout(false),
        Store { register: GpioRegister::DoutClr(Port::F), value: 0x0004 }
    );
    assert!(pins.pc1.din(0x0002));
    assert!(!pins.pc1.din(0x0001));
    assert!(!pins.pc0.din(0x0002));
}

#[test]
fn reset_leaves_the_owned_pins_without_a_recorded_mode() {
    let initial = InitialGpioState::get_initial_state();
    assert_eq!((initial.pa0.port(), initial.pa0.pin()), (Port::A, 0));
    assert_eq!((initial.pb7.port(), initial.pb7.pin()), (Port::B, 7));
    assert_eq!((initial.pb8.port(), initial.pb8.pin()), (Port::B, 8));
    assert_eq!((initial.pb11.port(), initial.pb11.pin()), (Port::B, 11));
    assert_eq!((initial.pb13.port(), initial.pb13.pin()), (Port::B, 13));
    assert_eq!((initial.pb14.port(), initial.pb14.pin()), (Port::B, 14));
    assert_eq!((initial.pc0.port(), initial.pc0.pin()), (Port::C, 0));
    assert_eq!((initial.pc1.port(), initial.pc1.pin()), (Port::C, 1));
    assert_eq!((initial.pe12.port(), initial.pe12.pin()), (Port::E, 12));
    assert_eq!((initial.pe13.port(), initial.pe13.pin()), (Port::E, 13));
    assert_eq!((initial.pf0.port(), initial.pf0.pin()), (Port::F, 0));
    assert_eq!((initial.pf1.port(), initial.pf1.pin()), (Port::F, 1));
    assert_eq!((initial.pf2.port(), initial.pf2.pin()), (Port::F, 2));
    assert_eq!(initial.pa0.current_mode(), None);
    assert_eq!(initial.pf2.current_mode(), None);
}

#[test]
fn an_owned_pin_is_given_a_push_pull_mode_without_a_data_store() {
    let initial = InitialGpioState::get_initial_state();
    let mode = pin_modes::PinMode::new().push_pull().input_enable();
    let (pb13, mode_store, data_store) = initial.pb13.mode(mode, 0x1111_1111);
    assert_eq!(
        mode_store,
        Store { register: GpioRegister::ModeHigh(Port::B), value: 0x1141_1111 }
    );
    assert_eq!(data_store, None);
    assert_eq!(pb13.current_mode(), Some(mode));
    assert_eq!((pb13.port(), pb13.pin()), (Port::B, 13));
}

#[test]
fn an_owned_pin_is_given_a_fixed_mode_with_its_data_store() {
    let initial = InitialGpioState::get_initial_state();
    let pulled_up = pin_modes::PinMode::new().input_enable().set_pull_up();
    let (pa0, mode_store, data_store) = initial.pa0.mode(pulled_up, 0xffff_ffff);
    assert_eq!(
        mode_store,
        Store { register: GpioRegister::ModeLow(Port::A), value: 0xffff_fff2 }
    );
    assert_eq!(
        data_store,
        Some(Store { register: GpioRegister::DoutSet(Port::A), value: 0x0001 })
    );
    let low = pin_modes::PinMode::new().input_filter().set_low();
    let (pa0, mode_store, data_store) = pa0.mode(low, 0xffff_fff2);
    assert_eq!(
        mode_store,
        Store { register: GpioRegister::ModeLow(Port::A), value: 0xffff_fff9 }
    );
    assert_eq!(
        data_store,
        Some(Store { register: GpioRegister::DoutClr(Port::A), value: 0x0001 })
    );
    let pa0 = pa0.finalize();
    assert_eq!(pa0.current_mode(), Some(low));
    assert_eq!((pa0.port(), pa0.pin()), (Port::A, 0));
}

#[test]
fn a_pin_with_its_input_enabled_reads_its_own_bit() {
    let initial = InitialGpioState::get_initial_state();
    assert!(!initial.pb14.reads());
    assert!(!initial.pb14.switches());
    let mode = pin_modes::PinMode::new().push_pull().input_enable();
    let (pb14, _, _) = initial.pb14.mode(mode, 0);
    assert!(pb14.reads());
    assert!(pb14.is_high(0x4000));
    assert!(pb14.is_high(0xffff));
    assert!(!pb14.is_high(0xbfff));
    assert!(pb14.is_low(0xbfff));
    assert!(pb14.is_low(0x0000));
    assert!(!pb14.is_low(0x4000));
    let filtered = pin_modes::PinMode::new().input_filter().set_pull_up();
    let (pb14, _, _) = pb14.mode(filtered, 0);
    assert!(pb14.reads());
    assert!(!pb14.switches());
    let disabled = pin_modes::PinMode::new();
    let (pb14, _, _) = pb14.mode(disabled, 0);
    assert!(!pb14.reads());
}

#[test]
fn a_pin_with_a_switched_output_sets_clears_and_toggles_its_data_bit() {
    let initial = InitialGpioState::get_initial_state();
    let mode = pin_modes::PinMode::new().push_pull().input_enable();
    let (mut pe12, _, _) = initial.pe12.mode(mode, 0);
    assert!(pe12.switches());
    assert_eq!(
        pe12.set_high(),
        Store { register: GpioRegister::DoutSet(Port::E), value: 0x1000 }
    );
    assert_eq!(
        pe12.set_low(),
        Store { register: GpioRegister::DoutClr(Port::E), value: 0x1000 }
    );
    assert_eq!(
        pe12.toggle(),
        Store { register: GpioRegister::DoutTgl(Port::E), value: 0x1000 }
    );
    assert!(pe12.is_set_high(0x1000));
    assert!(!pe12.is_set_high(0xefff));
    assert!(pe12.is_set_low(0xefff));
    assert!(!pe12.is_set_low(0x1000));
    assert_eq!(pe12.current_mode(), Some(mode));
}
