//! The pins.
//!
//! Nothing here touches the hardware. A function that changes a pin says which register of the
//! pin controller is to be stored and with which value; where the new value depends on the old
//! one, the caller reads the register first and hands the value in.

use vstd::prelude::*;
use crate::devices::{make_static, Device, StaticDevice};

pub mod pin_modes;

verus! {

/// The ports of the pin controller.
#[derive(Clone, Copy, Debug, PartialEq, Eq, Structural)]
pub enum Port {
    A,
    B,
    C,
    D,
    E,
    F,
}

/// The modes of a pin as the mode registers number them.
#[derive(Clone, Copy, Debug, PartialEq, Eq, Structural)]
pub enum PinMode {
    Disabled,
    Input,
    InputPull,
    InputPullFilter,
    PushPull,
    PushPullDrive,
    Wiredor,
    WiredOrPullDown,
    WiredAnd,
    WiredAndFilter,
    WiredAndPullUp,
    WiredAndPullUpFilter,
    WiredAndDrive,
    WiredAndDriveFilter,
    WiredAndDrivePullUp,
    WiredAndDrivePullUpFilter,
}

impl PinMode {
    /// The number of the mode: the value of the four bits of a mode field.
    pub open spec fn spec_bits(self) -> u8 {
        match self {
            PinMode::Disabled => 0,
            PinMode::Input => 1,
            PinMode::InputPull => 2,
            PinMode::InputPullFilter => 3,
            PinMode::PushPull => 4,
            PinMode::PushPullDrive => 5,
            PinMode::Wiredor => 6,
            PinMode::WiredOrPullDown => 7,
            PinMode::WiredAnd => 8,
            PinMode::WiredAndFilter => 9,
            PinMode::WiredAndPullUp => 10,
            PinMode::WiredAndPullUpFilter => 11,
            PinMode::WiredAndDrive => 12,
            PinMode::WiredAndDriveFilter => 13,
            PinMode::WiredAndDrivePullUp => 14,
            PinMode::WiredAndDrivePullUpFilter => 15,
        }
    }

    /// The number of the mode: the value of the four bits of a mode field.
    #[verifier::when_used_as_spec(spec_bits)]
    pub fn bits(self) -> (bits: u8)
        ensures
            bits == self.spec_bits(),
            bits < 16,
    {
        match self {
            PinMode::Disabled => 0,
            PinMode::Input => 1,
            PinMode::InputPull => 2,
            PinMode::InputPullFilter => 3,
            PinMode::PushPull => 4,
            PinMode::PushPullDrive => 5,
            PinMode::Wiredor => 6,
            PinMode::WiredOrPullDown => 7,
            PinMode::WiredAnd => 8,
            PinMode::WiredAndFilter => 9,
            PinMode::WiredAndPullUp => 10,
            PinMode::WiredAndPullUpFilter => 11,
            PinMode::WiredAndDrive => 12,
            PinMode::WiredAndDriveFilter => 13,
            PinMode::WiredAndDrivePullUp => 14,
            PinMode::WiredAndDrivePullUpFilter => 15,
        }
    }

    /// The mode with a number, for the numbers below sixteen.
    pub fn from_bits(bits: u8) -> (mode: Option<PinMode>)
        ensures
            match mode {
                Some(mode) => mode.bits() == bits,
                None => bits >= 16,
            },
    {
        match bits {
            0 => Some(PinMode::Disabled),
            1 => Some(PinMode::Input),
            2 => Some(PinMode::InputPull),
            3 => Some(PinMode::InputPullFilter),
            4 => Some(PinMode::PushPull),
            5 => Some(PinMode::PushPullDrive),
            6 => Some(PinMode::Wiredor),
            7 => Some(PinMode::WiredOrPullDown),
            8 => Some(PinMode::WiredAnd),
            9 => Some(PinMode::WiredAndFilter),
            10 => Some(PinMode::WiredAndPullUp),
            11 => Some(PinMode::WiredAndPullUpFilter),
            12 => Some(PinMode::WiredAndDrive),
            13 => Some(PinMode::WiredAndDriveFilter),
            14 => Some(PinMode::WiredAndDrivePullUp),
            15 => Some(PinMode::WiredAndDrivePullUpFilter),
            _ => None,
        }
    }
}

/// The registers of the pin controller that the library reads or stores, each of one port.
#[derive(Clone, Copy, Debug, PartialEq, Eq, Structural)]
pub enum GpioRegister {
    /// `GPIO_Px_MODEL`, which holds the modes of the pins 0 to 7.
    ModeLow(Port),
    /// `GPIO_Px_MODEH`, which holds the modes of the pins 8 to 15.
    ModeHigh(Port),
    /// `GPIO_Px_DOUTSET`: a bit stored set sets the data bit of its pin.
    DoutSet(Port),
    /// `GPIO_Px_DOUTCLR`: a bit stored set clears the data bit of its pin.
    DoutClr(Port),
    /// `GPIO_Px_DOUTTGL`: a bit stored set toggles the data bit of its pin.
    DoutTgl(Port),
    /// `GPIO_Px_DIN`, which holds what the pins read.
    Din(Port),
    /// `GPIO_Px_DOUT`, which holds the data bits.
    Dout(Port),
}

/// A register and the value that is to be stored in it.
#[derive(Clone, Copy, Debug, PartialEq, Eq, Structural)]
pub struct Store {
    pub register: GpioRegister,
    pub value: u32,
}

/// One of the eight mode fields of a mode register: the four bits at a slot.
pub open spec fn mode_field(bits: u32, slot: u32) -> u32 {
    (bits >> (slot * 4)) & 0xf
}

/// The pin controller.
#[derive(Clone, Copy, Debug, PartialEq, Eq, Structural)]
pub struct Gpio {}

/// A pin, known by its port and its number in the port.
pub trait Pin: Sized {
    /// The number of the pin in its port.
    spec fn spec_pin(&self) -> u8;

    /// The port of the pin.
    spec fn spec_port(&self) -> Port;

    /// The number of the pin in its port.
    fn pin(&self) -> (pin: u8)
        ensures
            pin == self.spec_pin(),
            pin < 16,
    ;

    /// The port of the pin.
    fn port(&self) -> (port: Port)
        ensures
            port == self.spec_port(),
    ;

    /// Gives the pin a mode: see [`Gpio::pin_mode`].
    fn mode(&mut self, mode: PinMode, current: u32) -> (store: Store)
        ensures
            store == Gpio::spec_pin_mode(
                old(self).spec_port(),
                old(self).spec_pin(),
                mode,
                current,
            ),
            final(self).spec_port() == old(self).spec_port(),
            final(self).spec_pin() == old(self).spec_pin(),
    {
        Gpio {  }.pin_mode(self.port(), self.pin(), mode, current)
    }

    /// Sets the data bit of the pin: see [`Gpio::pin_set`].
    fn set(&mut self) -> (store: Store)
        ensures
            store == Gpio::spec_pin_set(old(self).spec_port(), old(self).spec_pin()),
            final(self).spec_port() == old(self).spec_port(),
            final(self).spec_pin() == old(self).spec_pin(),
    {
        Gpio {  }.pin_set(self.port(), self.pin())
    }

    /// Clears the data bit of the pin: see [`Gpio::pin_clr`].
    fn clr(&mut self) -> (store: Store)
        ensures
            store == Gpio::spec_pin_clr(old(self).spec_port(), old(self).spec_pin()),
            final(self).spec_port() == old(self).spec_port(),
            final(self).spec_pin() == old(self).spec_pin(),
    {
        Gpio {  }.pin_clr(self.port(), self.pin())
    }

    /// Toggles the data bit of the pin: see [`Gpio::pin_tgl`].
    fn tgl(&mut self) -> (store: Store)
        ensures
            store == Gpio::spec_pin_tgl(old(self).spec_port(), old(self).spec_pin()),
            final(self).spec_port() == old(self).spec_port(),
            final(self).spec_pin() == old(self).spec_pin(),
    {
        Gpio {  }.pin_tgl(self.port(), self.pin())
    }

    /// Tells from the input register of the port what the pin reads: see [`Gpio::pin_din`].
    fn din(&mut self, input: u32) -> (high: bool)
        ensures
            high == Gpio::spec_pin_din(old(self).spec_pin(), input),
            final(self).spec_port() == old(self).spec_port(),
            final(self).spec_pin() == old(self).spec_pin(),
    {
        Gpio {  }.pin_din(self.pin(), input)
    }

    /// Sets the data bit of the pin or clears it.
    fn dout(&mut self, set: bool) -> (store: Store)
        ensures
            store == if set {
                Gpio::spec_pin_set(old(self).spec_port(), old(self).spec_pin())
            } else {
                Gpio::spec_pin_clr(old(self).spec_port(), old(self).spec_pin())
            },
            final(self).spec_port() == old(self).spec_port(),
            final(self).spec_pin() == old(self).spec_pin(),
    {
        if set {
            self.set()
        } else {
            self.clr()
        }
    }
}

impl Gpio {
    /// The pin controller.
    pub fn init_gpio() -> (gpio: Gpio)
        ensures
            gpio == (Gpio {  }),
    {
        Gpio {  }
    }

    /// The register that holds the mode of a pin.
    pub open spec fn spec_mode_register(port: Port, pin: u8) -> GpioRegister {
        if pin < 8 {
            GpioRegister::ModeLow(port)
        } else {
            GpioRegister::ModeHigh(port)
        }
    }

    /// The register that holds the mode of a pin: the caller of [`Gpio::pin_mode`] reads it
    /// first.
    #[verifier::when_used_as_spec(spec_mode_register)]
    pub fn mode_register(port: Port, pin: u8) -> (register: GpioRegister)
        ensures
            register == Self::spec_mode_register(port, pin),
    {
        if pin < 8 {
            GpioRegister::ModeLow(port)
        } else {
            GpioRegister::ModeHigh(port)
        }
    }

    /// What giving a pin a mode stores: the mode register of the pin, with the field of the pin
    /// replaced by the number of the mode.
    pub open spec fn spec_pin_mode(port: Port, pin: u8, mode: PinMode, current: u32) -> Store {
        let shift = ((pin % 8) * 4) as u32;
        Store {
            register: Self::spec_mode_register(port, pin),
            value: (current & !(0xfu32 << shift)) | ((mode.spec_bits() as u32) << shift),
        }
    }

    /// Gives a pin a mode. `current` is what the mode register of the pin holds now. What is to
    /// be stored there has the number of the mode in the field of the pin and leaves the fields
    /// of the seven other pins of the register as they are.
    pub fn pin_mode(&self, port: Port, pin: u8, mode: PinMode, current: u32) -> (store: Store)
        requires
            pin < 16,
        ensures
            store == Self::spec_pin_mode(port, pin, mode, current),
            store.register == Self::spec_mode_register(port, pin),
            forall|slot: u32|
                slot < 8 ==> #[trigger] mode_field(store.value, slot) == if slot == pin % 8 {
                    mode.spec_bits() as u32
                } else {
                    mode_field(current, slot)
                },
    {
        let number: u32 = mode.bits() as u32;
        if pin < 8 {
            let shift: u32 = (pin * 4) as u32;
            let mask: u32 = !(0xfu32 << shift);
            let value: u32 = (current & mask) | (number << shift);
            proof {
                Self::lemma_mode_fields(current, number, shift / 4);
            }
            Store { register: GpioRegister::ModeLow(port), value }
        } else {
            let pin: u8 = pin - 8;
            let shift: u32 = (pin * 4) as u32;
            let mask: u32 = !(0xfu32 << shift);
            let value: u32 = (current & mask) | (number << shift);
            proof {
                Self::lemma_mode_fields(current, number, shift / 4);
            }
            Store { register: GpioRegister::ModeHigh(port), value }
        }
    }

    /// Replacing one mode field leaves that field with the new number and the others as they
    /// were.
    pub proof fn lemma_mode_fields(current: u32, number: u32, place: u32)
        requires
            number < 16,
            place < 8,
        ensures
            forall|slot: u32|
                slot < 8 ==> #[trigger] mode_field(
                    (current & !(0xfu32 << (place * 4))) | (number << (place * 4)),
                    slot,
                ) == if slot == place {
                    number
                } else {
                    mode_field(current, slot)
                },
    {
        assert forall|slot: u32| slot < 8 implies #[trigger] mode_field(
            (current & !(0xfu32 << (place * 4))) | (number << (place * 4)),
            slot,
        ) == if slot == place {
            number
        } else {
            mode_field(current, slot)
        } by {
            let shift: u32 = (place * 4) as u32;
            let at: u32 = (slot * 4) as u32;
            assert((((current & !(0xfu32 << shift)) | (number << shift)) >> at) & 0xf == if at
                == shift {
                number
            } else {
                (current >> at) & 0xf
            }) by (bit_vector)
                requires
                    number < 16,
                    shift == 0 || shift == 4 || shift == 8 || shift == 12 || shift == 16 || shift
                        == 20 || shift == 24 || shift == 28,
                    at == 0 || at == 4 || at == 8 || at == 12 || at == 16 || at == 20 || at == 24
                        || at == 28,
            ;
        }
    }

    /// What setting the data bit of a pin stores: the bit of the pin, to the register that sets
    /// data bits.
    pub open spec fn spec_pin_set(port: Port, pin: u8) -> Store {
        Store { register: GpioRegister::DoutSet(port), value: 1u32 << (pin as u32) }
    }

    /// Sets the data bit of a pin.
    pub fn pin_set(&self, port: Port, pin: u8) -> (store: Store)
        requires
            pin < 16,
        ensures
            store == Self::spec_pin_set(port, pin),
    {
        Store { register: GpioRegister::DoutSet(port), value: 1u32 << (pin as u32) }
    }

    /// What clearing the data bit of a pin stores: the bit of the pin, to the register that
    /// clears data bits.
    pub open spec fn spec_pin_clr(port: Port, pin: u8) -> Store {
        Store { register: GpioRegister::DoutClr(port), value: 1u32 << (pin as u32) }
    }

    /// Clears the data bit of a pin.
    pub fn pin_clr(&self, port: Port, pin: u8) -> (store: Store)
        requires
            pin < 16,
        ensures
            store == Self::spec_pin_clr(port, pin),
    {
        Store { register: GpioRegister::DoutClr(port), value: 1u32 << (pin as u32) }
    }

    /// What toggling the data bit of a pin stores: the bit of the pin, to the register that
    /// toggles data bits.
    pub open spec fn spec_pin_tgl(port: Port, pin: u8) -> Store {
        Store { register: GpioRegister::DoutTgl(port), value: 1u32 << (pin as u32) }
    }

    /// Toggles the data bit of a pin.
    pub fn pin_tgl(&self, port: Port, pin: u8) -> (store: Store)
        requires
            pin < 16,
        ensures
            store == Self::spec_pin_tgl(port, pin),
    {
        Store { register: GpioRegister::DoutTgl(port), value: 1u32 << (pin as u32) }
    }

    /// What a pin reads, told from the input register of its port: the register shifted down by
    /// the number of the pin is one.
    pub open spec fn spec_pin_din(pin: u8, input: u32) -> bool {
        (input >> (pin as u32)) == 1
    }

    /// Tells from the input register of a port what a pin reads. The answer is yes where the pin
    /// reads high and no pin above it in the port does.
    pub fn pin_din(&self, pin: u8, input: u32) -> (high: bool)
        requires
            pin < 16,
        ensures
            high == Self::spec_pin_din(pin, input),
    {
        (input >> (pin as u32)) == 1
    }
}

/// Pin 0 of port A.
#[derive(Debug)]
pub struct PA0 {}

impl Pin for PA0 {
    open spec fn spec_pin(&self) -> u8 {
        0
    }

    open spec fn spec_port(&self) -> Port {
        Port::A
    }

    fn port(&self) -> (port: Port) {
        Port::A
    }

    fn pin(&self) -> (pin: u8) {
        0
    }
}

/// Pin 7 of port B.
#[derive(Debug)]
pub struct PB7 {}

impl Pin for PB7 {
    open spec fn spec_pin(&self) -> u8 {
        7
    }

    open spec fn spec_port(&self) -> Port {
        Port::B
    }

    fn port(&self) -> (port: Port) {
        Port::B
    }

    fn pin(&self) -> (pin: u8) {
        7
    }
}

/// Pin 8 of port B.
#[derive(Debug)]
pub struct PB8 {}

impl Pin for PB8 {
    open spec fn spec_pin(&self) -> u8 {
        8
    }

    open spec fn spec_port(&self) -> Port {
        Port::B
    }

    fn port(&self) -> (port: Port) {
        Port::B
    }

    fn pin(&self) -> (pin: u8) {
        8
    }
}

/// Pin 11 of port B.
#[derive(Debug)]
pub struct PB11 {}

impl Pin for PB11 {
    open spec fn spec_pin(&self) -> u8 {
        11
    }

    open spec fn spec_port(&self) -> Port {
        Port::B
    }

    fn port(&self) -> (port: Port) {
        Port::B
    }

    fn pin(&self) -> (pin: u8) {
        11
    }
}

/// Pin 13 of port B.
#[derive(Debug)]
pub struct PB13 {}

impl Pin for PB13 {
    open spec fn spec_pin(&self) -> u8 {
        13
    }

    open spec fn spec_port(&self) -> Port {
        Port::B
    }

    fn port(&self) -> (port: Port) {
        Port::B
    }

    fn pin(&self) -> (pin: u8) {
        13
    }
}

/// Pin 14 of port B.
#[derive(Debug)]
pub struct PB14 {}

impl Pin for PB14 {
    open spec fn spec_pin(&self) -> u8 {
        14
    }

    open spec fn spec_port(&self) -> Port {
        Port::B
    }

    fn port(&self) -> (port: Port) {
        Port::B
    }

    fn pin(&self) -> (pin: u8) {
        14
    }
}

/// Pin 0 of port C.
#[derive(Debug)]
pub struct PC0 {}

impl Pin for PC0 {
    open spec fn spec_pin(&self) -> u8 {
        0
    }

    open spec fn spec_port(&self) -> Port {
        Port::C
    }

    fn port(&self) -> (port: Port) {
        Port::C
    }

    fn pin(&self) -> (pin: u8) {
        0
    }
}

/// Pin 1 of port C.
#[derive(Debug)]
pub struct PC1 {}

impl Pin for PC1 {
    open spec fn spec_pin(&self) -> u8 {
        1
    }

    open spec fn spec_port(&self) -> Port {
        Port::C
    }

    fn port(&self) -> (port: Port) {
        Port::C
    }

    fn pin(&self) -> (pin: u8) {
        1
    }
}

/// Pin 12 of port E.
#[derive(Debug)]
pub struct PE12 {}

impl Pin for PE12 {
    open spec fn spec_pin(&self) -> u8 {
        12
    }

    open spec fn spec_port(&self) -> Port {
        Port::E
    }

    fn port(&self) -> (port: Port) {
        Port::E
    }

    fn pin(&self) -> (pin: u8) {
        12
    }
}

/// Pin 13 of port E.
#[derive(Debug)]
pub struct PE13 {}

impl Pin for PE13 {
    open spec fn spec_pin(&self) -> u8 {
        13
    }

    open spec fn spec_port(&self) -> Port {
        Port::E
    }

    fn port(&self) -> (port: Port) {
        Port::E
    }

    fn pin(&self) -> (pin: u8) {
        13
    }
}

/// Pin 0 of port F.
#[derive(Debug)]
pub struct PF0 {}

impl Pin for PF0 {
    open spec fn spec_pin(&self) -> u8 {
        0
    }

    open spec fn spec_port(&self) -> Port {
        Port::F
    }

    fn port(&self) -> (port: Port) {
        Port::F
    }

    fn pin(&self) -> (pin: u8) {
        0
    }
}

/// Pin 1 of port F.
#[derive(Debug)]
pub struct PF1 {}

impl Pin for PF1 {
    open spec fn spec_pin(&self) -> u8 {
        1
    }

    open spec fn spec_port(&self) -> Port {
        Port::F
    }

    fn port(&self) -> (port: Port) {
        Port::F
    }

    fn pin(&self) -> (pin: u8) {
        1
    }
}

/// Pin 2 of port F.
#[derive(Debug)]
pub struct PF2 {}

impl Pin for PF2 {
    open spec fn spec_pin(&self) -> u8 {
        2
    }

    open spec fn spec_port(&self) -> Port {
        Port::F
    }

    fn port(&self) -> (port: Port) {
        Port::F
    }

    fn pin(&self) -> (pin: u8) {
        2
    }
}

/// The pins that the package of the chip brings out.
#[derive(Debug)]
pub struct Pins {
    pub pa0: PA0,
    pub pb7: PB7,
    pub pb8: PB8,
    pub pb11: PB11,
    pub pb13: PB13,
    pub pb14: PB14,
    pub pc0: PC0,
    pub pc1: PC1,
    pub pe12: PE12,
    pub pe13: PE13,
    pub pf0: PF0,
    pub pf1: PF1,
    pub pf2: PF2,
}

impl Gpio {
    /// The pins that the package of the chip brings out.
    pub fn pins(&self) -> (pins: Pins)
        ensures
            pins.pa0.spec_port() == Port::A && pins.pa0.spec_pin() == 0,
            pins.pb7.spec_port() == Port::B && pins.pb7.spec_pin() == 7,
            pins.pb8.spec_port() == Port::B && pins.pb8.spec_pin() == 8,
            pins.pb11.spec_port() == Port::B && pins.pb11.spec_pin() == 11,
            pins.pb13.spec_port() == Port::B && pins.pb13.spec_pin() == 13,
            pins.pb14.spec_port() == Port::B && pins.pb14.spec_pin() == 14,
            pins.pc0.spec_port() == Port::C && pins.pc0.spec_pin() == 0,
            pins.pc1.spec_port() == Port::C && pins.pc1.spec_pin() == 1,
            pins.pe12.spec_port() == Port::E && pins.pe12.spec_pin() == 12,
            pins.pe13.spec_port() == Port::E && pins.pe13.spec_pin() == 13,
            pins.pf0.spec_port() == Port::F && pins.pf0.spec_pin() == 0,
            pins.pf1.spec_port() == Port::F && pins.pf1.spec_pin() == 1,
            pins.pf2.spec_port() == Port::F && pins.pf2.spec_pin() == 2,
    {
        Pins {
            pa0: PA0 {  },
            pb7: PB7 {  },
            pb8: PB8 {  },
            pb11: PB11 {  },
            pb13: PB13 {  },
            pb14: PB14 {  },
            pc0: PC0 {  },
            pc1: PC1 {  },
            pe12: PE12 {  },
            pe13: PE13 {  },
            pf0: PF0 {  },
            pf1: PF1 {  },
            pf2: PF2 {  },
        }
    }
}

/// Ownership of one pin, with the mode that it was given last.
#[derive(Debug)]
pub struct OwnedPin {
    port: Port,
    pin: u8,
    mode: Option<pin_modes::PinMode>,
}

impl OwnedPin {
    /// What holds of every pin that exists: its number is below sixteen, and the mode that it
    /// was given is one that the hardware has.
    #[verifier::type_invariant]
    pub open spec fn valid(self) -> bool {
        &&& self.spec_pin() < 16
        &&& self.spec_mode() matches Some(mode) ==> mode.is_valid()
    }

    /// The port of the pin.
    pub closed spec fn spec_port(&self) -> Port {
        self.port
    }

    /// The port of the pin.
    #[verifier::when_used_as_spec(spec_port)]
    pub fn port(&self) -> (port: Port)
        ensures
            port == self.spec_port(),
    {
        self.port
    }

    /// The number of the pin in its port.
    pub closed spec fn spec_pin(&self) -> u8 {
        self.pin
    }

    /// The number of the pin in its port.
    #[verifier::when_used_as_spec(spec_pin)]
    pub fn pin(&self) -> (pin: u8)
        ensures
            pin == self.spec_pin(),
            pin < 16,
    {
        proof {
            use_type_invariant(self);
        }
        self.pin
    }

    /// The mode that the pin was given last, or `None` while it is as reset left it.
    pub closed spec fn spec_mode(&self) -> Option<pin_modes::PinMode> {
        self.mode
    }

    /// The mode that the pin was given last, or `None` while it is as reset left it.
    #[verifier::when_used_as_spec(spec_mode)]
    pub fn current_mode(&self) -> (mode: Option<pin_modes::PinMode>)
        ensures
            mode == self.spec_mode(),
    {
        self.mode
    }

    /// A pin as reset leaves it: in a mode that is not recorded.
    pub(crate) fn claim_ownership(port: Port, pin: u8) -> (owned: OwnedPin)
        requires
            pin < 16,
        ensures
            owned.port() == port,
            owned.pin() == pin,
            owned.spec_mode().is_none(),
    {
        OwnedPin { port, pin, mode: None }
    }

    /// Gives the pin a mode that the hardware has. `current` is what the mode register of the pin
    /// holds now. Two things are to be done in turn: the mode register is stored with the field
    /// of the pin replaced by the number of the mode, and then, if the mode fixes the data bit
    /// of the pin, the bit is set or cleared accordingly.
    pub fn mode(self, pin_mode: pin_modes::PinMode, current: u32) -> (change: (
        OwnedPin,
        Store,
        Option<Store>,
    ))
        requires
            pin_mode.is_valid(),
        ensures
            change.0.port() == self.port(),
            change.0.pin() == self.pin(),
            change.0.spec_mode() == Some(pin_mode),
            change.1.register == Gpio::spec_mode_register(self.port(), self.pin()),
            forall|slot: u32|
                slot < 8 ==> #[trigger] mode_field(change.1.value, slot) == if slot == self.pin()
                    % 8 {
                    pin_mode.encoding().unwrap().mode as u32
                } else {
                    mode_field(current, slot)
                },
            change.2 == match pin_mode.encoding().unwrap().dout {
                Some(true) => Some(Gpio::spec_pin_set(self.port(), self.pin())),
                Some(false) => Some(Gpio::spec_pin_clr(self.port(), self.pin())),
                None => None,
            },
    {
        proof {
            use_type_invariant(&self);
        }
        let gpio = Gpio::init_gpio();
        let encoding = pin_mode.encoding().unwrap();
        let number = PinMode::from_bits(encoding.mode).unwrap();
        let mode_store = gpio.pin_mode(self.port, self.pin, number, current);
        let data_store = match encoding.dout {
            Some(true) => Some(gpio.pin_set(self.port, self.pin)),
            Some(false) => Some(gpio.pin_clr(self.port, self.pin)),
            None => None,
        };
        (OwnedPin { port: self.port, pin: self.pin, mode: Some(pin_mode) }, mode_store, data_store)
    }
}

impl OwnedPin {
    /// Whether the mode of the pin enables its input.
    pub open spec fn spec_reads(&self) -> bool {
        self.spec_mode() matches Some(mode) && mode.input_mode != pin_modes::InputMode::Disabled
    }

    /// Whether the mode of the pin enables its input.
    #[verifier::when_used_as_spec(spec_reads)]
    pub fn reads(&self) -> (reads: bool)
        ensures
            reads == self.spec_reads(),
    {
        match self.mode {
            Some(mode) => match mode.input_mode {
                pin_modes::InputMode::Disabled => false,
                _ => true,
            },
            None => false,
        }
    }

    /// Whether the mode of the pin lets the data bit switch its output between two states.
    pub open spec fn spec_switches(&self) -> bool {
        self.spec_mode() matches Some(mode) && mode.output_mode is Multi
    }

    /// Whether the mode of the pin lets the data bit switch its output between two states.
    #[verifier::when_used_as_spec(spec_switches)]
    pub fn switches(&self) -> (switches: bool)
        ensures
            switches == self.spec_switches(),
    {
        match self.mode {
            Some(mode) => match mode.output_mode {
                pin_modes::OutputMode::Multi(_) => true,
                pin_modes::OutputMode::Single(_) => false,
            },
            None => false,
        }
    }

    /// The bit of the pin in the registers of its port.
    pub open spec fn mask(&self) -> u32 {
        1u32 << (self.spec_pin() as u32)
    }

    /// Whether the pin reads high. `input` is what the input register of its port holds.
    pub fn is_high(&self, input: u32) -> (high: bool)
        requires
            self.reads(),
        ensures
            high == (input & self.mask() != 0),
    {
        proof {
            use_type_invariant(self);
        }
        input & (1u32 << (self.pin as u32)) != 0
    }

    /// Whether the pin reads low. `input` is what the input register of its port holds.
    pub fn is_low(&self, input: u32) -> (low: bool)
        requires
            self.reads(),
        ensures
            low == (input & self.mask() == 0),
    {
        proof {
            use_type_invariant(self);
        }
        input & (1u32 << (self.pin as u32)) == 0
    }

    /// What is to be stored to put the output in the state that it has while the data bit is
    /// clear.
    pub fn set_low(&mut self) -> (store: Store)
        requires
            old(self).switches(),
        ensures
            store == Gpio::spec_pin_clr(old(self).port(), old(self).pin()),
            *final(self) == *old(self),
    {
        proof {
            use_type_invariant(&*self);
        }
        Gpio::init_gpio().pin_clr(self.port, self.pin)
    }

    /// What is to be stored to put the output in the state that it has while the data bit is
    /// set.
    pub fn set_high(&mut self) -> (store: Store)
        requires
            old(self).switches(),
        ensures
            store == Gpio::spec_pin_set(old(self).port(), old(self).pin()),
            *final(self) == *old(self),
    {
        proof {
            use_type_invariant(&*self);
        }
        Gpio::init_gpio().pin_set(self.port, self.pin)
    }

    /// What is to be stored to put the output in the other of its two states.
    pub fn toggle(&mut self) -> (store: Store)
        requires
            old(self).switches(),
        ensures
            store == Gpio::spec_pin_tgl(old(self).port(), old(self).pin()),
            *final(self) == *old(self),
    {
        proof {
            use_type_invariant(&*self);
        }
        Gpio::init_gpio().pin_tgl(self.port, self.pin)
    }

    /// Whether the data bit of the pin is set. `output` is what the data register of its port
    /// holds. This is what the pin was told, not what is on the wire.
    pub fn is_set_high(&self, output: u32) -> (high: bool)
        requires
            self.switches(),
        ensures
            high == (output & self.mask() != 0),
    {
        proof {
            use_type_invariant(self);
        }
        output & (1u32 << (self.pin as u32)) != 0
    }

    /// Whether the data bit of the pin is clear. `output` is what the data register of its port
    /// holds. This is what the pin was told, not what is on the wire.
    pub fn is_set_low(&self, output: u32) -> (low: bool)
        requires
            self.switches(),
        ensures
            low == (output & self.mask() == 0),
    {
        proof {
            use_type_invariant(self);
        }
        output & (1u32 << (self.pin as u32)) == 0
    }
}

impl Device for OwnedPin {

}

impl StaticDevice for OwnedPin {
    fn finalize(self) -> (device: &'static Self) {
        make_static(self)
    }
}

/// The pins that the package of the chip brings out, each owned and as reset left it.
#[derive(Debug)]
pub struct InitialGpioState {
    pub pa0: OwnedPin,
    pub pb7: OwnedPin,
    pub pb8: OwnedPin,
    pub pb11: OwnedPin,
    pub pb13: OwnedPin,
    pub pb14: OwnedPin,
    pub pc0: OwnedPin,
    pub pc1: OwnedPin,
    pub pe12: OwnedPin,
    pub pe13: OwnedPin,
    pub pf0: OwnedPin,
    pub pf1: OwnedPin,
    pub pf2: OwnedPin,
}

impl InitialGpioState {
    /// Each pin is the pin that its name says, in a mode that is not recorded.
    pub open spec fn is_reset(&self) -> bool {
        &&& self.pa0.port() == Port::A && self.pa0.pin() == 0 && self.pa0.spec_mode().is_none()
        &&& self.pb7.port() == Port::B && self.pb7.pin() == 7 && self.pb7.spec_mode().is_none()
        &&& self.pb8.port() == Port::B && self.pb8.pin() == 8 && self.pb8.spec_mode().is_none()
        &&& self.pb11.port() == Port::B && self.pb11.pin() == 11 && self.pb11.spec_mode().is_none()
        &&& self.pb13.port() == Port::B && self.pb13.pin() == 13 && self.pb13.spec_mode().is_none()
        &&& self.pb14.port() == Port::B && self.pb14.pin() == 14 && self.pb14.spec_mode().is_none()
        &&& self.pc0.port() == Port::C && self.pc0.pin() == 0 && self.pc0.spec_mode().is_none()
        &&& self.pc1.port() == Port::C && self.pc1.pin() == 1 && self.pc1.spec_mode().is_none()
        &&& self.pe12.port() == Port::E && self.pe12.pin() == 12 && self.pe12.spec_mode().is_none()
        &&& self.pe13.port() == Port::E && self.pe13.pin() == 13 && self.pe13.spec_mode().is_none()
        &&& self.pf0.port() == Port::F && self.pf0.pin() == 0 && self.pf0.spec_mode().is_none()
        &&& self.pf1.port() == Port::F && self.pf1.pin() == 1 && self.pf1.spec_mode().is_none()
        &&& self.pf2.port() == Port::F && self.pf2.pin() == 2 && self.pf2.spec_mode().is_none()
    }

    /// Claims the pins and hands them out. That the pin controller is in its reset state, and
    /// that the pins are claimed once only, is the caller's promise.
    pub fn get_initial_state() -> (initial: InitialGpioState)
        ensures
            initial.is_reset(),
    {
        InitialGpioState {
            pa0: OwnedPin::claim_ownership(Port::A, 0),
            pb7: OwnedPin::claim_ownership(Port::B, 7),
            pb8: OwnedPin::claim_ownership(Port::B, 8),
            pb11: OwnedPin::claim_ownership(Port::B, 11),
            pb13: OwnedPin::claim_ownership(Port::B, 13),
            pb14: OwnedPin::claim_ownership(Port::B, 14),
            pc0: OwnedPin::claim_ownership(Port::C, 0),
            pc1: OwnedPin::claim_ownership(Port::C, 1),
            pe12: OwnedPin::claim_ownership(Port::E, 12),
            pe13: OwnedPin::claim_ownership(Port::E, 13),
            pf0: OwnedPin::claim_ownership(Port::F, 0),
            pf1: OwnedPin::claim_ownership(Port::F, 1),
            pf2: OwnedPin::claim_ownership(Port::F, 2),
        }
    }
}

} // verus!
