//! The low-energy UART.
//!
//! The UART is owned through one token, which records where its pins are routed, whether it has
//! a clock, and whether it transmits and receives. As with the clocks, nothing here touches the
//! hardware: a transition says what is to be stored and polled, in order.
//!
//! Unlike the registers of the low-frequency clocks, those of the UART are polled after they
//! are stored: the store goes through at once, and the poll waits until it has arrived.

use vstd::prelude::*;
use crate::cmu::{Clock, LfbClkLeuart0};
use crate::gpio::pin_modes::{InputMode, OutputMode, OutputState, PinMode};
use crate::gpio::{OwnedPin, Port};

verus! {

/// The registers of the UART whose stores take time to arrive, each with a bit in
/// `LEUART_SYNCBUSY` that is set until the store has arrived.
#[derive(Clone, Copy, Debug, PartialEq, Eq, Structural)]
pub enum SyncRegister {
    /// `LEUART_CTRL`
    Ctrl,
    /// `LEUART_CMD`
    Cmd,
    /// `LEUART_CLKDIV`
    ClkDiv,
}

/// The commands that are stored to `LEUART_CMD`.
#[derive(Clone, Copy, Debug, PartialEq, Eq, Structural)]
pub enum Command {
    /// `TXDIS`, `RXDIS`, `CLEARTX` and `CLEARRX`: stop transmitter and receiver and empty their
    /// buffers.
    Stop,
    /// `TXEN` and `CLEARTX`: start the transmitter with an empty buffer.
    StartTransmitter,
    /// `RXEN` and `CLEARRX`: start the receiver with an empty buffer.
    StartReceiver,
}

/// One access to the registers of the UART.
#[derive(Clone, Copy, Debug, PartialEq, Eq, Structural)]
pub enum Operation {
    /// Store the `DIV` field of `LEUART_CLKDIV`.
    WriteClockDivider(u16),
    /// Set `STOPBITS` in `LEUART_CTRL` and leave the rest of the register as it is.
    SetStopBits,
    /// Store a command to `LEUART_CMD`.
    Write(Command),
    /// Store `LEUART_ROUTE` with location 1 selected and every other field at its reset value.
    RouteToLocation1,
    /// Set `TXPEN` in `LEUART_ROUTE` and leave the rest of the register as it is.
    EnableTransmitPin,
    /// Set `RXPEN` in `LEUART_ROUTE` and leave the rest of the register as it is.
    EnableReceivePin,
    /// Store a byte to `LEUART_TXDATA`.
    Transmit(u8),
    /// Read `LEUART_SYNCBUSY` again and again until the bit of this register is clear. There is
    /// no timeout.
    WaitUntilArrived(SyncRegister),
    /// Read `LEUART_STATUS` again and again until `TXC` is set. There is no timeout.
    WaitUntilTransmitted,
}

/// Where a pin is: its port and its number in the port.
#[derive(Clone, Copy, Debug, PartialEq, Eq, Structural)]
pub struct Place {
    pub port: Port,
    pub pin: u8,
}

/// Where the two pins of the UART are.
#[derive(Clone, Copy, Debug, PartialEq, Eq, Structural)]
pub struct LocationPins {
    /// The pin that transmits.
    pub tx: Place,
    /// The pin that receives.
    pub rx: Place,
}

/// The locations that the pins of the UART can be routed to.
#[derive(Clone, Copy, Debug, PartialEq, Eq, Structural)]
pub enum Location {
    /// The location after reset. Its pins are not known to this library.
    Location0,
    /// The pin that transmits is PB13, the pin that receives is PB14.
    Location1,
}

impl Location {
    /// The pins of the location, where they are known.
    pub open spec fn spec_pins(self) -> Option<LocationPins> {
        match self {
            Location::Location0 => None,
            Location::Location1 => Some(
                LocationPins {
                    tx: Place { port: Port::B, pin: 13 },
                    rx: Place { port: Port::B, pin: 14 },
                },
            ),
        }
    }

    /// The pins of the location, where they are known.
    #[verifier::when_used_as_spec(spec_pins)]
    pub fn pins(self) -> (pins: Option<LocationPins>)
        ensures
            pins == self.spec_pins(),
    {
        match self {
            Location::Location0 => None,
            Location::Location1 => Some(
                LocationPins {
                    tx: Place { port: Port::B, pin: 13 },
                    rx: Place { port: Port::B, pin: 14 },
                },
            ),
        }
    }
}

/// The mode that a pin of the UART has to be in: push-pull, with its input enabled.
pub open spec fn uart_pin_mode() -> PinMode {
    PinMode {
        input_mode: InputMode::Enabled,
        output_mode: OutputMode::switched(OutputState::High, OutputState::Low),
    }
}

/// Whether a pin is the pin at a place, in the mode that a pin of the UART has to be in.
pub open spec fn serves(pin: &OwnedPin, place: Place) -> bool {
    &&& pin.port() == place.port
    &&& pin.pin() == place.pin
    &&& pin.spec_mode() == Some(uart_pin_mode())
}

/// What sending some bytes issues: each byte is stored and then waited for.
pub open spec fn transmission(bytes: Seq<u8>) -> Seq<Operation>
    decreases bytes.len(),
{
    if bytes.len() == 0 {
        Seq::empty()
    } else {
        transmission(bytes.drop_last()) + seq![
            Operation::Transmit(bytes.last()),
            Operation::WaitUntilTransmitted,
        ]
    }
}

/// Ownership of the low-energy UART.
///
/// While the UART has a clock it borrows the token of that clock, and while it transmits or
/// receives it borrows the pin that it does so with: neither can be reconfigured meanwhile.
#[derive(Debug)]
pub struct Leuart<'devices> {
    location: Location,
    clock: Option<&'devices LfbClkLeuart0<'devices>>,
    tx_pin: Option<&'devices OwnedPin>,
    rx_pin: Option<&'devices OwnedPin>,
}

impl<'devices> Leuart<'devices> {
    /// What holds of every token that exists: the clock of the UART has the clock capability,
    /// and without a clock the UART neither transmits nor receives.
    #[verifier::type_invariant]
    pub open spec fn valid(self) -> bool {
        &&& self.clock() matches Some(clock) ==> clock.well_formed() && clock.rate().is_some()
        &&& self.clock().is_none() ==> self.tx_pin().is_none() && self.rx_pin().is_none()
    }

    /// Where the pins are routed.
    pub closed spec fn spec_location(&self) -> Location {
        self.location
    }

    /// Where the pins are routed.
    #[verifier::when_used_as_spec(spec_location)]
    pub fn location(&self) -> (location: Location)
        ensures
            location == self.spec_location(),
    {
        self.location
    }

    /// The clock that the UART runs on, if it has one.
    pub closed spec fn spec_clock(&self) -> Option<&'devices LfbClkLeuart0<'devices>> {
        self.clock
    }

    /// The clock that the UART runs on, if it has one.
    #[verifier::when_used_as_spec(spec_clock)]
    pub fn clock(&self) -> (clock: Option<&'devices LfbClkLeuart0<'devices>>)
        ensures
            clock == self.spec_clock(),
    {
        self.clock
    }

    /// The pin that the UART transmits with, if it transmits.
    pub closed spec fn spec_tx_pin(&self) -> Option<&'devices OwnedPin> {
        self.tx_pin
    }

    /// The pin that the UART transmits with, if it transmits.
    #[verifier::when_used_as_spec(spec_tx_pin)]
    pub fn tx_pin(&self) -> (pin: Option<&'devices OwnedPin>)
        ensures
            pin == self.spec_tx_pin(),
    {
        self.tx_pin
    }

    /// The pin that the UART receives with, if it receives.
    pub closed spec fn spec_rx_pin(&self) -> Option<&'devices OwnedPin> {
        self.rx_pin
    }

    /// The pin that the UART receives with, if it receives.
    #[verifier::when_used_as_spec(spec_rx_pin)]
    pub fn rx_pin(&self) -> (pin: Option<&'devices OwnedPin>)
        ensures
            pin == self.spec_rx_pin(),
    {
        self.rx_pin
    }

    /// The UART as reset leaves it: at location 0, without a clock, neither transmitting nor
    /// receiving. That the hardware is indeed in its reset state, and that the UART is claimed
    /// once only, is the caller's promise.
    pub fn get_initial_state() -> (leuart: Leuart<'static>)
        ensures
            leuart.location() == Location::Location0,
            leuart.clock().is_none(),
            leuart.tx_pin().is_none(),
            leuart.rx_pin().is_none(),
    {
        Leuart { location: Location::Location0, clock: None, tx_pin: None, rx_pin: None }
    }

    /// Puts the UART on a clock and sets its baud rate. `divider` is the value of the clock
    /// divider that gives the baud rate from the frequency of the clock; it has twelve bits.
    /// Two stop bits are selected. Each of the two stores is waited for.
    pub fn baudrate(
        self,
        clk: &'devices LfbClkLeuart0<'devices>,
        divider: u16,
        operations: &mut Vec<Operation>,
    ) -> (leuart: Leuart<'devices>)
        requires
            clk.rate().is_some(),
            divider <= 0xfff,
        ensures
            leuart.clock() == Some(clk),
            leuart.location() == self.location(),
            leuart.tx_pin() == self.tx_pin(),
            leuart.rx_pin() == self.rx_pin(),
            final(operations)@ == old(operations)@ + seq![
                Operation::WriteClockDivider(divider),
                Operation::WaitUntilArrived(SyncRegister::ClkDiv),
                Operation::SetStopBits,
                Operation::WaitUntilArrived(SyncRegister::Ctrl),
            ],
    {
        proof {
            use_type_invariant(clk);
        }
        operations.push(Operation::WriteClockDivider(divider));
        operations.push(Operation::WaitUntilArrived(SyncRegister::ClkDiv));
        operations.push(Operation::SetStopBits);
        operations.push(Operation::WaitUntilArrived(SyncRegister::Ctrl));
        Leuart {
            location: self.location,
            clock: Some(clk),
            tx_pin: self.tx_pin,
            rx_pin: self.rx_pin,
        }
    }

    /// Stops transmitter and receiver, empties their buffers, and gives up clock and pins.
    pub fn disable(self, operations: &mut Vec<Operation>) -> (leuart: Leuart<'static>)
        ensures
            leuart.location() == self.location(),
            leuart.clock().is_none(),
            leuart.tx_pin().is_none(),
            leuart.rx_pin().is_none(),
            final(operations)@ == old(operations)@ + seq![
                Operation::Write(Command::Stop),
                Operation::WaitUntilArrived(SyncRegister::Cmd),
            ],
    {
        operations.push(Operation::Write(Command::Stop));
        operations.push(Operation::WaitUntilArrived(SyncRegister::Cmd));
        Leuart { location: self.location, clock: None, tx_pin: None, rx_pin: None }
    }

    /// Routes the pins to location 1. The UART has to have a clock.
    pub fn location1(self, operations: &mut Vec<Operation>) -> (leuart: Leuart<'devices>)
        requires
            self.clock().is_some(),
        ensures
            leuart.location() == Location::Location1,
            leuart.clock() == self.clock(),
            leuart.tx_pin() == self.tx_pin(),
            leuart.rx_pin() == self.rx_pin(),
            final(operations)@ == old(operations)@ + seq![Operation::RouteToLocation1],
    {
        proof {
            use_type_invariant(&self);
        }
        operations.push(Operation::RouteToLocation1);
        Leuart {
            location: Location::Location1,
            clock: self.clock,
            tx_pin: self.tx_pin,
            rx_pin: self.rx_pin,
        }
    }

    /// Starts the transmitter on the pin of the location that transmits: enables the pin in
    /// `LEUART_ROUTE`, starts the transmitter with an empty buffer, and waits for the command to
    /// arrive. The UART has to have a clock and a location whose pins are known, and the pin
    /// has to be in push-pull mode with its input enabled.
    pub fn enable_tx(self, tx_pin: &'devices OwnedPin, operations: &mut Vec<Operation>) -> (leuart:
        Leuart<'devices>)
        requires
            self.clock().is_some(),
            self.location().pins() matches Some(pins) && serves(tx_pin, pins.tx),
        ensures
            leuart.tx_pin() == Some(tx_pin),
            leuart.location() == self.location(),
            leuart.clock() == self.clock(),
            leuart.rx_pin() == self.rx_pin(),
            final(operations)@ == old(operations)@ + seq![
                Operation::EnableTransmitPin,
                Operation::Write(Command::StartTransmitter),
                Operation::WaitUntilArrived(SyncRegister::Cmd),
            ],
    {
        proof {
            use_type_invariant(&self);
        }
        operations.push(Operation::EnableTransmitPin);
        operations.push(Operation::Write(Command::StartTransmitter));
        operations.push(Operation::WaitUntilArrived(SyncRegister::Cmd));
        Leuart {
            location: self.location,
            clock: self.clock,
            tx_pin: Some(tx_pin),
            rx_pin: self.rx_pin,
        }
    }

    /// Starts the receiver on the pin of the location that receives: enables the pin in
    /// `LEUART_ROUTE`, starts the receiver with an empty buffer, and waits for the command to
    /// arrive. The UART has to have a clock and a location whose pins are known, and the pin
    /// has to be in push-pull mode with its input enabled.
    pub fn enable_rx(self, rx_pin: &'devices OwnedPin, operations: &mut Vec<Operation>) -> (leuart:
        Leuart<'devices>)
        requires
            self.clock().is_some(),
            self.location().pins() matches Some(pins) && serves(rx_pin, pins.rx),
        ensures
            leuart.rx_pin() == Some(rx_pin),
            leuart.location() == self.location(),
            leuart.clock() == self.clock(),
            leuart.tx_pin() == self.tx_pin(),
            final(operations)@ == old(operations)@ + seq![
                Operation::EnableReceivePin,
                Operation::Write(Command::StartReceiver),
                Operation::WaitUntilArrived(SyncRegister::Cmd),
            ],
    {
        proof {
            use_type_invariant(&self);
        }
        operations.push(Operation::EnableReceivePin);
        operations.push(Operation::Write(Command::StartReceiver));
        operations.push(Operation::WaitUntilArrived(SyncRegister::Cmd));
        Leuart {
            location: self.location,
            clock: self.clock,
            tx_pin: self.tx_pin,
            rx_pin: Some(rx_pin),
        }
    }

    /// Sends some bytes, one after the other, each waited for until it has left. The UART has to
    /// be transmitting.
    pub fn write_blocking(&mut self, bytes: &[u8], operations: &mut Vec<Operation>)
        requires
            old(self).tx_pin().is_some(),
        ensures
            *final(self) == *old(self),
            final(operations)@ == old(operations)@ + transmission(bytes@),
    {
        let mut sent: usize = 0;
        while sent < bytes.len()
            invariant
                sent <= bytes.len(),
                operations@ == old(operations)@ + transmission(bytes@.take(sent as int)),
            decreases bytes.len() - sent,
        {
            operations.push(Operation::Transmit(bytes[sent]));
            operations.push(Operation::WaitUntilTransmitted);
            proof {
                let longer = bytes@.take(sent + 1);
                assert(longer.drop_last() =~= bytes@.take(sent as int));
            }
            sent += 1;
        }
        assert(bytes@.take(sent as int) =~= bytes@);
    }
}

} // verus!
