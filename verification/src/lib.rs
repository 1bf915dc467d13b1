//! Clock-tree management for the EFM32 Happy Gecko, verified with Verus.
//!
//! The clock management unit of the chip wires oscillators, switches and dividers into a tree
//! that feeds the processor and the peripherals. This library keeps track of that tree. Every
//! clock domain is owned through a token, and a domain is configured by giving its token up for
//! a new one. What is checked before the program runs:
//!
//! * a domain takes its clock only from a source that is configured, never from one that is off
//!   or that nobody has looked at since reset;
//! * a source cannot be stopped or retuned while a domain runs on it, because the domain borrows
//!   the token of its source;
//! * a token that has been through a transition cannot be used again;
//! * a divider is only given a divisor that its hardware supports;
//! * the frequency of every configured domain is known exactly, as the hertz of its root
//!   oscillator over the product of the divisors on the way.
//!
//! The first and the last two are contracts that Verus proves of every caller it verifies; the
//! two in the middle are ownership and borrowing as Rust checks them.
//!
//! The library does not touch the hardware. A transition records the stores and polls that it
//! stands for in a [`cmu::registers::Cmu`], in order, and whoever can reach the registers
//! performs them. Values that have to be read from the chip, such as the calibration bytes of
//! [`device_information`], are handed in.
//!
//! [`boot`] wires one whole tree. Around the clocks stand what uses them: [`gpio`] holds the modes
//! of the pins, [`leuart`] the states of the low-energy UART, and [`usb`] what the control
//! endpoint of the USB device decides.

pub mod boot;
pub mod cmu;
pub mod device_information;
pub mod devices;
pub mod frequency;
pub mod gpio;
pub mod leuart;
pub mod usb;
