//! The modes of a pin.
//!
//! A mode says what the input of a pin does and what its output does. Only some pairs exist in
//! the hardware: the table of pin modes of the reference manual lists them, and
//! [`PinMode::encoding`] is that table.

use vstd::prelude::*;

verus! {

/// What the input of a pin does.
#[derive(Clone, Copy, Debug, PartialEq, Eq, Structural)]
pub enum InputMode {
    /// The input is disabled.
    Disabled,
    /// The input is enabled.
    Enabled,
    /// The input is enabled, behind the glitch filter.
    Filtered,
}

/// What the output of a pin can be made to do at one time.
#[derive(Clone, Copy, Debug, PartialEq, Eq, Structural)]
pub enum OutputState {
    /// Driven low, with the alternate drive strength.
    LowAlternateDrive,
    /// Driven low.
    Low,
    /// Pulled down.
    PullDown,
    /// Left floating.
    Floating,
    /// Pulled up.
    PullUp,
    /// Driven high.
    High,
    /// Driven high, with the alternate drive strength.
    HighAlternateDrive,
}

/// An output that stays in one state.
#[derive(Clone, Copy, Debug, PartialEq, Eq, Structural)]
pub struct SingleState {
    pub state: OutputState,
}

/// An output that its data bit switches between two states.
#[derive(Clone, Copy, Debug, PartialEq, Eq, Structural)]
pub struct MultiState {
    /// The state while the data bit is set.
    pub state_high: OutputState,
    /// The state while the data bit is clear.
    pub state_low: OutputState,
}

/// What the output of a pin does.
#[derive(Clone, Copy, Debug, PartialEq, Eq, Structural)]
pub enum OutputMode {
    Single(SingleState),
    Multi(MultiState),
}

impl OutputMode {
    /// The output that stays in one state.
    pub open spec fn fixed(state: OutputState) -> OutputMode {
        OutputMode::Single(SingleState { state })
    }

    /// The output that is in one state while the data bit is set and in another while it is
    /// clear.
    pub open spec fn switched(state_high: OutputState, state_low: OutputState) -> OutputMode {
        OutputMode::Multi(MultiState { state_high, state_low })
    }
}

/// How the hardware is told of a mode: the value of the pin's mode field, and the value that the
/// pin's data bit has to be given, if the mode depends on it.
#[derive(Clone, Copy, Debug, PartialEq, Eq, Structural)]
pub struct Encoding {
    pub mode: u8,
    pub dout: Option<bool>,
}

/// The mode of a pin, put together step by step: it starts with input and output disabled, and
/// each method replaces what the input does or what the output does.
#[derive(Clone, Copy, Debug, PartialEq, Eq, Structural)]
pub struct PinMode {
    pub input_mode: InputMode,
    pub output_mode: OutputMode,
}

impl PinMode {
    /// The mode with the input disabled and the output disabled, that is, floating.
    #[inline]
    pub fn new() -> (mode: PinMode)
        ensures
            mode.input_mode == InputMode::Disabled,
            mode.output_mode == OutputMode::fixed(OutputState::Floating),
    {
        PinMode {
            input_mode: InputMode::Disabled,
            output_mode: OutputMode::Single(SingleState { state: OutputState::Floating }),
        }
    }

    #[inline]
    fn transmute(self, input_mode: InputMode, output_mode: OutputMode) -> (mode: PinMode)
        ensures
            mode.input_mode == input_mode,
            mode.output_mode == output_mode,
    {
        let _ = self;
        PinMode { input_mode, output_mode }
    }

    #[inline]
    fn with_input(self, input_mode: InputMode) -> (mode: PinMode)
        ensures
            mode.input_mode == input_mode,
            mode.output_mode == self.output_mode,
    {
        let output_mode = self.output_mode;
        self.transmute(input_mode, output_mode)
    }

    #[inline]
    fn with_fixed_output(self, state: OutputState) -> (mode: PinMode)
        ensures
            mode.input_mode == self.input_mode,
            mode.output_mode == OutputMode::fixed(state),
    {
        let input_mode = self.input_mode;
        self.transmute(input_mode, OutputMode::Single(SingleState { state }))
    }

    #[inline]
    fn with_switched_output(self, state_high: OutputState, state_low: OutputState) -> (mode:
        PinMode)
        ensures
            mode.input_mode == self.input_mode,
            mode.output_mode == OutputMode::switched(state_high, state_low),
    {
        let input_mode = self.input_mode;
        self.transmute(input_mode, OutputMode::Multi(MultiState { state_high, state_low }))
    }

    /// The same mode with the input enabled.
    #[inline]
    pub fn input_enable(self) -> (mode: PinMode)
        ensures
            mode.input_mode == InputMode::Enabled,
            mode.output_mode == self.output_mode,
    {
        self.with_input(InputMode::Enabled)
    }

    /// The same mode with the input enabled behind the glitch filter.
    #[inline]
    pub fn input_filter(self) -> (mode: PinMode)
        ensures
            mode.input_mode == InputMode::Filtered,
            mode.output_mode == self.output_mode,
    {
        self.with_input(InputMode::Filtered)
    }

    /// The same mode with the input disabled.
    #[inline]
    pub fn input_disable(self) -> (mode: PinMode)
        ensures
            mode.input_mode == InputMode::Disabled,
            mode.output_mode == self.output_mode,
    {
        self.with_input(InputMode::Disabled)
    }

    /// The same mode with the output disabled, that is, floating.
    #[inline]
    pub fn output_disable(self) -> (mode: PinMode)
        ensures
            mode.input_mode == self.input_mode,
            mode.output_mode == OutputMode::fixed(OutputState::Floating),
    {
        self.with_fixed_output(OutputState::Floating)
    }

    /// The same mode with the output driven low with the alternate drive strength.
    #[inline]
    pub fn set_low_alternate_drive(self) -> (mode: PinMode)
        ensures
            mode.input_mode == self.input_mode,
            mode.output_mode == OutputMode::fixed(OutputState::LowAlternateDrive),
    {
        self.with_fixed_output(OutputState::LowAlternateDrive)
    }

    /// The same mode with the output driven low.
    #[inline]
    pub fn set_low(self) -> (mode: PinMode)
        ensures
            mode.input_mode == self.input_mode,
            mode.output_mode == OutputMode::fixed(OutputState::Low),
    {
        self.with_fixed_output(OutputState::Low)
    }

    /// The same mode with the output pulled down.
    #[inline]
    pub fn set_pull_down(self) -> (mode: PinMode)
        ensures
            mode.input_mode == self.input_mode,
            mode.output_mode == OutputMode::fixed(OutputState::PullDown),
    {
        self.with_fixed_output(OutputState::PullDown)
    }

    /// The same mode with the output floating.
    #[inline]
    pub fn set_floating(self) -> (mode: PinMode)
        ensures
            mode.input_mode == self.input_mode,
            mode.output_mode == OutputMode::fixed(OutputState::Floating),
    {
        self.with_fixed_output(OutputState::Floating)
    }

    /// The same mode with the output pulled up.
    #[inline]
    pub fn set_pull_up(self) -> (mode: PinMode)
        ensures
            mode.input_mode == self.input_mode,
            mode.output_mode == OutputMode::fixed(OutputState::PullUp),
    {
        self.with_fixed_output(OutputState::PullUp)
    }

    /// The same mode with the output driven high.
    #[inline]
    pub fn set_high(self) -> (mode: PinMode)
        ensures
            mode.input_mode == self.input_mode,
            mode.output_mode == OutputMode::fixed(OutputState::High),
    {
        self.with_fixed_output(OutputState::High)
    }

    /// The same mode with the output driven high with the alternate drive strength.
    #[inline]
    pub fn set_high_alternate_drive(self) -> (mode: PinMode)
        ensures
            mode.input_mode == self.input_mode,
            mode.output_mode == OutputMode::fixed(OutputState::HighAlternateDrive),
    {
        self.with_fixed_output(OutputState::HighAlternateDrive)
    }

    /// The same mode with a push-pull output: driven high or driven low.
    #[inline]
    pub fn push_pull(self) -> (mode: PinMode)
        ensures
            mode.input_mode == self.input_mode,
            mode.output_mode == OutputMode::switched(OutputState::High, OutputState::Low),
    {
        self.with_switched_output(OutputState::High, OutputState::Low)
    }

    /// The same mode with a push-pull output of the alternate drive strength.
    #[inline]
    pub fn push_pull_alternate_drive(self) -> (mode: PinMode)
        ensures
            mode.input_mode == self.input_mode,
            mode.output_mode == OutputMode::switched(
                OutputState::HighAlternateDrive,
                OutputState::LowAlternateDrive,
            ),
    {
        self.with_switched_output(OutputState::HighAlternateDrive, OutputState::LowAlternateDrive)
    }

    /// The same mode with a wired-or output: driven high or floating.
    #[inline]
    pub fn wired_or(self) -> (mode: PinMode)
        ensures
            mode.input_mode == self.input_mode,
            mode.output_mode == OutputMode::switched(OutputState::High, OutputState::Floating),
    {
        self.with_switched_output(OutputState::High, OutputState::Floating)
    }

    /// The same mode with a wired-or output with a pull-down: driven high or pulled down.
    #[inline]
    pub fn wired_or_pull_down(self) -> (mode: PinMode)
        ensures
            mode.input_mode == self.input_mode,
            mode.output_mode == OutputMode::switched(OutputState::High, OutputState::PullDown),
    {
        self.with_switched_output(OutputState::High, OutputState::PullDown)
    }

    /// The same mode with a wired-and output: floating or driven low.
    #[inline]
    pub fn wired_and(self) -> (mode: PinMode)
        ensures
            mode.input_mode == self.input_mode,
            mode.output_mode == OutputMode::switched(OutputState::Floating, OutputState::Low),
    {
        self.with_switched_output(OutputState::Floating, OutputState::Low)
    }

    /// The same mode with a wired-and output with a pull-up: pulled up or driven low.
    #[inline]
    pub fn wired_and_pull_up(self) -> (mode: PinMode)
        ensures
            mode.input_mode == self.input_mode,
            mode.output_mode == OutputMode::switched(OutputState::PullUp, OutputState::Low),
    {
        self.with_switched_output(OutputState::PullUp, OutputState::Low)
    }

    /// The same mode with a wired-and output of the alternate drive strength: floating or driven
    /// low with that strength.
    #[inline]
    pub fn wired_and_alternate_drive(self) -> (mode: PinMode)
        ensures
            mode.input_mode == self.input_mode,
            mode.output_mode == OutputMode::switched(
                OutputState::Floating,
                OutputState::LowAlternateDrive,
            ),
    {
        self.with_switched_output(OutputState::Floating, OutputState::LowAlternateDrive)
    }

    /// The same mode with a wired-and output of the alternate drive strength with a pull-up:
    /// pulled up or driven low with that strength.
    #[inline]
    pub fn wired_and_alternate_drive_pull_up(self) -> (mode: PinMode)
        ensures
            mode.input_mode == self.input_mode,
            mode.output_mode == OutputMode::switched(
                OutputState::PullUp,
                OutputState::LowAlternateDrive,
            ),
    {
        self.with_switched_output(OutputState::PullUp, OutputState::LowAlternateDrive)
    }

    /// The same mode with an output that is pulled up or pulled down.
    #[inline]
    pub fn pull_up_or_down(self) -> (mode: PinMode)
        ensures
            mode.input_mode == self.input_mode,
            mode.output_mode == OutputMode::switched(OutputState::PullUp, OutputState::PullDown),
    {
        self.with_switched_output(OutputState::PullUp, OutputState::PullDown)
    }

    /// The same mode with an output that is pulled up or floating.
    #[inline]
    pub fn pull_up_or_floating(self) -> (mode: PinMode)
        ensures
            mode.input_mode == self.input_mode,
            mode.output_mode == OutputMode::switched(OutputState::PullUp, OutputState::Floating),
    {
        self.with_switched_output(OutputState::PullUp, OutputState::Floating)
    }

    /// The table of pin modes: how each mode that the hardware has is encoded, and `None` for a
    /// pair of input and output that the hardware does not have.
    ///
    /// The first twenty lines are the lines of the table in the reference manual. In the three
    /// lines after them the data bit is free, where the manual has one line for either value. In
    /// the last six, a line of the manual that leaves the data bit free is taken with the bit
    /// fixed.
    pub open spec fn spec_encoding(self) -> Option<Encoding> {
        let input = self.input_mode;
        let output = self.output_mode;
        if input == InputMode::Disabled && output == OutputMode::fixed(OutputState::Floating) {
            Some(Encoding { mode: 0b0000, dout: Some(false) })
        } else if input == InputMode::Disabled && output == OutputMode::fixed(OutputState::PullUp) {
            Some(Encoding { mode: 0b0000, dout: Some(true) })
        } else if input == InputMode::Enabled && output == OutputMode::fixed(
            OutputState::Floating,
        ) {
            Some(Encoding { mode: 0b0001, dout: Some(false) })
        } else if input == InputMode::Filtered && output == OutputMode::fixed(
            OutputState::Floating,
        ) {
            Some(Encoding { mode: 0b0001, dout: Some(true) })
        } else if input == InputMode::Enabled && output == OutputMode::fixed(
            OutputState::PullDown,
        ) {
            Some(Encoding { mode: 0b0010, dout: Some(false) })
        } else if input == InputMode::Enabled && output == OutputMode::fixed(OutputState::PullUp) {
            Some(Encoding { mode: 0b0010, dout: Some(true) })
        } else if input == InputMode::Filtered && output == OutputMode::fixed(
            OutputState::PullDown,
        ) {
            Some(Encoding { mode: 0b0011, dout: Some(false) })
        } else if input == InputMode::Filtered && output == OutputMode::fixed(OutputState::PullUp) {
            Some(Encoding { mode: 0b0011, dout: Some(true) })
        } else if input == InputMode::Enabled && output == OutputMode::switched(
            OutputState::High,
            OutputState::Low,
        ) {
            Some(Encoding { mode: 0b0100, dout: None })
        } else if input == InputMode::Enabled && output == OutputMode::switched(
            OutputState::HighAlternateDrive,
            OutputState::LowAlternateDrive,
        ) {
            Some(Encoding { mode: 0b0101, dout: None })
        } else if input == InputMode::Enabled && output == OutputMode::switched(
            OutputState::High,
            OutputState::Floating,
        ) {
            Some(Encoding { mode: 0b0110, dout: None })
        } else if input == InputMode::Enabled && output == OutputMode::switched(
            OutputState::High,
            OutputState::PullDown,
        ) {
            Some(Encoding { mode: 0b0111, dout: None })
        } else if input == InputMode::Enabled && output == OutputMode::switched(
            OutputState::Floating,
            OutputState::Low,
        ) {
            Some(Encoding { mode: 0b1000, dout: None })
        } else if input == InputMode::Filtered && output == OutputMode::switched(
            OutputState::Floating,
            OutputState::Low,
        ) {
            Some(Encoding { mode: 0b1001, dout: None })
        } else if input == InputMode::Enabled && output == OutputMode::switched(
            OutputState::PullUp,
            OutputState::Low,
        ) {
            Some(Encoding { mode: 0b1010, dout: None })
        } else if input == InputMode::Filtered && output == OutputMode::switched(
            OutputState::PullUp,
            OutputState::Low,
        ) {
            Some(Encoding { mode: 0b1011, dout: None })
        } else if input == InputMode::Enabled && output == OutputMode::switched(
            OutputState::Floating,
            OutputState::LowAlternateDrive,
        ) {
            Some(Encoding { mode: 0b1100, dout: None })
        } else if input == InputMode::Filtered && output == OutputMode::switched(
            OutputState::Floating,
            OutputState::LowAlternateDrive,
        ) {
            Some(Encoding { mode: 0b1101, dout: None })
        } else if input == InputMode::Enabled && output == OutputMode::switched(
            OutputState::PullUp,
            OutputState::LowAlternateDrive,
        ) {
            Some(Encoding { mode: 0b1110, dout: None })
        } else if input == InputMode::Filtered && output == OutputMode::switched(
            OutputState::PullUp,
            OutputState::LowAlternateDrive,
        ) {
            Some(Encoding { mode: 0b1111, dout: None })
        } else if input == InputMode::Disabled && output == OutputMode::switched(
            OutputState::PullUp,
            OutputState::Floating,
        ) {
            Some(Encoding { mode: 0b0000, dout: None })
        } else if input == InputMode::Enabled && output == OutputMode::switched(
            OutputState::PullUp,
            OutputState::PullDown,
        ) {
            Some(Encoding { mode: 0b0010, dout: None })
        } else if input == InputMode::Filtered && output == OutputMode::switched(
            OutputState::PullUp,
            OutputState::PullDown,
        ) {
            Some(Encoding { mode: 0b0011, dout: None })
        } else if input == InputMode::Enabled && output == OutputMode::fixed(
            OutputState::LowAlternateDrive,
        ) {
            Some(Encoding { mode: 0b1100, dout: Some(false) })
        } else if input == InputMode::Filtered && output == OutputMode::fixed(
            OutputState::LowAlternateDrive,
        ) {
            Some(Encoding { mode: 0b1101, dout: Some(false) })
        } else if input == InputMode::Enabled && output == OutputMode::fixed(OutputState::Low) {
            Some(Encoding { mode: 0b1000, dout: Some(false) })
        } else if input == InputMode::Filtered && output == OutputMode::fixed(OutputState::Low) {
            Some(Encoding { mode: 0b1001, dout: Some(false) })
        } else if input == InputMode::Enabled && output == OutputMode::fixed(OutputState::High) {
            Some(Encoding { mode: 0b0110, dout: Some(true) })
        } else if input == InputMode::Enabled && output == OutputMode::fixed(
            OutputState::HighAlternateDrive,
        ) {
            Some(Encoding { mode: 0b0101, dout: Some(true) })
        } else {
            None
        }
    }

    /// How the hardware is told of this mode, or `None` if the hardware does not have it.
    #[verifier::when_used_as_spec(spec_encoding)]
    pub fn encoding(self) -> (encoding: Option<Encoding>)
        ensures
            encoding == self.spec_encoding(),
    {
        match self.output_mode {
            OutputMode::Single(SingleState { state }) => {
                let fixed: Option<(u8, bool)> = match (state, self.input_mode) {
                    (OutputState::Floating, InputMode::Disabled) => Some((0b0000, false)),
                    (OutputState::Floating, InputMode::Enabled) => Some((0b0001, false)),
                    (OutputState::Floating, InputMode::Filtered) => Some((0b0001, true)),
                    (OutputState::PullDown, InputMode::Enabled) => Some((0b0010, false)),
                    (OutputState::PullDown, InputMode::Filtered) => Some((0b0011, false)),
                    (OutputState::PullUp, InputMode::Disabled) => Some((0b0000, true)),
                    (OutputState::PullUp, InputMode::Enabled) => Some((0b0010, true)),
                    (OutputState::PullUp, InputMode::Filtered) => Some((0b0011, true)),
                    (OutputState::LowAlternateDrive, InputMode::Enabled) => Some((0b1100, false)),
                    (OutputState::LowAlternateDrive, InputMode::Filtered) => Some((0b1101, false)),
                    (OutputState::Low, InputMode::Enabled) => Some((0b1000, false)),
                    (OutputState::Low, InputMode::Filtered) => Some((0b1001, false)),
                    (OutputState::High, InputMode::Enabled) => Some((0b0110, true)),
                    (OutputState::HighAlternateDrive, InputMode::Enabled) => Some((0b0101, true)),
                    _ => None,
                };
                match fixed {
                    Some((mode, dout)) => Some(Encoding { mode, dout: Some(dout) }),
                    None => None,
                }
            },
            OutputMode::Multi(MultiState { state_high, state_low }) => {
                // The mode with a plain input; with a filter it is one more, where there is one.
                let plain: Option<(u8, bool)> = match (state_high, state_low) {
                    (OutputState::High, OutputState::Low) => Some((0b0100, false)),
                    (OutputState::HighAlternateDrive, OutputState::LowAlternateDrive) => Some(
                        (0b0101, false),
                    ),
                    (OutputState::High, OutputState::Floating) => Some((0b0110, false)),
                    (OutputState::High, OutputState::PullDown) => Some((0b0111, false)),
                    (OutputState::Floating, OutputState::Low) => Some((0b1000, true)),
                    (OutputState::PullUp, OutputState::Low) => Some((0b1010, true)),
                    (OutputState::Floating, OutputState::LowAlternateDrive) => Some((0b1100, true)),
                    (OutputState::PullUp, OutputState::LowAlternateDrive) => Some((0b1110, true)),
                    (OutputState::PullUp, OutputState::PullDown) => Some((0b0010, true)),
                    _ => None,
                };
                match (plain, self.input_mode) {
                    (Some((mode, _)), InputMode::Enabled) => Some(Encoding { mode, dout: None }),
                    (Some((mode, true)), InputMode::Filtered) => Some(
                        Encoding { mode: mode + 1, dout: None },
                    ),
                    (None, InputMode::Disabled) => {
                        if state_high == OutputState::PullUp && state_low == OutputState::Floating {
                            Some(Encoding { mode: 0b0000, dout: None })
                        } else {
                            None
                        }
                    },
                    _ => None,
                }
            },
        }
    }

    /// Whether the hardware has this mode.
    pub open spec fn is_valid(self) -> bool {
        self.spec_encoding().is_some()
    }

    /// The mode field has four bits: every encoding fits in them.
    pub proof fn lemma_mode_fits(self)
        ensures
            self.encoding() matches Some(encoding) ==> encoding.mode < 16,
    {
    }

    /// The data bit is left free exactly by the modes whose output it switches between two
    /// states.
    pub proof fn lemma_data_bit_free(self)
        requires
            self.is_valid(),
        ensures
            self.encoding().unwrap().dout.is_none() <==> self.output_mode is Multi,
    {
    }
}

} // verus!
