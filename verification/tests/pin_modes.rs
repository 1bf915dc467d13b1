use efm32hg_hal::gpio::pin_modes::{
    Encoding, InputMode, MultiState, OutputMode, OutputState, PinMode, SingleState,
};

fn fixed(state: OutputState) -> OutputMode {
    OutputMode::Single(SingleState { state })
}

fn switched(state_high: OutputState, state_low: OutputState) -> OutputMode {
    OutputMode::Multi(MultiState { state_high, state_low })
}

fn encoded(mode: u8, dout: Option<bool>) -> Option<Encoding> {
    Some(Encoding { mode, dout })
}

#[test]
fn a_new_mode_has_input_and_output_disabled() {
    let mode = PinMode::new();
    assert_eq!(mode.input_mode, InputMode::Disabled);
    assert_eq!(mode.output_mode, fixed(OutputState::Floating));
    assert_eq!(mode.encoding(), encoded(0b0000, Some(false)));
}

#[test]
fn the_input_methods_replace_the_input_only() {
    let mode = PinMode::new().push_pull();
    assert_eq!(mode.input_enable().input_mode, InputMode::Enabled);
    assert_eq!(mode.input_filter().input_mode, InputMode::Filtered);
    assert_eq!(mode.input_enable().input_disable().input_mode, InputMode::Disabled);
    assert_eq!(mode.input_enable().output_mode, mode.output_mode);
    assert_eq!(mode.input_filter().output_mode, mode.output_mode);
    assert_eq!(mode.input_disable().output_mode, mode.output_mode);
}

#[test]
fn the_output_methods_replace_the_output_only() {
    let mode = PinMode::new().input_filter();
    assert_eq!(mode.output_disable().output_mode, fixed(OutputState::Floating));
    assert_eq!(
        mode.set_low_alternate_drive().output_mode,
        fixed(OutputState::LowAlternateDrive)
    );
    assert_eq!(mode.set_low().output_mode, fixed(OutputState::Low));
    assert_eq!(mode.set_pull_down().output_mode, fixed(OutputState::PullDown));
    assert_eq!(mode.set_floating().output_mode, fixed(OutputState::Floating));
    assert_eq!(mode.set_pull_up().output_mode, fixed(OutputState::PullUp));
    assert_eq!(mode.set_high().output_mode, fixed(OutputState::High));
    assert_eq!(
        mode.set_high_alternate_drive().output_mode,
        fixed(OutputState::HighAlternateDrive)
    );
    assert_eq!(mode.push_pull().output_mode, switched(OutputState::High, OutputState::Low));
    assert_eq!(
        mode.push_pull_alternate_drive().output_mode,
        switched(OutputState::HighAlternateDrive, OutputState::LowAlternateDrive)
    );
    assert_eq!(mode.wired_or().output_mode, switched(OutputState::High, OutputState::Floating));
    assert_eq!(
        mode.wired_or_pull_down().output_mode,
        switched(OutputState::High, OutputState::PullDown)
    );
    assert_eq!(mode.wired_and().output_mode, switched(OutputState::Floating, OutputState::Low));
    assert_eq!(
        mode.wired_and_pull_up().output_mode,
        switched(OutputState::PullUp, OutputState::Low)
    );
    assert_eq!(
        mode.wired_and_alternate_drive().output_mode,
        switched(OutputState::Floating, OutputState::LowAlternateDrive)
    );
    assert_eq!(
        mode.wired_and_alternate_drive_pull_up().output_mode,
        switched(OutputState::PullUp, OutputState::LowAlternateDrive)
    );
    assert_eq!(
        mode.pull_up_or_down().output_mode,
        switched(OutputState::PullUp, OutputState::PullDown)
    );
    assert_eq!(
        mode.pull_up_or_floating().output_mode,
        switched(OutputState::PullUp, OutputState::Floating)
    );
    assert_eq!(mode.push_pull().input_mode, InputMode::Filtered);
    assert_eq!(mode.set_high().input_mode, InputMode::Filtered);
}

#[test]
fn the_lines_of_the_table_with_a_fixed_data_bit() {
    let new = PinMode::new();
    assert_eq!(new.encoding(), encoded(0b0000, Some(false)));
    assert_eq!(new.set_pull_up().encoding(), encoded(0b0000, Some(true)));
    assert_eq!(new.input_enable().encoding(), encoded(0b0001, Some(false)));
    assert_eq!(new.input_filter().encoding(), encoded(0b0001, Some(true)));
    assert_eq!(new.input_enable().set_pull_down().encoding(), encoded(0b0010, Some(false)));
    assert_eq!(new.input_enable().set_pull_up().encoding(), encoded(0b0010, Some(true)));
    assert_eq!(new.input_filter().set_pull_down().encoding(), encoded(0b0011, Some(false)));
    assert_eq!(new.input_filter().set_pull_up().encoding(), encoded(0b0011, Some(true)));
}

#[test]
fn the_lines_of_the_table_with_a_free_data_bit() {
    let plain = PinMode::new().input_enable();
    let filtered = PinMode::new().input_filter();
    assert_eq!(plain.push_pull().encoding(), encoded(0b0100, None));
    assert_eq!(plain.push_pull_alternate_drive().encoding(), encoded(0b0101, None));
    assert_eq!(plain.wired_or().encoding(), encoded(0b0110, None));
    assert_eq!(plain.wired_or_pull_down().encoding(), encoded(0b0111, None));
    assert_eq!(plain.wired_and().encoding(), encoded(0b1000, None));
    assert_eq!(filtered.wired_and().encoding(), encoded(0b1001, None));
    assert_eq!(plain.wired_and_pull_up().encoding(), encoded(0b1010, None));
    assert_eq!(filtered.wired_and_pull_up().encoding(), encoded(0b1011, None));
    assert_eq!(plain.wired_and_alternate_drive().encoding(), encoded(0b1100, None));
    assert_eq!(filtered.wired_and_alternate_drive().encoding(), encoded(0b1101, None));
    assert_eq!(plain.wired_and_alternate_drive_pull_up().encoding(), encoded(0b1110, None));
    assert_eq!(filtered.wired_and_alternate_drive_pull_up().encoding(), encoded(0b1111, None));
}

#[test]
fn the_lines_that_join_or_split_lines_of_the_table() {
    let disabled = PinMode::new();
    let plain = PinMode::new().input_enable();
    let filtered = PinMode::new().input_filter();
    assert_eq!(disabled.pull_up_or_floating().encoding(), encoded(0b0000, None));
    assert_eq!(plain.pull_up_or_down().encoding(), encoded(0b0010, None));
    assert_eq!(filtered.pull_up_or_down().encoding(), encoded(0b0011, None));
    assert_eq!(plain.set_low_alternate_drive().encoding(), encoded(0b1100, Some(false)));
    assert_eq!(filtered.set_low_alternate_drive().encoding(), encoded(0b1101, Some(false)));
    assert_eq!(plain.set_low().encoding(), encoded(0b1000, Some(false)));
    assert_eq!(filtered.set_low().encoding(), encoded(0b1001, Some(false)));
    assert_eq!(plain.set_high().encoding(), encoded(0b0110, Some(true)));
    assert_eq!(plain.set_high_alternate_drive().encoding(), encoded(0b0101, Some(true)));
}

#[test]
fn a_pair_that_the_hardware_does_not_have_has_no_encoding() {
    let disabled = PinMode::new();
    let plain = PinMode::new().input_enable();
    let filtered = PinMode::new().input_filter();
    assert_eq!(disabled.push_pull().encoding(), None);
    assert_eq!(disabled.set_pull_down().encoding(), None);
    assert_eq!(disabled.set_high().encoding(), None);
    assert_eq!(disabled.set_low().encoding(), None);
    assert_eq!(disabled.wired_and().encoding(), None);
    assert_eq!(disabled.pull_up_or_down().encoding(), None);
    assert_eq!(plain.pull_up_or_floating().encoding(), None);
    assert_eq!(filtered.pull_up_or_floating().encoding(), None);
    assert_eq!(filtered.push_pull().encoding(), None);
    assert_eq!(filtered.push_pull_alternate_drive().encoding(), None);
    assert_eq!(filtered.wired_or().encoding(), None);
    assert_eq!(filtered.wired_or_pull_down().encoding(), None);
    assert_eq!(filtered.set_high().encoding(), None);
    assert_eq!(filtered.set_high_alternate_drive().encoding(), None);
    let odd = PinMode {
        input_mode: InputMode::Enabled,
        output_mode: switched(OutputState::Low, OutputState::High),
    };
    assert_eq!(odd.encoding(), None);
}

#[test]
fn exactly_twenty_nine_pairs_have_an_encoding() {
    let inputs = [InputMode::Disabled, InputMode::Enabled, InputMode::Filtered];
    let states = [
        OutputState::LowAlternateDrive,
        OutputState::Low,
        OutputState::PullDown,
        OutputState::Floating,
        OutputState::PullUp,
        OutputState::High,
        OutputState::HighAlternateDrive,
    ];
    let mut valid: usize = 0;
    for input_mode in inputs {
        for state in states {
            let mode = PinMode { input_mode, output_mode: fixed(state) };
            if let Some(encoding) = mode.encoding() {
                assert!(encoding.mode < 16);
                assert!(encoding.dout.is_some());
                valid += 1;
            }
            for state_low in states {
                let mode = PinMode { input_mode, output_mode: switched(state, state_low) };
                if let Some(encoding) = mode.encoding() {
                    assert!(encoding.mode < 16);
                    assert!(encoding.dout.is_none());
                    valid += 1;
                }
            }
        }
    }
    assert_eq!(valid, 29);
}
