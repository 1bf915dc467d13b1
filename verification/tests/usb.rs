use efm32hg_hal::usb::{handle_in0, usb_handler, ControlState, Ep0Action, Pending, UsbAction};

fn nothing() -> Pending {
    Pending { reset: false, enumeration_done: false, transfer_complete: false }
}

#[test]
fn in_the_data_stage_the_stage_goes_on() {
    assert_eq!(
        handle_in0(ControlState::InData),
        (ControlState::InData, vec![Ep0Action::DataStageIn])
    );
}

#[test]
fn after_the_status_stage_the_next_setup_packet_is_awaited() {
    assert_eq!(
        handle_in0(ControlState::WaitStatusIn),
        (ControlState::WaitSetup, vec![Ep0Action::PrepareSetup])
    );
}

#[test]
fn anywhere_else_the_endpoint_is_stalled_first() {
    let stalled = vec![Ep0Action::StallOut, Ep0Action::StallIn, Ep0Action::PrepareSetup];
    for state in [
        ControlState::WaitSetup,
        ControlState::OutData,
        ControlState::LastInData,
        ControlState::WaitStatusOut,
        ControlState::Stalled,
    ] {
        assert_eq!(handle_in0(state), (ControlState::WaitSetup, stalled.clone()));
    }
}

#[test]
fn without_a_pending_interrupt_nothing_is_done() {
    assert_eq!(usb_handler(ControlState::OutData, nothing()), (ControlState::OutData, vec![]));
}

#[test]
fn a_bus_reset_is_acknowledged_and_clears_the_address() {
    let pending = Pending { reset: true, ..nothing() };
    assert_eq!(
        usb_handler(ControlState::InData, pending),
        (ControlState::InData, vec![UsbAction::AcknowledgeReset, UsbAction::ClearAddress])
    );
}

#[test]
fn the_end_of_enumeration_awaits_a_setup_packet() {
    let pending = Pending { enumeration_done: true, ..nothing() };
    assert_eq!(
        usb_handler(ControlState::Stalled, pending),
        (
            ControlState::WaitSetup,
            vec![
                UsbAction::AcknowledgeEnumeration,
                UsbAction::Endpoint0(Ep0Action::PrepareSetup),
            ]
        )
    );
}

#[test]
fn a_complete_transfer_is_acknowledged_and_handled() {
    let pending = Pending { transfer_complete: true, ..nothing() };
    assert_eq!(
        usb_handler(ControlState::InData, pending),
        (
            ControlState::InData,
            vec![UsbAction::AcknowledgeTransfer, UsbAction::Endpoint0(Ep0Action::DataStageIn)]
        )
    );
    assert_eq!(
        usb_handler(ControlState::WaitStatusIn, pending),
        (
            ControlState::WaitSetup,
            vec![UsbAction::AcknowledgeTransfer, UsbAction::Endpoint0(Ep0Action::PrepareSetup)]
        )
    );
}

#[test]
fn everything_at_once_is_served_in_order() {
    let pending = Pending { reset: true, enumeration_done: true, transfer_complete: true };
    assert_eq!(
        usb_handler(ControlState::InData, pending),
        (
            ControlState::WaitSetup,
            vec![
                UsbAction::AcknowledgeReset,
                UsbAction::ClearAddress,
                UsbAction::AcknowledgeEnumeration,
                UsbAction::Endpoint0(Ep0Action::PrepareSetup),
                UsbAction::AcknowledgeTransfer,
                UsbAction::Endpoint0(Ep0Action::StallOut),
                UsbAction::Endpoint0(Ep0Action::StallIn),
                UsbAction::Endpoint0(Ep0Action::PrepareSetup),
            ]
        )
    );
}

#[test]
fn serving_in_two_steps_is_serving_at_once() {
    let first = Pending { reset: true, enumeration_done: false, transfer_complete: false };
    let second = Pending { reset: false, enumeration_done: false, transfer_complete: true };
    let both = Pending { reset: true, enumeration_done: false, transfer_complete: true };
    let (state, mut actions) = usb_handler(ControlState::WaitStatusIn, first);
    let (state, more) = usb_handler(state, second);
    actions.extend(more);
    assert_eq!((state, actions), usb_handler(ControlState::WaitStatusIn, both));
}
