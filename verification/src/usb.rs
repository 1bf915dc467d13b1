//! The control endpoint of the USB device.
//!
//! What the interrupt of the USB peripheral decides is here; what it does to the registers is
//! named, for the caller to do.

use vstd::prelude::*;

verus! {

/// Where a control transfer on endpoint 0 stands.
#[derive(Clone, Copy, Debug, PartialEq, Eq, Structural)]
pub enum ControlState {
    WaitSetup,
    InData,
    OutData,
    LastInData,
    WaitStatusIn,
    WaitStatusOut,
    Stalled,
}

/// What is to be done to endpoint 0.
#[derive(Clone, Copy, Debug, PartialEq, Eq, Structural)]
pub enum Ep0Action {
    /// Go on with the data stage of a transfer to the host.
    DataStageIn,
    /// Stall the endpoint for transfers from the host.
    StallOut,
    /// Stall the endpoint for transfers to the host.
    StallIn,
    /// Make the endpoint ready to receive the next setup packet.
    PrepareSetup,
}

/// What is to be done when the interrupt of the USB peripheral is served.
#[derive(Clone, Copy, Debug, PartialEq, Eq, Structural)]
pub enum UsbAction {
    /// Clear the interrupt flag of the bus reset.
    AcknowledgeReset,
    /// Set the address of the device back to zero.
    ClearAddress,
    /// Clear the interrupt flag of the end of enumeration.
    AcknowledgeEnumeration,
    /// Clear the flag of the completed transfer to the host on endpoint 0.
    AcknowledgeTransfer,
    /// Do this to endpoint 0.
    Endpoint0(Ep0Action),
}

/// The interrupts of the USB peripheral that are pending.
#[derive(Clone, Copy, Debug, PartialEq, Eq, Structural)]
pub struct Pending {
    /// The host has reset the bus.
    pub reset: bool,
    /// Enumeration is done.
    pub enumeration_done: bool,
    /// A transfer to the host on endpoint 0 is complete.
    pub transfer_complete: bool,
}

/// The state after a transfer to the host is complete.
pub open spec fn state_after_transfer(state: ControlState) -> ControlState {
    match state {
        ControlState::InData => ControlState::InData,
        _ => ControlState::WaitSetup,
    }
}

/// What is to be done when a transfer to the host is complete: in the data stage the stage
/// goes on, after the status stage the next setup packet is awaited, and anywhere else the
/// endpoint is stalled before the next setup packet is awaited.
pub open spec fn actions_after_transfer(state: ControlState) -> Seq<Ep0Action> {
    match state {
        ControlState::InData => seq![Ep0Action::DataStageIn],
        ControlState::WaitStatusIn => seq![Ep0Action::PrepareSetup],
        _ => seq![Ep0Action::StallOut, Ep0Action::StallIn, Ep0Action::PrepareSetup],
    }
}

/// Decides what follows a complete transfer to the host on endpoint 0.
pub fn handle_in0(state: ControlState) -> (step: (ControlState, Vec<Ep0Action>))
    ensures
        step.0 == state_after_transfer(state),
        step.1@ == actions_after_transfer(state),
{
    let mut actions: Vec<Ep0Action> = Vec::new();
    match state {
        ControlState::InData => {
            actions.push(Ep0Action::DataStageIn);
            (ControlState::InData, actions)
        },
        ControlState::WaitStatusIn => {
            actions.push(Ep0Action::PrepareSetup);
            (ControlState::WaitSetup, actions)
        },
        _ => {
            actions.push(Ep0Action::StallOut);
            actions.push(Ep0Action::StallIn);
            actions.push(Ep0Action::PrepareSetup);
            (ControlState::WaitSetup, actions)
        },
    }
}

/// The state in which a complete transfer finds the endpoint, when the interrupts before it
/// have been served: the end of enumeration leaves it waiting for a setup packet.
pub open spec fn state_before_transfer(state: ControlState, pending: Pending) -> ControlState {
    if pending.enumeration_done {
        ControlState::WaitSetup
    } else {
        state
    }
}

/// The state after the interrupt has been served.
pub open spec fn state_after_interrupt(state: ControlState, pending: Pending) -> ControlState {
    if pending.transfer_complete {
        state_after_transfer(state_before_transfer(state, pending))
    } else {
        state_before_transfer(state, pending)
    }
}

/// What serving the interrupt does, in order: the bus reset, then the end of enumeration, then
/// the complete transfer.
pub open spec fn actions_of_interrupt(state: ControlState, pending: Pending) -> Seq<UsbAction> {
    let reset = if pending.reset {
        seq![UsbAction::AcknowledgeReset, UsbAction::ClearAddress]
    } else {
        Seq::empty()
    };
    let enumeration = if pending.enumeration_done {
        seq![UsbAction::AcknowledgeEnumeration, UsbAction::Endpoint0(Ep0Action::PrepareSetup)]
    } else {
        Seq::empty()
    };
    let transfer = if pending.transfer_complete {
        seq![UsbAction::AcknowledgeTransfer] + actions_after_transfer(
            state_before_transfer(state, pending),
        ).map_values(|action: Ep0Action| UsbAction::Endpoint0(action))
    } else {
        Seq::empty()
    };
    reset + enumeration + transfer
}

/// Serves the interrupt of the USB peripheral: decides from the pending interrupts what is to
/// be done and where endpoint 0 stands afterwards.
pub fn usb_handler(state: ControlState, pending: Pending) -> (step: (ControlState, Vec<UsbAction>))
    ensures
        step.0 == state_after_interrupt(state, pending),
        step.1@ == actions_of_interrupt(state, pending),
{
    let mut state = state;
    let mut actions: Vec<UsbAction> = Vec::new();
    if pending.reset {
        actions.push(UsbAction::AcknowledgeReset);
        actions.push(UsbAction::ClearAddress);
    }
    if pending.enumeration_done {
        actions.push(UsbAction::AcknowledgeEnumeration);
        actions.push(UsbAction::Endpoint0(Ep0Action::PrepareSetup));
        state = ControlState::WaitSetup;
    }
    let ghost before = actions@;
    let ghost found = state;
    if pending.transfer_complete {
        actions.push(UsbAction::AcknowledgeTransfer);
        let (next, endpoint) = handle_in0(state);
        let mut index: usize = 0;
        while index < endpoint.len()
            invariant
                index <= endpoint.len(),
                endpoint@ == actions_after_transfer(found),
                actions@ == before + seq![UsbAction::AcknowledgeTransfer] + endpoint@.take(
                    index as int,
                ).map_values(|action: Ep0Action| UsbAction::Endpoint0(action)),
            decreases endpoint.len() - index,
        {
            actions.push(UsbAction::Endpoint0(endpoint[index]));
            assert(endpoint@.take(index + 1) =~= endpoint@.take(index as int).push(
                endpoint@[index as int],
            ));
            index += 1;
        }
        state = next;
    }
    (state, actions)
}

} // verus!
