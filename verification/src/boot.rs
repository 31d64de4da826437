//! The boot sequence as a state machine.
//!
//! The sequence runs once and in one direction: the firmware hands over the
//! system table, the graphics output protocol is looked up, and the view of the
//! frame buffer is derived from its mode. A lookup that fails ends the
//! sequence. No state is entered twice.

use crate::graphics::{
    framebuffer, spec_framebuffer, EfiGraphicsOutputProtocol, PixelBufferView,
};
use crate::locator::{locate_outcome, spec_locate_outcome, LOCATE_FAILURE};
use crate::status::EfiStatus;
use vstd::prelude::*;

verus! {

/// Where the boot sequence stands.
#[derive(Debug, PartialEq, Eq, Copy, Clone)]
pub enum BootState {
    /// Control has not been handed over yet.
    Uninitialized,
    /// The firmware has handed over the system table.
    TableReceived,
    /// The graphics output protocol was found at the address `service`.
    ServiceLocated { service: usize },
    /// The view of the frame buffer has been derived.
    ViewDerived { view: PixelBufferView },
    /// The lookup failed. Nothing follows but to halt.
    Failed { reason: &'static str },
}

/// What moves the boot sequence on.
#[derive(Debug, PartialEq, Eq, Copy, Clone)]
pub enum BootEvent {
    /// The firmware hands over the system table.
    Entered,
    /// The firmware's lookup function returned `status` and left `interface`
    /// in the slot for the result.
    LookupReturned { status: EfiStatus, interface: usize },
    /// The located protocol was read.
    ProtocolRead { protocol: EfiGraphicsOutputProtocol },
}

impl BootState {
    /// How many steps of the sequence lie behind the state. A failed lookup
    /// counts as the step that it ends.
    pub open spec fn stage(self) -> nat {
        match self {
            BootState::Uninitialized => 0,
            BootState::TableReceived => 1,
            BootState::ServiceLocated { .. } => 2,
            BootState::Failed { .. } => 2,
            BootState::ViewDerived { .. } => 3,
        }
    }

    /// Whether the sequence has ended in this state.
    pub open spec fn is_final(self) -> bool {
        self is ViewDerived || self is Failed
    }
}

/// The state that follows `state` on `event`, if the event is the one that
/// the state waits for.
pub open spec fn spec_step(state: BootState, event: BootEvent) -> Option<BootState> {
    match (state, event) {
        (BootState::Uninitialized, BootEvent::Entered) => Some(BootState::TableReceived),
        (BootState::TableReceived, BootEvent::LookupReturned { status, interface }) => Some(
            match spec_locate_outcome(status, interface) {
                Ok(service) => BootState::ServiceLocated { service },
                Err(reason) => BootState::Failed { reason },
            },
        ),
        (BootState::ServiceLocated { .. }, BootEvent::ProtocolRead { protocol }) => Some(
            BootState::ViewDerived { view: spec_framebuffer(protocol) },
        ),
        _ => None,
    }
}

/// Moves the boot sequence on by one event.
///
/// Each state waits for one kind of event, and a final state for none. Any
/// other event is not taken: there is no next state then.
pub fn step(state: BootState, event: BootEvent) -> (next: Option<BootState>)
    ensures
        next == spec_step(state, event),
{
    match (state, event) {
        (BootState::Uninitialized, BootEvent::Entered) => Some(BootState::TableReceived),
        (BootState::TableReceived, BootEvent::LookupReturned { status, interface }) => {
            match locate_outcome(status, interface) {
                Ok(service) => Some(BootState::ServiceLocated { service }),
                Err(reason) => Some(BootState::Failed { reason }),
            }
        },
        (BootState::ServiceLocated { .. }, BootEvent::ProtocolRead { protocol }) => Some(
            BootState::ViewDerived { view: framebuffer(&protocol) },
        ),
        _ => None,
    }
}

/// The sequence is strictly linear: every step that is taken leads one stage
/// further, so no state is entered again and no step is tried twice.
pub proof fn lemma_step_advances(state: BootState, event: BootEvent)
    requires
        spec_step(state, event) is Some,
    ensures
        spec_step(state, event)->0.stage() == state.stage() + 1,
{
}

/// Nothing follows a final state.
pub proof fn lemma_final_states_stay(state: BootState, event: BootEvent)
    requires
        state.is_final(),
    ensures
        spec_step(state, event) is None,
{
}

/// The sequence fails in one way only: the lookup returned a status other than
/// success. The failure then carries the reason of a failed lookup.
pub proof fn lemma_failure_is_failed_lookup(state: BootState, event: BootEvent)
    ensures
        (spec_step(state, event) is Some && spec_step(state, event)->0 is Failed) <==> (state
            is TableReceived && event is LookupReturned && !event->status.is_success()),
        (spec_step(state, event) is Some && spec_step(state, event)->0 is Failed)
            ==> spec_step(state, event)->0->reason == LOCATE_FAILURE,
{
}

/// A lookup that returned success leads on with the address that it returned.
pub proof fn lemma_success_locates_the_service(state: BootState, event: BootEvent)
    requires
        state is TableReceived,
        event is LookupReturned,
        event->status.is_success(),
    ensures
        spec_step(state, event) is Some,
        spec_step(state, event)->0 is ServiceLocated,
        spec_step(state, event)->0->service == event->interface,
{
}

} // verus!
