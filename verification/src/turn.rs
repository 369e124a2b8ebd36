//! The state machine of a single chat turn: a backend failure ends the
//! turn at once, a backend answer flows through tool extraction and tool
//! execution before the response is returned. The driver advances one
//! state per event; an event that a state does not admit is a protocol
//! fault and yields no next state.

use vstd::prelude::*;

verus! {

#[derive(Clone, Copy, PartialEq, Eq, Structural, Debug)]
pub enum TurnState {
    Received,
    BackendCalled,
    BackendFailed,
    ResponseReceived,
    ToolsExtracted,
    ToolsExecuted,
    Returned,
}

#[derive(Clone, Copy, PartialEq, Eq, Structural, Debug)]
pub enum TurnEvent {
    BackendInvoked,
    BackendErred,
    BackendAnswered,
    CallsExtracted,
    CallsHandled,
    ResponseReturned,
}

/// The transition relation of one chat turn.
pub open spec fn spec_turn_step(s: TurnState, e: TurnEvent) -> Option<TurnState> {
    match (s, e) {
        (TurnState::Received, TurnEvent::BackendInvoked) => Some(TurnState::BackendCalled),
        (TurnState::BackendCalled, TurnEvent::BackendErred) => Some(TurnState::BackendFailed),
        (TurnState::BackendCalled, TurnEvent::BackendAnswered) => Some(
            TurnState::ResponseReceived,
        ),
        (TurnState::ResponseReceived, TurnEvent::CallsExtracted) => Some(TurnState::ToolsExtracted),
        (TurnState::ToolsExtracted, TurnEvent::CallsHandled) => Some(TurnState::ToolsExecuted),
        (TurnState::ToolsExecuted, TurnEvent::ResponseReturned) => Some(TurnState::Returned),
        _ => None,
    }
}

/// A turn ends either failed or returned; nothing follows.
pub open spec fn is_terminal(s: TurnState) -> bool {
    s is BackendFailed || s is Returned
}

/// Advances one chat turn by one event.
pub fn turn_step(s: TurnState, e: TurnEvent) -> (r: Option<TurnState>)
    ensures
        r == spec_turn_step(s, e),
{
    match (s, e) {
        (TurnState::Received, TurnEvent::BackendInvoked) => Some(TurnState::BackendCalled),
        (TurnState::BackendCalled, TurnEvent::BackendErred) => Some(TurnState::BackendFailed),
        (TurnState::BackendCalled, TurnEvent::BackendAnswered) => Some(
            TurnState::ResponseReceived,
        ),
        (TurnState::ResponseReceived, TurnEvent::CallsExtracted) => Some(TurnState::ToolsExtracted),
        (TurnState::ToolsExtracted, TurnEvent::CallsHandled) => Some(TurnState::ToolsExecuted),
        (TurnState::ToolsExecuted, TurnEvent::ResponseReturned) => Some(TurnState::Returned),
        _ => None,
    }
}

/// No event leaves a terminal state.
pub proof fn lemma_terminal_states_are_final(s: TurnState, e: TurnEvent)
    requires
        is_terminal(s),
    ensures
        spec_turn_step(s, e) is None,
{
}

/// Every turn that advances at all ends in a terminal state or is still
/// on the one path the diagram draws: each state admits at most one
/// successful event, except the backend call, which either fails
/// terminally or goes on.
pub proof fn lemma_turn_is_deterministic(s: TurnState, e1: TurnEvent, e2: TurnEvent)
    requires
        spec_turn_step(s, e1) is Some,
        spec_turn_step(s, e2) is Some,
        !(s is BackendCalled),
    ensures
        e1 == e2,
        spec_turn_step(s, e1) == spec_turn_step(s, e2),
{
}

} // verus!
