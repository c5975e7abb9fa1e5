//! The request for the next value of a state machine.

use vstd::prelude::*;
use crate::apply::{
    applies_request, internal_apply_state_transition, AppliedTransition, TransitionKind,
};
use crate::states::States;

verus! {

/// What has been requested of the state machine of `S` since the last cycle.
///
/// Every write replaces what was written before: only the last one counts.
#[derive(Debug, Clone, PartialEq, Eq)]
pub enum PendingRequest<S: States> {
    /// Nothing was requested: the next cycle leaves the state machine alone.
    Unchanged,
    /// The state machine is to hold this value; `None` switches it off.
    Pending(Option<S>),
}

impl<S: States> PendingRequest<S> {
    /// The request after `requested` was written over it.
    pub open spec fn after_set(self, requested: Option<S>) -> Self {
        PendingRequest::Pending(requested)
    }

    /// A request that asks for nothing.
    pub fn new() -> (request: Self)
        ensures
            request == PendingRequest::<S>::Unchanged,
    {
        PendingRequest::Unchanged
    }

    /// Writes `requested` over whatever was requested before.
    pub fn set(&mut self, requested: Option<S>)
        ensures
            *final(self) == old(self).after_set(requested),
    {
        *self = PendingRequest::Pending(requested);
    }

    /// Hands out what was requested and leaves a request that asks for
    /// nothing.
    pub fn take(&mut self) -> (taken: Self)
        ensures
            taken == *old(self),
            *final(self) == PendingRequest::<S>::Unchanged,
    {
        let mut taken = PendingRequest::Unchanged;
        core::mem::swap(self, &mut taken);
        taken
    }
}

/// Whether `applied` is what a cycle makes of the cell `current` and the
/// request `pending`.
pub open spec fn applies_pending<S: States>(
    applied: AppliedTransition<S>,
    current: Option<S>,
    pending: PendingRequest<S>,
) -> bool {
    match pending {
        PendingRequest::Unchanged => {
            &&& applied.kind == TransitionKind::NoOp
            &&& applied.state == current
            &&& applied.event is None
        },
        PendingRequest::Pending(requested) => applies_request(applied, current, requested),
    }
}

/// Consumes the request of one cycle: applies what was requested last to a
/// cell that holds `current_state`, and resets the request.
pub fn apply_pending<S: States>(
    current_state: Option<S>,
    pending: &mut PendingRequest<S>,
) -> (applied: AppliedTransition<S>)
    ensures
        applies_pending(applied, current_state, *old(pending)),
        applied.event matches Some(event) ==> event.wf(),
        *final(pending) == PendingRequest::<S>::Unchanged,
{
    match pending.take() {
        PendingRequest::Unchanged => AppliedTransition {
            kind: TransitionKind::NoOp,
            state: current_state,
            event: None,
        },
        PendingRequest::Pending(requested) => internal_apply_state_transition(
            current_state,
            requested,
        ),
    }
}

/// Of two requests written one after the other, only the last is there to
/// be applied: the first leaves no trace in the request, whatever it asked
/// for, and so none in what the cycle makes of it.
pub proof fn lemma_last_request_wins<S: States>(
    pending: PendingRequest<S>,
    first: Option<S>,
    last: Option<S>,
    current: Option<S>,
    applied: AppliedTransition<S>,
)
    ensures
        pending.after_set(first).after_set(last) == pending.after_set(last),
        pending.after_set(first).after_set(last) == PendingRequest::Pending(last),
        applies_pending(applied, current, pending.after_set(first).after_set(last))
            <==> applies_request(applied, current, last),
{
}

} // verus!
