//! The record of one applied transition, and the query for the latest one.

use vstd::prelude::*;
use crate::states::States;

verus! {

/// Sent whenever a transition of `S` has been applied.
///
/// `exited` is the value that was left, `entered` the value that holds now.
/// One of them is absent where the state machine was switched on or off.
#[derive(Debug, Copy, Clone, PartialEq, Eq)]
pub struct StateTransitionEvent<S: States> {
    /// The state being exited.
    pub exited: Option<S>,
    /// The state being entered.
    pub entered: Option<S>,
}

impl<S: States> StateTransitionEvent<S> {
    /// An event always names a value that was left or one that was entered.
    pub open spec fn wf(self) -> bool {
        self.exited is Some || self.entered is Some
    }
}

/// What a reader that drained `events`, oldest first, keeps: the latest one.
pub open spec fn latest<S: States>(events: Seq<StateTransitionEvent<S>>) -> Option<
    StateTransitionEvent<S>,
> {
    if events.len() == 0 {
        None
    } else {
        Some(events.last())
    }
}

/// Returns the latest of the events that a reader drained from the channel
/// of `S`, oldest first, if there is any.
pub fn last_transition<S: States>(events: Vec<StateTransitionEvent<S>>) -> (last: Option<
    StateTransitionEvent<S>,
>)
    ensures
        last == latest(events@),
{
    let mut events = events;
    events.pop()
}

} // verus!
