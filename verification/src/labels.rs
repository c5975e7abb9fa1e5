//! The labels under which schedules are registered.

use vstd::prelude::*;
use crate::states::States;

verus! {

/// The label of the schedule that runs whenever the state machine of `S`
/// enters this state.
#[derive(Clone, Debug, PartialEq, Eq, Hash)]
pub struct OnEnter<S: States>(pub S);

/// The label of the schedule that runs whenever the state machine of `S`
/// exits this state.
#[derive(Clone, Debug, PartialEq, Eq, Hash)]
pub struct OnExit<S: States>(pub S);

/// The label of the schedule that runs only when the state machine of `S`
/// exits the `exited` state and enters the `entered` state.
///
/// This schedule runs after that of [`OnExit`] and before that of
/// [`OnEnter`].
#[derive(Clone, Debug, PartialEq, Eq, Hash)]
pub struct OnTransition<S: States> {
    /// The state being exited.
    pub exited: S,
    /// The state being entered.
    pub entered: S,
}

/// The label of the schedule that runs state transitions.
#[derive(Clone, Debug, PartialEq, Eq, Hash)]
pub struct StateTransition;

/// Any label of a schedule that a transition of `S` can dispatch.
#[derive(Clone, Debug, PartialEq, Eq, Hash)]
pub enum TransitionLabel<S: States> {
    /// The schedule of a value that was left.
    Exit(OnExit<S>),
    /// The schedule of one exact transition.
    Transition(OnTransition<S>),
    /// The schedule of a value that was entered.
    Enter(OnEnter<S>),
}

} // verus!
