//! Applying a requested value to the cell of a state machine.

use vstd::prelude::*;
use crate::event::StateTransitionEvent;
use crate::states::{clone_of, equality_specified, same_state, States};

verus! {

/// The four shapes that applying a request can take.
#[derive(Clone, Copy, Debug, PartialEq, Eq, Hash, Structural)]
pub enum TransitionKind {
    /// The cell stays as it is and no event is sent.
    NoOp,
    /// The cell was empty and now holds the requested value.
    Insert,
    /// The cell held another value and now holds the requested one.
    Update,
    /// The cell held a value and is now empty.
    Remove,
}

/// What applying a request gives: the cell afterwards, the event to send,
/// and which of the four shapes the transition took.
#[derive(Debug, Clone, PartialEq, Eq)]
pub struct AppliedTransition<S: States> {
    /// The shape of the transition.
    pub kind: TransitionKind,
    /// The cell after the transition; `None` where the state machine is off.
    pub state: Option<S>,
    /// The event to send; `None` where nothing changed.
    pub event: Option<StateTransitionEvent<S>>,
}

/// The shape of the transition that requesting `requested` causes while the
/// cell holds `current`. A request for the value that the cell holds already,
/// by the equality of `S`, changes nothing.
pub open spec fn transition_kind<S: States>(current: Option<S>, requested: Option<S>)
    -> TransitionKind {
    match (current, requested) {
        (Some(held), Some(wanted)) => if same_state(held, wanted) {
            TransitionKind::NoOp
        } else {
            TransitionKind::Update
        },
        (None, Some(_)) => TransitionKind::Insert,
        (Some(_), None) => TransitionKind::Remove,
        (None, None) => TransitionKind::NoOp,
    }
}

/// The shapes that a transition from `current` to `requested` can take
/// whatever the comparison of two present values says.
pub open spec fn kind_fits<S: States>(
    kind: TransitionKind,
    current: Option<S>,
    requested: Option<S>,
) -> bool {
    match (current, requested) {
        (Some(_), Some(_)) => kind == TransitionKind::NoOp || kind == TransitionKind::Update,
        (None, Some(_)) => kind == TransitionKind::Insert,
        (Some(_), None) => kind == TransitionKind::Remove,
        (None, None) => kind == TransitionKind::NoOp,
    }
}

/// The cell after a transition of shape `kind` from `current` to `requested`.
pub open spec fn state_after<S: States>(
    kind: TransitionKind,
    current: Option<S>,
    requested: Option<S>,
) -> Option<S> {
    match kind {
        TransitionKind::NoOp => current,
        TransitionKind::Insert | TransitionKind::Update | TransitionKind::Remove => requested,
    }
}

/// Whether `event` is what a transition of shape `kind` from `current` to
/// `requested` sends: nothing where nothing changed, else one event that
/// holds the value that was left and a clone of the one that was entered.
pub open spec fn announces<S: States>(
    event: Option<StateTransitionEvent<S>>,
    kind: TransitionKind,
    current: Option<S>,
    requested: Option<S>,
) -> bool {
    match kind {
        TransitionKind::NoOp => event is None,
        TransitionKind::Insert | TransitionKind::Update | TransitionKind::Remove => {
            &&& event is Some
            &&& event->0.exited == current
            &&& clone_of(requested, event->0.entered)
        },
    }
}

/// Whether `applied` is what applying the request `requested` to a cell that
/// holds `current` gives.
pub open spec fn applies_request<S: States>(
    applied: AppliedTransition<S>,
    current: Option<S>,
    requested: Option<S>,
) -> bool {
    &&& equality_specified::<S>() ==> applied.kind == transition_kind(current, requested)
    &&& kind_fits(applied.kind, current, requested)
    &&& applied.state == state_after(applied.kind, current, requested)
    &&& announces(applied.event, applied.kind, current, requested)
}

/// Applies the request `new_state` to a cell that holds `current_state`.
///
/// A requested value that equals the current one changes nothing. Any other
/// requested value is stored, and an event names the value that was left, if
/// there was one, and the value that was entered. A request of `None`
/// empties the cell; the event then names only the value that was left.
pub fn internal_apply_state_transition<S: States>(
    current_state: Option<S>,
    new_state: Option<S>,
) -> (applied: AppliedTransition<S>)
    ensures
        applies_request(applied, current_state, new_state),
        applied.event matches Some(event) ==> event.wf(),
{
    match new_state {
        Some(entered) => {
            match current_state {
                Some(exited) => {
                    if exited != entered {
                        let event = StateTransitionEvent {
                            exited: Some(exited),
                            entered: Some(entered.clone()),
                        };
                        AppliedTransition {
                            kind: TransitionKind::Update,
                            state: Some(entered),
                            event: Some(event),
                        }
                    } else {
                        AppliedTransition {
                            kind: TransitionKind::NoOp,
                            state: Some(exited),
                            event: None,
                        }
                    }
                },
                None => {
                    let event = StateTransitionEvent {
                        exited: None,
                        entered: Some(entered.clone()),
                    };
                    AppliedTransition {
                        kind: TransitionKind::Insert,
                        state: Some(entered),
                        event: Some(event),
                    }
                },
            }
        },
        None => {
            match current_state {
                Some(exited) => {
                    let event = StateTransitionEvent { exited: Some(exited), entered: None };
                    AppliedTransition {
                        kind: TransitionKind::Remove,
                        state: None,
                        event: Some(event),
                    }
                },
                None => {
                    AppliedTransition { kind: TransitionKind::NoOp, state: None, event: None }
                },
            }
        },
    }
}

/// Applying a request for the value that the cell holds already sends no
/// event and leaves the cell as it was.
pub proof fn lemma_same_value_changes_nothing<S: States>(
    applied: AppliedTransition<S>,
    held: S,
    wanted: S,
)
    requires
        equality_specified::<S>(),
        same_state(held, wanted),
        applies_request(applied, Some(held), Some(wanted)),
    ensures
        applied.kind == TransitionKind::NoOp,
        applied.state == Some(held),
        applied.event is None,
{
}

/// Whatever is applied, an event is sent exactly where the cell changed
/// hands, and every event that is sent names a value.
pub proof fn lemma_event_iff_transition<S: States>(
    applied: AppliedTransition<S>,
    current: Option<S>,
    requested: Option<S>,
)
    requires
        applies_request(applied, current, requested),
    ensures
        applied.event is Some <==> applied.kind != TransitionKind::NoOp,
        applied.event matches Some(event) ==> event.wf(),
        applied.kind == TransitionKind::NoOp ==> applied.state == current,
        applied.kind == TransitionKind::Remove ==> applied.state is None,
{
}

} // verus!
