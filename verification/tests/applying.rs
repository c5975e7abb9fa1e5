use state_transitions::apply::{
    internal_apply_state_transition, AppliedTransition, TransitionKind,
};
use state_transitions::event::{last_transition, StateTransitionEvent};
use state_transitions::request::{apply_pending, PendingRequest};
use state_transitions::states::States;

#[derive(Clone, Copy, Debug, PartialEq, Eq, Hash)]
enum AppState {
    Loading,
    Ready,
    Paused,
}

impl States for AppState {}

/// A state whose clone is no plain copy.
#[derive(Clone, Debug, PartialEq, Eq, Hash)]
struct Level(String);

impl States for Level {}

/// A state whose equality looks at the number alone.
#[derive(Clone, Debug, Eq, Hash)]
struct Tagged {
    number: u32,
    tag: &'static str,
}

impl PartialEq for Tagged {
    fn eq(&self, other: &Self) -> bool {
        self.number == other.number
    }
}

impl States for Tagged {}

#[test]
fn insert_fills_the_cell_and_names_only_the_entered_value() {
    let applied = internal_apply_state_transition(None, Some(AppState::Loading));
    assert_eq!(
        applied,
        AppliedTransition {
            kind: TransitionKind::Insert,
            state: Some(AppState::Loading),
            event: Some(StateTransitionEvent { exited: None, entered: Some(AppState::Loading) }),
        }
    );
}

#[test]
fn request_for_the_current_value_changes_nothing() {
    let applied =
        internal_apply_state_transition(Some(AppState::Loading), Some(AppState::Loading));
    assert_eq!(
        applied,
        AppliedTransition {
            kind: TransitionKind::NoOp,
            state: Some(AppState::Loading),
            event: None,
        }
    );
}

#[test]
fn update_replaces_the_value_and_names_both() {
    let applied = internal_apply_state_transition(Some(AppState::Loading), Some(AppState::Ready));
    assert_eq!(
        applied,
        AppliedTransition {
            kind: TransitionKind::Update,
            state: Some(AppState::Ready),
            event: Some(StateTransitionEvent {
                exited: Some(AppState::Loading),
                entered: Some(AppState::Ready),
            }),
        }
    );
}

#[test]
fn remove_empties_the_cell_and_names_only_the_exited_value() {
    let applied = internal_apply_state_transition(Some(AppState::Ready), None);
    assert_eq!(
        applied,
        AppliedTransition {
            kind: TransitionKind::Remove,
            state: None,
            event: Some(StateTransitionEvent { exited: Some(AppState::Ready), entered: None }),
        }
    );
}

#[test]
fn removing_from_an_empty_cell_changes_nothing() {
    let applied = internal_apply_state_transition::<AppState>(None, None);
    assert_eq!(
        applied,
        AppliedTransition { kind: TransitionKind::NoOp, state: None, event: None }
    );
}

#[test]
fn same_value_is_a_no_op_for_every_value() {
    for value in [AppState::Loading, AppState::Ready, AppState::Paused] {
        let applied = internal_apply_state_transition(Some(value), Some(value));
        assert_eq!(applied.kind, TransitionKind::NoOp);
        assert_eq!(applied.state, Some(value));
        assert_eq!(applied.event, None);
    }
}

#[test]
fn every_pair_of_distinct_values_is_an_update() {
    let values = [AppState::Loading, AppState::Ready, AppState::Paused];
    for from in values {
        for to in values {
            if from == to {
                continue;
            }
            let applied = internal_apply_state_transition(Some(from), Some(to));
            assert_eq!(applied.kind, TransitionKind::Update);
            assert_eq!(applied.state, Some(to));
            assert_eq!(
                applied.event,
                Some(StateTransitionEvent { exited: Some(from), entered: Some(to) })
            );
        }
    }
}

#[test]
fn no_event_ever_lacks_both_values() {
    let cells = [None, Some(AppState::Loading), Some(AppState::Ready)];
    for current in cells {
        for requested in cells {
            let applied = internal_apply_state_transition(current, requested);
            match applied.event {
                Some(event) => {
                    assert!(event.exited.is_some() || event.entered.is_some());
                    assert_ne!(applied.kind, TransitionKind::NoOp);
                }
                None => assert_eq!(applied.kind, TransitionKind::NoOp),
            }
        }
    }
}

#[test]
fn cloned_values_reach_the_cell_and_the_event() {
    let applied = internal_apply_state_transition(
        Some(Level("cave".to_string())),
        Some(Level("tower".to_string())),
    );
    assert_eq!(applied.kind, TransitionKind::Update);
    assert_eq!(applied.state, Some(Level("tower".to_string())));
    assert_eq!(
        applied.event,
        Some(StateTransitionEvent {
            exited: Some(Level("cave".to_string())),
            entered: Some(Level("tower".to_string())),
        })
    );
}

#[test]
fn the_equality_of_the_state_type_decides() {
    let held = Tagged { number: 1, tag: "held" };
    let wanted = Tagged { number: 1, tag: "wanted" };
    let applied = internal_apply_state_transition(Some(held), Some(wanted));
    assert_eq!(applied.kind, TransitionKind::NoOp);
    assert!(applied.event.is_none());
    match applied.state {
        Some(state) => assert_eq!(state.tag, "held"),
        None => panic!("the cell was emptied"),
    }

    let other = Tagged { number: 2, tag: "held" };
    let applied =
        internal_apply_state_transition(Some(Tagged { number: 1, tag: "held" }), Some(other));
    assert_eq!(applied.kind, TransitionKind::Update);
    match applied.state {
        Some(state) => assert_eq!(state.number, 2),
        None => panic!("the cell was emptied"),
    }
}

#[test]
fn new_request_asks_for_nothing() {
    assert_eq!(PendingRequest::<AppState>::new(), PendingRequest::Unchanged);
}

#[test]
fn last_request_wins() {
    let mut pending = PendingRequest::new();
    pending.set(Some(AppState::Loading));
    pending.set(None);
    assert_eq!(pending, PendingRequest::Pending(None));

    let mut only_last = PendingRequest::new();
    only_last.set(None);
    assert_eq!(pending, only_last);

    let applied = apply_pending(Some(AppState::Ready), &mut pending);
    assert_eq!(
        applied,
        AppliedTransition {
            kind: TransitionKind::Remove,
            state: None,
            event: Some(StateTransitionEvent { exited: Some(AppState::Ready), entered: None }),
        }
    );
}

#[test]
fn insert_then_remove_before_the_cycle_leaves_an_empty_cell_alone() {
    let mut pending = PendingRequest::new();
    pending.set(Some(AppState::Loading));
    pending.set(None);
    let applied = apply_pending(None, &mut pending);
    assert_eq!(
        applied,
        AppliedTransition { kind: TransitionKind::NoOp, state: None, event: None }
    );
}

#[test]
fn several_writes_coalesce_to_the_last_value() {
    let mut pending = PendingRequest::new();
    pending.set(Some(AppState::Loading));
    pending.set(Some(AppState::Paused));
    pending.set(Some(AppState::Ready));
    let applied = apply_pending(Some(AppState::Loading), &mut pending);
    assert_eq!(applied.kind, TransitionKind::Update);
    assert_eq!(
        applied.event,
        Some(StateTransitionEvent {
            exited: Some(AppState::Loading),
            entered: Some(AppState::Ready),
        })
    );
}

#[test]
fn applying_resets_the_request() {
    let mut pending = PendingRequest::new();
    pending.set(Some(AppState::Ready));
    let first = apply_pending(None, &mut pending);
    assert_eq!(first.kind, TransitionKind::Insert);
    assert_eq!(pending, PendingRequest::Unchanged);

    let second = apply_pending(first.state, &mut pending);
    assert_eq!(
        second,
        AppliedTransition {
            kind: TransitionKind::NoOp,
            state: Some(AppState::Ready),
            event: None,
        }
    );
    assert_eq!(pending, PendingRequest::Unchanged);
}

#[test]
fn no_request_is_not_a_removal() {
    let mut nothing = PendingRequest::new();
    let kept = apply_pending(Some(AppState::Ready), &mut nothing);
    assert_eq!(kept.kind, TransitionKind::NoOp);
    assert_eq!(kept.state, Some(AppState::Ready));

    let mut removal = PendingRequest::new();
    removal.set(None);
    let removed = apply_pending(Some(AppState::Ready), &mut removal);
    assert_eq!(removed.kind, TransitionKind::Remove);
    assert_eq!(removed.state, None);
}

#[test]
fn take_hands_out_the_request_and_resets_it() {
    let mut pending = PendingRequest::new();
    pending.set(Some(AppState::Paused));
    let taken = pending.take();
    assert_eq!(taken, PendingRequest::Pending(Some(AppState::Paused)));
    assert_eq!(pending, PendingRequest::Unchanged);
    assert_eq!(pending.take(), PendingRequest::Unchanged);
}

#[test]
fn last_transition_of_no_events_is_none() {
    assert_eq!(last_transition::<AppState>(Vec::new()), None);
}

#[test]
fn last_transition_of_one_event_is_that_event() {
    let event = StateTransitionEvent { exited: None, entered: Some(AppState::Loading) };
    assert_eq!(last_transition(vec![event]), Some(event));
}

#[test]
fn last_transition_keeps_only_the_latest_event() {
    let first = StateTransitionEvent { exited: None, entered: Some(AppState::Loading) };
    let second =
        StateTransitionEvent { exited: Some(AppState::Loading), entered: Some(AppState::Ready) };
    let third = StateTransitionEvent { exited: Some(AppState::Ready), entered: None };
    assert_eq!(last_transition(vec![first, second, third]), Some(third));
    assert_eq!(last_transition(vec![third, first, second]), Some(second));
}
