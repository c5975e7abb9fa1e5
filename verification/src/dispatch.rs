//! Which schedules a transition dispatches, and in which order.

use vstd::prelude::*;
use crate::event::StateTransitionEvent;
use crate::labels::{OnEnter, OnExit, OnTransition, TransitionLabel};
use crate::states::States;
use crate::steps::StateTransitionSteps;

verus! {

/// The label of the schedule to run for the value that `transition` left.
pub open spec fn exit_label<S: States>(transition: Option<StateTransitionEvent<S>>) -> Option<
    OnExit<S>,
> {
    match transition {
        Some(StateTransitionEvent { exited: Some(exited), entered: _ }) => Some(OnExit(exited)),
        _ => None,
    }
}

/// The label of the schedule to run for the exact transition that
/// `transition` records.
pub open spec fn transition_label<S: States>(transition: Option<StateTransitionEvent<S>>)
    -> Option<OnTransition<S>> {
    match transition {
        Some(StateTransitionEvent { exited: Some(exited), entered: Some(entered) }) => Some(
            OnTransition { exited, entered },
        ),
        _ => None,
    }
}

/// The label of the schedule to run for the value that `transition` entered.
pub open spec fn enter_label<S: States>(transition: Option<StateTransitionEvent<S>>) -> Option<
    OnEnter<S>,
> {
    match transition {
        Some(StateTransitionEvent { exited: _, entered: Some(entered) }) => Some(OnEnter(entered)),
        _ => None,
    }
}

/// Says which schedule to run for the value that was entered, given the
/// latest transition of `S` in this cycle, if there was one.
pub fn run_enter<S: States>(transition: Option<StateTransitionEvent<S>>) -> (label: Option<
    OnEnter<S>,
>)
    requires
        transition matches Some(event) ==> event.wf(),
    ensures
        label == enter_label(transition),
{
    let Some(transition) = transition else {
        return None;
    };
    let Some(entered) = transition.entered else {
        return None;
    };
    Some(OnEnter(entered))
}

/// Says which schedule to run for the value that was left, given the latest
/// transition of `S` in this cycle, if there was one.
pub fn run_exit<S: States>(transition: Option<StateTransitionEvent<S>>) -> (label: Option<
    OnExit<S>,
>)
    requires
        transition matches Some(event) ==> event.wf(),
    ensures
        label == exit_label(transition),
{
    let Some(transition) = transition else {
        return None;
    };
    let Some(exited) = transition.exited else {
        return None;
    };
    Some(OnExit(exited))
}

/// Says which schedule to run for the exact transition, given the latest
/// transition of `S` in this cycle, if there was one. Switching the state
/// machine on or off is no transition from one value to another.
pub fn run_transition<S: States>(transition: Option<StateTransitionEvent<S>>) -> (label: Option<
    OnTransition<S>,
>)
    requires
        transition matches Some(event) ==> event.wf(),
    ensures
        label == transition_label(transition),
{
    let Some(transition) = transition else {
        return None;
    };
    let Some(exited) = transition.exited else {
        return None;
    };
    let Some(entered) = transition.entered else {
        return None;
    };
    Some(OnTransition { exited, entered })
}

/// The schedule that the step `step` of a cycle dispatches for `transition`.
/// The first two steps apply transitions and dispatch nothing.
pub open spec fn label_at<S: States>(
    step: StateTransitionSteps,
    transition: Option<StateTransitionEvent<S>>,
) -> Option<TransitionLabel<S>> {
    match step {
        StateTransitionSteps::RootTransitions | StateTransitionSteps::DependentTransitions => None,
        StateTransitionSteps::ExitSchedules => match exit_label(transition) {
            Some(label) => Some(TransitionLabel::Exit(label)),
            None => None,
        },
        StateTransitionSteps::TransitionSchedules => match transition_label(transition) {
            Some(label) => Some(TransitionLabel::Transition(label)),
            None => None,
        },
        StateTransitionSteps::EnterSchedules => match enter_label(transition) {
            Some(label) => Some(TransitionLabel::Enter(label)),
            None => None,
        },
    }
}

/// Says which schedule the step `step` of a cycle runs, given the latest
/// transition of `S` in this cycle, if there was one.
pub fn run_step<S: States>(
    step: StateTransitionSteps,
    transition: Option<StateTransitionEvent<S>>,
) -> (label: Option<TransitionLabel<S>>)
    requires
        transition matches Some(event) ==> event.wf(),
    ensures
        label == label_at(step, transition),
{
    match step {
        StateTransitionSteps::RootTransitions => None,
        StateTransitionSteps::DependentTransitions => None,
        StateTransitionSteps::ExitSchedules => match run_exit(transition) {
            Some(label) => Some(TransitionLabel::Exit(label)),
            None => None,
        },
        StateTransitionSteps::TransitionSchedules => match run_transition(transition) {
            Some(label) => Some(TransitionLabel::Transition(label)),
            None => None,
        },
        StateTransitionSteps::EnterSchedules => match run_enter(transition) {
            Some(label) => Some(TransitionLabel::Enter(label)),
            None => None,
        },
    }
}

/// The schedules that running `steps` one after the other dispatches for
/// `transition`, in the order in which they run.
pub open spec fn dispatched_by<S: States>(
    steps: Seq<StateTransitionSteps>,
    transition: Option<StateTransitionEvent<S>>,
) -> Seq<TransitionLabel<S>>
    decreases steps.len(),
{
    if steps.len() == 0 {
        Seq::empty()
    } else {
        let before = dispatched_by(steps.drop_last(), transition);
        match label_at(steps.last(), transition) {
            Some(label) => before.push(label),
            None => before,
        }
    }
}

/// The schedules that one cycle dispatches for `transition`, in the order in
/// which they run.
pub open spec fn cycle_dispatch<S: States>(transition: Option<StateTransitionEvent<S>>) -> Seq<
    TransitionLabel<S>,
> {
    dispatched_by(StateTransitionSteps::chain(), transition)
}

/// Running one more step after `steps` adds what that step dispatches, if
/// anything, behind what `steps` dispatched.
proof fn lemma_dispatched_by_push<S: States>(
    steps: Seq<StateTransitionSteps>,
    step: StateTransitionSteps,
    transition: Option<StateTransitionEvent<S>>,
)
    ensures
        dispatched_by(steps.push(step), transition) == match label_at(step, transition) {
            Some(label) => dispatched_by(steps, transition).push(label),
            None => dispatched_by(steps, transition),
        },
{
    assert(steps.push(step).drop_last() =~= steps);
    assert(steps.push(step).last() == step);
}

/// A cycle dispatches, in this order: the schedule of the value that was
/// left, that of the exact transition, that of the value that was entered;
/// each only where the transition has it, and nothing where there was no
/// transition.
pub proof fn lemma_cycle_dispatch<S: States>(transition: Option<StateTransitionEvent<S>>)
    ensures
        cycle_dispatch(transition) == match transition {
            None => Seq::<TransitionLabel<S>>::empty(),
            Some(StateTransitionEvent { exited: None, entered: None }) => Seq::empty(),
            Some(StateTransitionEvent { exited: None, entered: Some(entered) }) => seq![
                TransitionLabel::Enter(OnEnter(entered)),
            ],
            Some(StateTransitionEvent { exited: Some(exited), entered: None }) => seq![
                TransitionLabel::Exit(OnExit(exited)),
            ],
            Some(StateTransitionEvent { exited: Some(exited), entered: Some(entered) }) => seq![
                TransitionLabel::Exit(OnExit(exited)),
                TransitionLabel::Transition(OnTransition { exited, entered }),
                TransitionLabel::Enter(OnEnter(entered)),
            ],
        },
{
    let none = Seq::<StateTransitionSteps>::empty();
    let one = none.push(StateTransitionSteps::RootTransitions);
    let two = one.push(StateTransitionSteps::DependentTransitions);
    let three = two.push(StateTransitionSteps::ExitSchedules);
    let four = three.push(StateTransitionSteps::TransitionSchedules);
    let five = four.push(StateTransitionSteps::EnterSchedules);
    assert(five =~= StateTransitionSteps::chain());
    assert(dispatched_by(none, transition) =~= Seq::<TransitionLabel<S>>::empty());
    lemma_dispatched_by_push(none, StateTransitionSteps::RootTransitions, transition);
    lemma_dispatched_by_push(one, StateTransitionSteps::DependentTransitions, transition);
    lemma_dispatched_by_push(two, StateTransitionSteps::ExitSchedules, transition);
    lemma_dispatched_by_push(three, StateTransitionSteps::TransitionSchedules, transition);
    lemma_dispatched_by_push(four, StateTransitionSteps::EnterSchedules, transition);
    assert(cycle_dispatch(transition) =~= match transition {
        None => Seq::<TransitionLabel<S>>::empty(),
        Some(StateTransitionEvent { exited: None, entered: None }) => Seq::empty(),
        Some(StateTransitionEvent { exited: None, entered: Some(entered) }) => seq![
            TransitionLabel::Enter(OnEnter(entered)),
        ],
        Some(StateTransitionEvent { exited: Some(exited), entered: None }) => seq![
            TransitionLabel::Exit(OnExit(exited)),
        ],
        Some(StateTransitionEvent { exited: Some(exited), entered: Some(entered) }) => seq![
            TransitionLabel::Exit(OnExit(exited)),
            TransitionLabel::Transition(OnTransition { exited, entered }),
            TransitionLabel::Enter(OnEnter(entered)),
        ],
    });
}

/// Where a state machine goes from `exited` to `entered`, the schedule of
/// leaving `exited` runs first, then that of the transition from `exited` to
/// `entered`, then that of entering `entered`, and nothing else.
pub proof fn lemma_exit_then_transition_then_enter<S: States>(exited: S, entered: S)
    ensures
        cycle_dispatch(Some(StateTransitionEvent { exited: Some(exited), entered: Some(entered) }))
            == seq![
            TransitionLabel::Exit(OnExit(exited)),
            TransitionLabel::Transition(OnTransition { exited, entered }),
            TransitionLabel::Enter(OnEnter(entered)),
        ],
{
    lemma_cycle_dispatch(Some(StateTransitionEvent { exited: Some(exited), entered: Some(entered) }));
}

} // verus!
