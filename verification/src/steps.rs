//! The steps of one transition cycle and the order in which they run.

use vstd::prelude::*;
use core::marker::PhantomData;
use crate::states::States;

verus! {

/// The steps of the state-transition schedule.
///
/// They run one after the other, in the order of the variants.
#[derive(Clone, Copy, Debug, PartialEq, Eq, Hash, Structural)]
pub enum StateTransitionSteps {
    /// States that are driven by requests alone are applied.
    RootTransitions,
    /// States that are derived from other states are recomputed and applied.
    DependentTransitions,
    /// The schedules of the values that were left run.
    ExitSchedules,
    /// The schedules of the exact transitions that happened run.
    TransitionSchedules,
    /// The schedules of the values that were entered run.
    EnterSchedules,
}

impl StateTransitionSteps {
    /// The place of this step in a cycle, counted from zero.
    pub open spec fn rank(self) -> nat {
        match self {
            StateTransitionSteps::RootTransitions => 0,
            StateTransitionSteps::DependentTransitions => 1,
            StateTransitionSteps::ExitSchedules => 2,
            StateTransitionSteps::TransitionSchedules => 3,
            StateTransitionSteps::EnterSchedules => 4,
        }
    }

    /// The steps of a cycle in the order in which they run.
    pub open spec fn chain() -> Seq<StateTransitionSteps> {
        seq![
            StateTransitionSteps::RootTransitions,
            StateTransitionSteps::DependentTransitions,
            StateTransitionSteps::ExitSchedules,
            StateTransitionSteps::TransitionSchedules,
            StateTransitionSteps::EnterSchedules,
        ]
    }

    /// Whether this step runs, and has run to its end, before `later` starts.
    pub open spec fn precedes(self, later: StateTransitionSteps) -> bool {
        self.rank() < later.rank()
    }

    /// The place of this step in a cycle, counted from zero.
    pub fn position(&self) -> (place: usize)
        ensures
            place == self.rank(),
    {
        match self {
            StateTransitionSteps::RootTransitions => 0,
            StateTransitionSteps::DependentTransitions => 1,
            StateTransitionSteps::ExitSchedules => 2,
            StateTransitionSteps::TransitionSchedules => 3,
            StateTransitionSteps::EnterSchedules => 4,
        }
    }

    /// The steps of a cycle in the order in which they are chained.
    pub fn ordered() -> (steps: Vec<StateTransitionSteps>)
        ensures
            steps@ == Self::chain(),
    {
        let mut steps = Vec::new();
        steps.push(StateTransitionSteps::RootTransitions);
        steps.push(StateTransitionSteps::DependentTransitions);
        steps.push(StateTransitionSteps::ExitSchedules);
        steps.push(StateTransitionSteps::TransitionSchedules);
        steps.push(StateTransitionSteps::EnterSchedules);
        assert(steps@ =~= Self::chain());
        steps
    }
}

/// Defines the place at which a state machine of type `S` that is derived
/// from others is recomputed and applied: in the step of the dependent
/// transitions, so after every root transition and before any schedule runs.
#[derive(Debug, PartialEq, Eq, Hash)]
pub struct ApplyStateTransition<S: States>(PhantomData<S>);

impl<S: States> Clone for ApplyStateTransition<S> {
    fn clone(&self) -> (copy: Self)
        ensures
            copy == *self,
    {
        ApplyStateTransition(PhantomData)
    }
}

impl<S: States> ApplyStateTransition<S> {
    /// The marker of the state machine `S`.
    pub closed spec fn marker() -> Self {
        ApplyStateTransition(PhantomData)
    }

    /// A marker holds nothing but the type `S`: any two of them are equal.
    pub proof fn lemma_one_marker(one: Self, other: Self)
        ensures
            one == other,
    {
    }

    /// The marker of the state machine `S`.
    pub fn apply() -> (marker: Self)
        ensures
            marker == Self::marker(),
    {
        ApplyStateTransition(PhantomData)
    }

    /// The step in which what this marker stands for runs.
    pub open spec fn step_spec(self) -> StateTransitionSteps {
        StateTransitionSteps::DependentTransitions
    }

    /// The step in which what this marker stands for runs. It comes after
    /// the root transitions and before the exit schedules.
    pub fn step(&self) -> (step: StateTransitionSteps)
        ensures
            step == self.step_spec(),
            StateTransitionSteps::RootTransitions.precedes(step),
            step.precedes(StateTransitionSteps::ExitSchedules),
    {
        StateTransitionSteps::DependentTransitions
    }
}

/// The chain holds every step once, at the place that its rank gives, so of
/// two steps the one that stands earlier in the chain has the lower rank and
/// has run to its end before the other starts.
pub proof fn lemma_chain_follows_rank()
    ensures
        StateTransitionSteps::chain().len() == 5,
        forall|step: StateTransitionSteps|
            #![trigger step.rank()]
            step.rank() < 5 && StateTransitionSteps::chain()[step.rank() as int] == step,
        forall|i: int, j: int|
            #![trigger StateTransitionSteps::chain()[i], StateTransitionSteps::chain()[j]]
            0 <= i < j < 5 ==> StateTransitionSteps::chain()[i].precedes(
                StateTransitionSteps::chain()[j],
            ),
{
}

/// Every root transition has been applied before a state machine that is
/// derived from others is recomputed, whatever the type of either, and every
/// derived one has been applied before the first schedule runs.
pub proof fn lemma_root_before_dependent<S: States>(marker: ApplyStateTransition<S>)
    ensures
        StateTransitionSteps::RootTransitions.precedes(marker.step_spec()),
        marker.step_spec().precedes(StateTransitionSteps::ExitSchedules),
        marker.step_spec().precedes(StateTransitionSteps::TransitionSchedules),
        marker.step_spec().precedes(StateTransitionSteps::EnterSchedules),
{
}

} // verus!
