//! Installing the schedule that runs state transitions.

use vstd::prelude::*;
use crate::labels::StateTransition;
use crate::steps::StateTransitionSteps;

verus! {

/// The schedule that runs state transitions: the label under which it is
/// registered and its steps, each chained behind the one before it.
#[derive(Debug, Clone, PartialEq, Eq)]
pub struct TransitionSchedule {
    /// The label under which the schedule is registered.
    pub label: StateTransition,
    /// The steps, in the order in which they run.
    pub steps: Vec<StateTransitionSteps>,
}

impl View for TransitionSchedule {
    type V = Seq<StateTransitionSteps>;

    open spec fn view(&self) -> Seq<StateTransitionSteps> {
        self.steps@
    }
}

impl TransitionSchedule {
    /// The schedule with the five steps of a cycle, chained in their order.
    pub fn new() -> (schedule: Self)
        ensures
            schedule@ == StateTransitionSteps::chain(),
    {
        TransitionSchedule { label: StateTransition, steps: StateTransitionSteps::ordered() }
    }
}

/// What setting up state transitions adds to a world.
#[derive(Debug, Clone, PartialEq, Eq)]
pub struct Setup<L> {
    /// The schedule to register.
    pub schedule: TransitionSchedule,
    /// The startup schedule that is to run the transitions once, so that the
    /// first states hold before the first regular cycle.
    pub startup: Option<L>,
}

/// Decides what setting up has to add to a world: nothing where the schedule
/// that runs state transitions is `registered` already, else that schedule
/// and, where a startup label is given, one run of it at startup.
pub fn plan_setup<L>(registered: bool, startup_label: Option<L>) -> (plan: Option<Setup<L>>)
    ensures
        registered ==> plan is None,
        !registered ==> plan is Some && plan->0.schedule@ == StateTransitionSteps::chain()
            && plan->0.startup == startup_label,
{
    if registered {
        return None;
    }
    Some(Setup { schedule: TransitionSchedule::new(), startup: startup_label })
}

/// What a world holds of state transitions: the schedules registered to run
/// them, and the startup schedules, by their labels of type `L`, that run
/// them once.
#[derive(Debug, Clone, PartialEq, Eq)]
pub struct WorldSchedules<L> {
    /// The schedules registered under [`StateTransition`].
    pub transition_schedules: Vec<TransitionSchedule>,
    /// The labels of the startup schedules that run the transitions once.
    pub startup_runs: Vec<L>,
}

/// A [`WorldSchedules`] seen as sequences.
#[verifier::ext_equal]
pub struct WorldSchedulesView<L> {
    /// The registered schedules, each as the chain of its steps.
    pub transition_schedules: Seq<Seq<StateTransitionSteps>>,
    /// The labels of the startup schedules that run the transitions once.
    pub startup_runs: Seq<L>,
}

impl<L> WorldSchedulesView<L> {
    /// How many schedules are registered to run state transitions.
    pub open spec fn registrations(self) -> nat {
        self.transition_schedules.len()
    }

    /// A world has at most one schedule under one label.
    pub open spec fn wf(self) -> bool {
        self.registrations() <= 1
    }

    /// The world after state transitions were set up in it: unchanged where
    /// their schedule was registered already; else with that schedule, of the
    /// five steps in their order, and with `startup_label`, where one is
    /// given, among the startup schedules that run the transitions once.
    pub open spec fn after_setup(self, startup_label: Option<L>) -> Self {
        if self.registrations() > 0 {
            self
        } else {
            WorldSchedulesView {
                transition_schedules: self.transition_schedules.push(
                    StateTransitionSteps::chain(),
                ),
                startup_runs: match startup_label {
                    Some(label) => self.startup_runs.push(label),
                    None => self.startup_runs,
                },
            }
        }
    }
}

impl<L> View for WorldSchedules<L> {
    type V = WorldSchedulesView<L>;

    open spec fn view(&self) -> WorldSchedulesView<L> {
        WorldSchedulesView {
            transition_schedules: self.transition_schedules@.map_values(
                |schedule: TransitionSchedule| schedule@,
            ),
            startup_runs: self.startup_runs@,
        }
    }
}

impl<L> WorldSchedules<L> {
    /// A world in which nothing is registered.
    pub fn new() -> (world: Self)
        ensures
            world@.transition_schedules == Seq::<Seq<StateTransitionSteps>>::empty(),
            world@.startup_runs == Seq::<L>::empty(),
    {
        WorldSchedules { transition_schedules: Vec::new(), startup_runs: Vec::new() }
    }

    /// Whether the schedule that runs state transitions is registered.
    pub fn contains_state_transition(&self) -> (registered: bool)
        ensures
            registered == (self@.registrations() > 0),
    {
        self.transition_schedules.len() > 0
    }
}

/// Sets up the schedule that runs state transitions in `world`.
///
/// Does nothing where that schedule is registered already, so it may be
/// called from any number of places. Else it registers the schedule, with
/// the five steps chained in their order, and, where `startup_label` is
/// given, has that startup schedule run the transitions once.
pub fn setup_state_transitions_in_world<L>(
    world: &mut WorldSchedules<L>,
    startup_label: Option<L>,
)
    ensures
        final(world)@ == old(world)@.after_setup(startup_label),
{
    let registered = world.contains_state_transition();
    match plan_setup(registered, startup_label) {
        None => {},
        Some(setup) => {
            world.transition_schedules.push(setup.schedule);
            if let Some(startup) = setup.startup {
                world.startup_runs.push(startup);
            }
            assert(world@.transition_schedules =~= old(world)@.transition_schedules.push(
                StateTransitionSteps::chain(),
            ));
        },
    }
}

/// Setting up twice is setting up once: the second call changes nothing,
/// whatever startup label it is given, and a world that was set up holds one
/// schedule that runs state transitions, not two.
pub proof fn lemma_setup_is_idempotent<L>(
    world: WorldSchedulesView<L>,
    first: Option<L>,
    second: Option<L>,
)
    requires
        world.wf(),
    ensures
        world.after_setup(first).after_setup(second) == world.after_setup(first),
        world.after_setup(first).registrations() == 1,
        world.after_setup(first).wf(),
{
}

} // verus!
