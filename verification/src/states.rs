//! The types whose values are the states of a state machine.

use vstd::prelude::*;
use vstd::std_specs::cmp::PartialEqSpec;

verus! {

/// A type whose values are the states of one state machine.
///
/// State machines are told apart by their type: two of them never share a
/// cell, a request, an event channel or a schedule, even where their values
/// look alike.
pub trait States:
    'static + Send + Sync + Clone + PartialEq + Eq + core::hash::Hash + core::fmt::Debug
{
}

/// Whether `==` on `S` returns what the equality that `S` defines says.
pub open spec fn equality_specified<S: States>() -> bool {
    S::obeys_eq_spec()
}

/// Whether `left == right` holds by the equality that `S` defines.
pub open spec fn same_state<S: States>(left: S, right: S) -> bool {
    left.eq_spec(&right)
}

/// Whether `copy` holds a clone of what `value` holds: that value itself or
/// something that a call of `clone` on it may return. Two empty options hold
/// clones of each other.
pub open spec fn clone_of<S: States>(value: Option<S>, copy: Option<S>) -> bool {
    match (value, copy) {
        (Some(held), Some(cloned_value)) => cloned(held, cloned_value),
        (None, None) => true,
        _ => false,
    }
}

} // verus!
