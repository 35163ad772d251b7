//! Agreement algorithms and the contract that the host drives them through.

use vstd::prelude::*;

use crate::error::InternalError;
use crate::process::Process;

pub mod flooding;
pub mod two_phase_commit;

verus! {

/// Marker for the effects an algorithm asks its host to perform.
pub trait Action {}

/// Marker for the state an algorithm threads through its transitions.
pub trait Context {}

/// A payload that is proposed and decided. Algorithms only ever clone it.
pub trait Value: Clone {}

/// Whether every clone of a value of `V` is equal to the value it was made from.
pub open spec fn clone_is_faithful<V: Clone>() -> bool {
    forall|value: V, copy: V| #[trigger] cloned(value, copy) ==> value == copy
}

/// A round-based agreement algorithm: a pure function from an event and the current context
/// to the ordered list of actions that the host must apply.
pub trait Algorithm<P> where P: Process {
    type Event;

    type Action;

    type Context;

    /// The events and contexts on which the algorithm can be run.
    spec fn accepts(&self, event: Self::Event, context: Self::Context) -> bool;

    /// Runs one transition.
    fn event(&self, event: Self::Event, context: Self::Context) -> (result: Result<
        Vec<Self::Action>,
        InternalError,
    >)
        requires
            self.accepts(event, context),
    ;
}

} // verus!
