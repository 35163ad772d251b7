//! The effects that flooding consensus asks its host to perform.

use vstd::prelude::*;

use crate::algorithm::{Action, Value};
use crate::process::Process;

use super::context::FloodingContext;
use super::message::FloodingMessage;
use super::state::FloodingState;

verus! {

/// An effect for the host to apply. The host applies the actions of one transition in the
/// order in which they are listed.
#[derive(Clone, Debug, PartialEq, Eq)]
pub enum FloodingAction<P, V> where P: Process, V: Value {
    /// Replace the stored context by this one, before anything else is done.
    UpdateContext(FloodingContext<P, V>),
    /// Send the message to every process of the membership that the instance started with.
    Broadcast(FloodingMessage<V>),
    /// Tell the application that consensus has been reached on the value.
    Decide(V),
}

impl<P, V> Action for FloodingAction<P, V> where P: Process, V: Value {}

impl<P, V> FloodingAction<P, V> where P: Process, V: Value {
    /// Whether the action stores a context that stands for `state`.
    pub open spec fn stores(self, state: FloodingState<P, V>) -> bool {
        match self {
            FloodingAction::UpdateContext(context) => context@ == state,
            _ => false,
        }
    }

    /// Whether the action broadcasts clones of `values` as the proposals of `round`.
    pub open spec fn floods(self, round: nat, values: Seq<V>) -> bool {
        match self {
            FloodingAction::Broadcast(message) => message.floods(round, values),
            _ => false,
        }
    }

    /// Whether the action broadcasts a clone of `value` as decided.
    pub open spec fn announces(self, value: V) -> bool {
        match self {
            FloodingAction::Broadcast(message) => message.announces(value),
            _ => false,
        }
    }
}

} // verus!
