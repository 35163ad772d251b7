//! The messages that processes flood to each other.

use vstd::prelude::*;

use crate::algorithm::Value;
use crate::message::Message;

use super::Round;

verus! {

/// A message of flooding consensus.
#[derive(Clone, Debug, PartialEq, Eq)]
pub enum FloodingMessage<V> where V: Value {
    /// The proposals that the sender knows of, flooded for the given round.
    Proposal(Round, Vec<V>),
    /// The sender has decided on the value.
    Decided(V),
}

impl<V> Message for FloodingMessage<V> where V: Value {}

/// Whether `copies` holds, place by place, a clone of each value of `values`.
pub open spec fn cloned_values<V: Clone>(values: Seq<V>, copies: Seq<V>) -> bool {
    &&& copies.len() == values.len()
    &&& forall|i: int| 0 <= i < values.len() ==> cloned(#[trigger] values[i], copies[i])
}

impl<V> FloodingMessage<V> where V: Value {
    /// Whether the message floods clones of `values` for `round`.
    pub open spec fn floods(self, round: nat, values: Seq<V>) -> bool {
        match self {
            FloodingMessage::Proposal(r, copies) => r == round && cloned_values(values, copies@),
            FloodingMessage::Decided(_) => false,
        }
    }

    /// Whether the message announces a clone of `value` as decided.
    pub open spec fn announces(self, value: V) -> bool {
        match self {
            FloodingMessage::Proposal(_, _) => false,
            FloodingMessage::Decided(copy) => cloned(value, copy),
        }
    }
}

} // verus!
