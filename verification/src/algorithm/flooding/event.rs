//! The events that the host feeds to flooding consensus.

use vstd::prelude::*;

use crate::algorithm::Value;
use crate::process::Process;

use super::message::FloodingMessage;

verus! {

/// An input to the algorithm.
#[derive(Clone, Debug, PartialEq, Eq)]
pub enum FloodingEvent<P, V> where P: Process, V: Value {
    /// The failure detector reports the process as crashed.
    Crash(P),
    /// A message from the process has arrived.
    Deliver(P, FloodingMessage<V>),
    /// The local application submits a value.
    Propose(V),
}

} // verus!
