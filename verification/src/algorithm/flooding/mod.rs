//! Flooding consensus: processes flood their proposals round by round until the set of
//! respondents stabilizes, then decide with a deterministic selection function.

use vstd::prelude::*;

pub mod action;
pub mod algorithm;
pub mod consensus;
pub mod context;
pub mod event;
pub mod invariants;
pub mod message;
pub mod state;

pub use action::FloodingAction;
pub use algorithm::FloodingAlgorithm;
pub use consensus::{FloodingConsensus, FloodingConsensusMessage, PerfectFailureDetectorReceiver};
pub use context::FloodingContext;
pub use event::FloodingEvent;
pub use message::FloodingMessage;
pub use state::FloodingState;

verus! {

/// A round of the protocol. Rounds are counted from 1; round 0 only seeds the comparison
/// made in round 1.
pub type Round = usize;

} // verus!
