//! Two-phase commit: the contexts that a coordinator and its participants keep.

use vstd::prelude::*;

pub mod coordinator_context;
pub mod participant_context;
pub mod unified_context;
pub mod unified_state;

pub use coordinator_context::{CoordinatorContext, CoordinatorState, Participant};
pub use participant_context::{ParticipantContext, ParticipantState};
pub use unified_context::{
    TwoPhaseCommitContext, TwoPhaseCommitContextBuilder, TwoPhaseCommitRoleContext,
};
pub use unified_state::TwoPhaseCommitState;

verus! {

/// The number of a commit attempt. Each attempt runs in an epoch of its own.
pub type Epoch = u64;

} // verus!
