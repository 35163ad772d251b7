//! What a participant keeps beside the fields that every process has.

use vstd::prelude::*;

use crate::process::Process;
use crate::time::Time;

verus! {

/// The states of a participant.
#[derive(Clone, Copy, Debug, PartialEq)]
pub enum ParticipantState<T> where T: Time {
    /// The epoch has ended with an abort.
    Abort,
    /// The epoch has ended with a commit.
    Commit,
    /// The participant has sent the given vote and waits for the decision since the given
    /// time.
    Voted { vote: bool, decision_timeout_start: T },
    /// The participant waits for the coordinator to ask for its vote.
    WaitingForVoteRequest,
    /// The participant waits for the application to vote.
    WaitingForVote,
}

/// The part of a context that only a participant has.
#[derive(Clone)]
pub struct ParticipantContext<P, T> where P: Process, T: Time {
    /// All participating processes.
    pub participant_processes: Vec<P>,
    /// The state of the participant.
    pub state: ParticipantState<T>,
}

} // verus!
