//! What a coordinator keeps beside the fields that every process has.

use vstd::prelude::*;

use crate::process::Process;
use crate::time::Time;

verus! {

/// A participant as its coordinator sees it.
#[derive(Clone, Debug, PartialEq)]
pub struct Participant<P> {
    /// The participating process.
    pub process: P,
    /// The vote of the process in the current epoch, once it has arrived.
    pub vote: Option<bool>,
}

impl<P> Participant<P> {
    /// A participant that has not voted yet.
    pub fn new(process: P) -> (participant: Self)
        ensures
            participant == (Participant { process, vote: None }),
    {
        Participant { process, vote: None }
    }
}

/// The states of a coordinator.
#[derive(Clone, Copy, Debug, PartialEq)]
pub enum CoordinatorState<T> where T: Time {
    /// The epoch has ended with an abort.
    Abort,
    /// The epoch has ended with a commit.
    Commit,
    /// Votes have been asked for at the given time.
    Voting { vote_timeout_start: T },
    /// The coordinator waits for the application to start the next epoch.
    WaitingForStart,
    /// The coordinator waits for its own vote.
    WaitingForVote,
}

/// The part of a context that only a coordinator has.
#[derive(Clone)]
pub struct CoordinatorContext<P, T> where P: Process, T: Time {
    /// The participants and their votes.
    pub participants: Vec<Participant<P>>,
    /// The state of the coordinator.
    pub state: CoordinatorState<T>,
}

} // verus!
