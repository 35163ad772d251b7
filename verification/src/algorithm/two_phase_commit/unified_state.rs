//! The states of two-phase commit, whatever the role of the process.

use vstd::prelude::*;
use vstd::std_specs::convert::{FromSpecImpl, TryFromSpecImpl};

use crate::error::InvalidStateError;
use crate::time::Time;

use super::coordinator_context::CoordinatorState;
use super::participant_context::ParticipantState;

verus! {

/// A state of a coordinator or of a participant.
#[derive(Clone, Copy, Debug, PartialEq)]
pub enum TwoPhaseCommitState<T> where T: Time {
    /// The epoch has ended with an abort.
    Abort,
    /// The epoch has ended with a commit.
    Commit,
    /// A participant has sent the given vote and waits for the decision since the given time.
    Voted { vote: bool, decision_timeout_start: T },
    /// A coordinator has asked for votes at the given time.
    Voting { vote_timeout_start: T },
    /// A coordinator waits for the application to start the next epoch.
    WaitingForStart,
    /// A participant waits for the coordinator to ask for its vote.
    WaitingForVoteRequest,
    /// The process waits for the application to vote.
    WaitingForVote,
}

impl<T> TwoPhaseCommitState<T> where T: Time {
    /// The state as that of a coordinator, if a coordinator can be in it.
    pub open spec fn as_coordinator(self) -> Option<CoordinatorState<T>> {
        match self {
            TwoPhaseCommitState::Abort => Some(CoordinatorState::Abort),
            TwoPhaseCommitState::Commit => Some(CoordinatorState::Commit),
            TwoPhaseCommitState::Voting { vote_timeout_start } => Some(
                CoordinatorState::Voting { vote_timeout_start },
            ),
            TwoPhaseCommitState::WaitingForStart => Some(CoordinatorState::WaitingForStart),
            TwoPhaseCommitState::WaitingForVote => Some(CoordinatorState::WaitingForVote),
            _ => None,
        }
    }

    /// The state as that of a participant, if a participant can be in it.
    pub open spec fn as_participant(self) -> Option<ParticipantState<T>> {
        match self {
            TwoPhaseCommitState::Abort => Some(ParticipantState::Abort),
            TwoPhaseCommitState::Commit => Some(ParticipantState::Commit),
            TwoPhaseCommitState::Voted { vote, decision_timeout_start } => Some(
                ParticipantState::Voted { vote, decision_timeout_start },
            ),
            TwoPhaseCommitState::WaitingForVoteRequest => Some(
                ParticipantState::WaitingForVoteRequest,
            ),
            TwoPhaseCommitState::WaitingForVote => Some(ParticipantState::WaitingForVote),
            _ => None,
        }
    }
}

impl<T> CoordinatorState<T> where T: Time {
    /// The state as a state of either role.
    pub open spec fn unified(self) -> TwoPhaseCommitState<T> {
        match self {
            CoordinatorState::Abort => TwoPhaseCommitState::Abort,
            CoordinatorState::Commit => TwoPhaseCommitState::Commit,
            CoordinatorState::Voting { vote_timeout_start } => TwoPhaseCommitState::Voting {
                vote_timeout_start,
            },
            CoordinatorState::WaitingForStart => TwoPhaseCommitState::WaitingForStart,
            CoordinatorState::WaitingForVote => TwoPhaseCommitState::WaitingForVote,
        }
    }
}

impl<T> ParticipantState<T> where T: Time {
    /// The state as a state of either role.
    pub open spec fn unified(self) -> TwoPhaseCommitState<T> {
        match self {
            ParticipantState::Abort => TwoPhaseCommitState::Abort,
            ParticipantState::Commit => TwoPhaseCommitState::Commit,
            ParticipantState::Voted { vote, decision_timeout_start } => TwoPhaseCommitState::Voted {
                vote,
                decision_timeout_start,
            },
            ParticipantState::WaitingForVoteRequest => TwoPhaseCommitState::WaitingForVoteRequest,
            ParticipantState::WaitingForVote => TwoPhaseCommitState::WaitingForVote,
        }
    }
}

impl<T> From<CoordinatorState<T>> for TwoPhaseCommitState<T> where T: Time {
    fn from(state: CoordinatorState<T>) -> (unified: Self) {
        match state {
            CoordinatorState::Abort => TwoPhaseCommitState::Abort,
            CoordinatorState::Commit => TwoPhaseCommitState::Commit,
            CoordinatorState::Voting { vote_timeout_start } => TwoPhaseCommitState::Voting {
                vote_timeout_start,
            },
            CoordinatorState::WaitingForStart => TwoPhaseCommitState::WaitingForStart,
            CoordinatorState::WaitingForVote => TwoPhaseCommitState::WaitingForVote,
        }
    }
}

impl<T> FromSpecImpl<CoordinatorState<T>> for TwoPhaseCommitState<T> where T: Time {
    open spec fn obeys_from_spec() -> bool {
        true
    }

    open spec fn from_spec(state: CoordinatorState<T>) -> Self {
        state.unified()
    }
}

/// The text of the error for a state that a coordinator cannot be in.
pub open spec fn not_a_coordinator_state() -> Seq<char> {
    "state is not a state of a coordinator"@
}

impl<T> TryFrom<TwoPhaseCommitState<T>> for CoordinatorState<T> where T: Time {
    type Error = InvalidStateError;

    fn try_from(state: TwoPhaseCommitState<T>) -> (converted: Result<Self, InvalidStateError>)
        ensures
            match converted {
                Ok(coordinator_state) => state.as_coordinator() == Some(coordinator_state),
                Err(error) => state.as_coordinator() is None && error.message_view()
                    == not_a_coordinator_state(),
            },
    {
        match state {
            TwoPhaseCommitState::Abort => Ok(CoordinatorState::Abort),
            TwoPhaseCommitState::Commit => Ok(CoordinatorState::Commit),
            TwoPhaseCommitState::Voting { vote_timeout_start } => Ok(
                CoordinatorState::Voting { vote_timeout_start },
            ),
            TwoPhaseCommitState::WaitingForStart => Ok(CoordinatorState::WaitingForStart),
            TwoPhaseCommitState::WaitingForVote => Ok(CoordinatorState::WaitingForVote),
            _ => Err(
                InvalidStateError::with_message("state is not a state of a coordinator".to_owned()),
            ),
        }
    }
}

impl<T> TryFromSpecImpl<TwoPhaseCommitState<T>> for CoordinatorState<T> where T: Time {
    /// The error of a failed conversion is a value made on the spot, so the conversion is
    /// described by the contract of `try_from` and not by a specification function.
    open spec fn obeys_try_from_spec() -> bool {
        false
    }

    open spec fn try_from_spec(state: TwoPhaseCommitState<T>) -> Result<Self, InvalidStateError> {
        arbitrary()
    }
}

impl<T> From<ParticipantState<T>> for TwoPhaseCommitState<T> where T: Time {
    fn from(state: ParticipantState<T>) -> (unified: Self) {
        match state {
            ParticipantState::Abort => TwoPhaseCommitState::Abort,
            ParticipantState::Commit => TwoPhaseCommitState::Commit,
            ParticipantState::Voted { vote, decision_timeout_start } => TwoPhaseCommitState::Voted {
                vote,
                decision_timeout_start,
            },
            ParticipantState::WaitingForVoteRequest => TwoPhaseCommitState::WaitingForVoteRequest,
            ParticipantState::WaitingForVote => TwoPhaseCommitState::WaitingForVote,
        }
    }
}

impl<T> FromSpecImpl<ParticipantState<T>> for TwoPhaseCommitState<T> where T: Time {
    open spec fn obeys_from_spec() -> bool {
        true
    }

    open spec fn from_spec(state: ParticipantState<T>) -> Self {
        state.unified()
    }
}

/// The text of the error for a state that a participant cannot be in.
pub open spec fn not_a_participant_state() -> Seq<char> {
    "state is not a state of a participant"@
}

impl<T> TryFrom<TwoPhaseCommitState<T>> for ParticipantState<T> where T: Time {
    type Error = InvalidStateError;

    fn try_from(state: TwoPhaseCommitState<T>) -> (converted: Result<Self, InvalidStateError>)
        ensures
            match converted {
                Ok(participant_state) => state.as_participant() == Some(participant_state),
                Err(error) => state.as_participant() is None && error.message_view()
                    == not_a_participant_state(),
            },
    {
        match state {
            TwoPhaseCommitState::Abort => Ok(ParticipantState::Abort),
            TwoPhaseCommitState::Commit => Ok(ParticipantState::Commit),
            TwoPhaseCommitState::Voted { vote, decision_timeout_start } => Ok(
                ParticipantState::Voted { vote, decision_timeout_start },
            ),
            TwoPhaseCommitState::WaitingForVoteRequest => Ok(
                ParticipantState::WaitingForVoteRequest,
            ),
            TwoPhaseCommitState::WaitingForVote => Ok(ParticipantState::WaitingForVote),
            _ => Err(
                InvalidStateError::with_message("state is not a state of a participant".to_owned()),
            ),
        }
    }
}

impl<T> TryFromSpecImpl<TwoPhaseCommitState<T>> for ParticipantState<T> where T: Time {
    /// The error of a failed conversion is a value made on the spot, so the conversion is
    /// described by the contract of `try_from` and not by a specification function.
    open spec fn obeys_try_from_spec() -> bool {
        false
    }

    open spec fn try_from_spec(state: TwoPhaseCommitState<T>) -> Result<Self, InvalidStateError> {
        arbitrary()
    }
}

/// Every state of a coordinator, taken as a state of either role, is a coordinator's state
/// again, and the same one.
pub proof fn lemma_coordinator_state_round_trip<T: Time>(state: CoordinatorState<T>)
    ensures
        state.unified().as_coordinator() == Some(state),
{
}

/// Every state of a participant, taken as a state of either role, is a participant's state
/// again, and the same one.
pub proof fn lemma_participant_state_round_trip<T: Time>(state: ParticipantState<T>)
    ensures
        state.unified().as_participant() == Some(state),
{
}

} // verus!
