//! The protocol state of flooding consensus as a mathematical value, and its transitions.

use vstd::prelude::*;

verus! {

/// The protocol state of one process.
#[verifier::reject_recursive_types(P)]
pub ghost struct FloodingState<P, V> {
    /// Processes not yet known to have crashed.
    pub correct: Set<P>,
    /// The current round.
    pub round: nat,
    /// The value decided, once there is one.
    pub decision: Option<V>,
    /// For each round, the processes heard from in it.
    pub received_from: Map<nat, Set<P>>,
    /// For each round, the values proposed in it, in order of arrival.
    pub proposals: Map<nat, Seq<V>>,
}

impl<P, V> FloodingState<P, V> {
    /// The state in which a process starts: everybody is correct, the round is 1, nothing is
    /// decided or proposed, and round 0 counts as having heard from all of `members`.
    pub open spec fn initial(members: Set<P>) -> Self {
        FloodingState {
            correct: members,
            round: 1,
            decision: None,
            received_from: Map::total(
                |round: nat|
                    if round == 0 {
                        members
                    } else {
                        Set::empty()
                    },
            ),
            proposals: Map::total(|round: nat| Seq::empty()),
        }
    }

    /// The state after `process` has been reported as crashed.
    pub open spec fn crash(self, process: P) -> Self {
        FloodingState { correct: self.correct.remove(process), ..self }
    }

    /// The state after the local application has proposed `value`.
    pub open spec fn propose(self, value: V) -> Self {
        FloodingState { proposals: self.proposals.insert(1, self.proposals[1].push(value)), ..self }
    }

    /// The state after the proposals `values` of `process` for `round` have been recorded.
    pub open spec fn record(self, process: P, round: nat, values: Seq<V>) -> Self {
        FloodingState {
            received_from: self.received_from.insert(
                round,
                self.received_from[round].insert(process),
            ),
            proposals: self.proposals.insert(round, self.proposals[round] + values),
            ..self
        }
    }

    /// The state after `value` has been taken as the decision.
    pub open spec fn adopt(self, value: V) -> Self {
        FloodingState { decision: Some(value), ..self }
    }

    /// The state after the process has moved on to the next round.
    pub open spec fn advance(self) -> Self {
        FloodingState { round: self.round + 1, ..self }
    }

    /// Whether the current round is complete and still open: every correct process has been
    /// heard from in it and nothing is decided yet.
    pub open spec fn ready(self) -> bool {
        &&& self.decision is None
        &&& self.correct.subset_of(self.received_from[self.round])
    }

    /// Whether the same processes were heard from in the current round as in the one before.
    pub open spec fn stable(self) -> bool {
        self.received_from[self.round] == self.received_from[(self.round - 1) as nat]
    }

    /// The values from which a decision of the current round is selected.
    pub open spec fn candidates(self) -> Seq<V> {
        self.proposals[self.round]
    }
}

} // verus!
