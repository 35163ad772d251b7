//! The state that one process keeps for one instance of flooding consensus.

use vstd::prelude::*;

use crate::algorithm::{Context, Value};
use crate::process::Process;

use super::state::FloodingState;
use super::Round;

verus! {

/// The set of processes recorded for `round` in `rows`; empty for a round without a row.
pub open spec fn heard_in<P>(rows: Seq<Vec<P>>, round: nat) -> Set<P> {
    if round < rows.len() {
        rows[round as int]@.to_set()
    } else {
        Set::empty()
    }
}

/// The values recorded for `round` in `rows`; empty for a round without a row.
pub open spec fn proposed_in<V>(rows: Seq<Vec<V>>, round: nat) -> Seq<V> {
    if round < rows.len() {
        rows[round as int]@
    } else {
        Seq::empty()
    }
}

/// Whether `longer` is `rows` followed by empty rows, as many as it takes to have a row for
/// `round`.
pub open spec fn extends_to<T>(rows: Seq<Vec<T>>, longer: Seq<Vec<T>>, round: Round) -> bool {
    &&& longer.len() == if rows.len() > round {
        rows.len() as int
    } else {
        round + 1
    }
    &&& forall|i: int| 0 <= i < rows.len() ==> longer[i] == rows[i]
    &&& forall|i: int| rows.len() <= i < longer.len() ==> (#[trigger] longer[i])@.len() == 0
}

/// Adds empty rows to `rows` until there is a row for `round`.
pub fn ensure_row<T>(rows: &mut Vec<Vec<T>>, round: Round)
    requires
        round < Round::MAX,
    ensures
        extends_to(old(rows)@, final(rows)@, round),
{
    while rows.len() <= round
        invariant
            round < Round::MAX,
            old(rows)@.len() <= rows@.len(),
            rows@.len() <= round + 1 || rows@.len() == old(rows)@.len(),
            forall|i: int| 0 <= i < old(rows)@.len() ==> rows@[i] == old(rows)@[i],
            forall|i: int| old(rows)@.len() <= i < rows@.len() ==> (#[trigger] rows@[i])@.len() == 0,
        decreases round + 1 - rows.len(),
    {
        rows.push(Vec::new());
    }
}

/// The state of one process in one consensus instance. The host owns it between transitions
/// and hands it to the algorithm with each event.
#[derive(Clone, Debug, PartialEq, Eq)]
pub struct FloodingContext<P, V> where P: Process, V: Value {
    correct: Vec<P>,
    round: Round,
    decision: Option<V>,
    received_from: Vec<Vec<P>>,
    proposals: Vec<Vec<V>>,
}

impl<P, V> Context for FloodingContext<P, V> where P: Process, V: Value {}

impl<P, V> View for FloodingContext<P, V> where P: Process, V: Value {
    type V = FloodingState<P, V>;

    /// The protocol state that the context stands for. A round without a row has heard from
    /// nobody and holds no proposal.
    open spec fn view(&self) -> FloodingState<P, V> {
        FloodingState {
            correct: self.correct_list().to_set(),
            round: self.current_round() as nat,
            decision: self.current_decision(),
            received_from: Map::total(|round: nat| heard_in(self.received_rows(), round)),
            proposals: Map::total(|round: nat| proposed_in(self.proposal_rows(), round)),
        }
    }
}

impl<P, V> FloodingContext<P, V> where P: Process, V: Value {
    /// The list of processes not yet known to have crashed.
    pub closed spec fn correct_list(&self) -> Seq<P> {
        self.correct@
    }

    /// The current round.
    pub closed spec fn current_round(&self) -> Round {
        self.round
    }

    /// The decision, once there is one.
    pub closed spec fn current_decision(&self) -> Option<V> {
        self.decision
    }

    /// One row per round, each holding the processes heard from in that round.
    pub closed spec fn received_rows(&self) -> Seq<Vec<P>> {
        self.received_from@
    }

    /// One row per round, each holding the values proposed in that round.
    pub closed spec fn proposal_rows(&self) -> Seq<Vec<V>> {
        self.proposals@
    }

    /// The context of a process that starts a consensus instance among `processes`.
    ///
    /// There is one row per process for the rounds to come; the row of round 0 holds the
    /// whole membership.
    pub fn new(processes: Vec<P>) -> (context: Self)
        ensures
            context@ == FloodingState::<P, V>::initial(processes@.to_set()),
            context.correct_list() == processes@,
            context.received_rows().len() == processes@.len(),
            context.proposal_rows().len() == processes@.len(),
            forall|round: int|
                0 <= round < processes@.len() ==> (#[trigger] context.received_rows()[round])@ == if round
                    == 0 {
                    processes@
                } else {
                    Seq::empty()
                },
            forall|round: int|
                0 <= round < processes@.len() ==> (#[trigger] context.proposal_rows()[round])@
                    == Seq::<V>::empty(),
    {
        let processes_len = processes.len();
        let mut received_from: Vec<Vec<P>> = Vec::new();
        let mut proposals: Vec<Vec<V>> = Vec::new();
        let mut n: usize = 0;
        while n < processes_len
            invariant
                processes_len == processes@.len(),
                n <= processes_len,
                received_from@.len() == n,
                proposals@.len() == n,
                n > 0 ==> received_from@[0]@ == processes@,
                forall|i: int| 1 <= i < n ==> (#[trigger] received_from@[i])@.len() == 0,
                forall|i: int| 0 <= i < n ==> (#[trigger] proposals@[i])@.len() == 0,
            decreases processes_len - n,
        {
            let mut row: Vec<P> = Vec::new();
            if n == 0 {
                let mut i: usize = 0;
                while i < processes_len
                    invariant
                        processes_len == processes@.len(),
                        i <= processes_len,
                        row@ == processes@.take(i as int),
                    decreases processes_len - i,
                {
                    row.push(processes[i]);
                    assert(processes@.take(i + 1) == processes@.take(i as int).push(
                        processes@[i as int],
                    ));
                    i += 1;
                }
            }
            received_from.push(row);
            proposals.push(Vec::new());
            n += 1;
        }
        let context = FloodingContext { correct: processes, round: 1, decision: None, received_from, proposals };
        proof {
            let initial = FloodingState::<P, V>::initial(processes@.to_set());
            assert forall|round: nat|
                heard_in(context.received_rows(), round)
                    == #[trigger] initial.received_from[round] by {
                if 0 < round < processes_len {
                    assert(context.received_rows()[round as int]@.to_set() =~= Set::<P>::empty());
                }
                if round == 0 && processes_len == 0 {
                    assert(processes@.to_set() =~= Set::<P>::empty());
                }
            }
            assert forall|round: nat|
                proposed_in(context.proposal_rows(), round)
                    == #[trigger] initial.proposals[round] by {
                if round < processes_len {
                    assert(context.proposal_rows()[round as int]@ =~= Seq::<V>::empty());
                }
            }
            assert(context@.received_from =~= initial.received_from);
            assert(context@.proposals =~= initial.proposals);
            assert forall|round: int| 0 < round < processes@.len() implies (
            #[trigger] context.received_rows()[round])@ == Seq::<P>::empty() by {
                assert(context.received_rows()[round]@ =~= Seq::<P>::empty());
            }
            assert forall|round: int| 0 <= round < processes@.len() implies (
            #[trigger] context.proposal_rows()[round])@ == Seq::<V>::empty() by {
                assert(context.proposal_rows()[round]@ =~= Seq::<V>::empty());
            }
        }
        context
    }

    /// The processes not yet known to have crashed.
    pub fn correct(&self) -> (correct: &Vec<P>)
        ensures
            correct@ == self.correct_list(),
    {
        &self.correct
    }

    /// The list of correct processes, to be changed in place.
    pub fn correct_mut(&mut self) -> (correct: &mut Vec<P>)
        ensures
            correct@ == old(self).correct_list(),
            final(self).correct_list() == final(correct)@,
            final(self).current_round() == old(self).current_round(),
            final(self).current_decision() == old(self).current_decision(),
            final(self).received_rows() == old(self).received_rows(),
            final(self).proposal_rows() == old(self).proposal_rows(),
    {
        &mut self.correct
    }

    /// The current round.
    pub fn round(&self) -> (round: Round)
        ensures
            round == self.current_round(),
    {
        self.round
    }

    /// Makes `round` the current round.
    pub fn set_round(&mut self, round: Round)
        ensures
            final(self).current_round() == round,
            final(self).correct_list() == old(self).correct_list(),
            final(self).current_decision() == old(self).current_decision(),
            final(self).received_rows() == old(self).received_rows(),
            final(self).proposal_rows() == old(self).proposal_rows(),
    {
        self.round = round
    }

    /// The decision, once there is one.
    pub fn decision(&self) -> (decision: &Option<V>)
        ensures
            *decision == self.current_decision(),
    {
        &self.decision
    }

    /// Replaces the decision.
    pub fn set_decision(&mut self, decision: Option<V>)
        ensures
            final(self).current_decision() == decision,
            final(self).correct_list() == old(self).correct_list(),
            final(self).current_round() == old(self).current_round(),
            final(self).received_rows() == old(self).received_rows(),
            final(self).proposal_rows() == old(self).proposal_rows(),
    {
        self.decision = decision
    }

    /// The rows of processes heard from, one per round.
    pub fn received_from(&self) -> (rows: &Vec<Vec<P>>)
        ensures
            rows@ == self.received_rows(),
    {
        &self.received_from
    }

    /// The rows of processes heard from, to be changed in place.
    pub fn received_from_mut(&mut self) -> (rows: &mut Vec<Vec<P>>)
        ensures
            rows@ == old(self).received_rows(),
            final(self).received_rows() == final(rows)@,
            final(self).correct_list() == old(self).correct_list(),
            final(self).current_round() == old(self).current_round(),
            final(self).current_decision() == old(self).current_decision(),
            final(self).proposal_rows() == old(self).proposal_rows(),
    {
        &mut self.received_from
    }

    /// The rows of proposed values, one per round.
    pub fn proposals(&self) -> (rows: &Vec<Vec<V>>)
        ensures
            rows@ == self.proposal_rows(),
    {
        &self.proposals
    }

    /// The rows of proposed values, to be changed in place.
    pub fn proposals_mut(&mut self) -> (rows: &mut Vec<Vec<V>>)
        ensures
            rows@ == old(self).proposal_rows(),
            final(self).proposal_rows() == final(rows)@,
            final(self).correct_list() == old(self).correct_list(),
            final(self).current_round() == old(self).current_round(),
            final(self).current_decision() == old(self).current_decision(),
            final(self).received_rows() == old(self).received_rows(),
    {
        &mut self.proposals
    }
}

} // verus!
