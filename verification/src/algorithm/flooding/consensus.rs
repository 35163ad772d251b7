//! Flooding consensus as one component that owns its failure detector and its broadcast
//! sender.

use std::marker::PhantomData;
use vstd::prelude::*;

use crate::broadcast::BestEffortBroadcastSender;
use crate::error::InternalError;
use crate::message::Message;
use crate::network::NetworkSender;
use crate::process::{is_first_occurrence, position_of, process_eq_is_identity, Process};

verus! {

/// Learns of crashes from a perfect failure detector: one that never suspects a correct
/// process and in the end suspects every crashed one.
pub trait PerfectFailureDetectorReceiver<P> {
    /// Takes note that `process` has crashed.
    fn crash(&mut self, process: P) -> (noted: Result<(), InternalError>);
}

/// A message of flooding consensus, with the round counted in 64 bits.
#[derive(Clone)]
pub enum FloodingConsensusMessage<V: Clone, PROPOSAL: Clone> {
    /// The sender has decided on the value.
    Decided { value: V },
    /// The proposals that the sender knows of, flooded for the given round.
    Proposal { round: u64, proposals: Vec<PROPOSAL> },
}

impl<V: Clone, PROPOSAL: Clone> Message for FloodingConsensusMessage<V, PROPOSAL> {}

/// The state of flooding consensus together with the detector and the sender it works with.
pub struct FloodingConsensus<D, P, V, PROPOSAL, N> where
    D: PerfectFailureDetectorReceiver<P>,
    P: Process,
    V: Clone,
    PROPOSAL: Clone,
    N: NetworkSender<P, FloodingConsensusMessage<V, PROPOSAL>>,
 {
    correct: Vec<P>,
    round: u64,
    decision: Option<V>,
    received_from: Vec<Vec<P>>,
    proposals: Vec<Vec<PROPOSAL>>,
    detector: D,
    sender: BestEffortBroadcastSender<P, FloodingConsensusMessage<V, PROPOSAL>, N>,
    process_phantom: PhantomData<P>,
    value_phantom: PhantomData<V>,
    proposal_phantom: PhantomData<PROPOSAL>,
}

impl<D, P, V, PROPOSAL, N> FloodingConsensus<D, P, V, PROPOSAL, N> where
    D: PerfectFailureDetectorReceiver<P>,
    P: Process + Clone,
    V: Clone,
    PROPOSAL: Clone,
    N: NetworkSender<P, FloodingConsensusMessage<V, PROPOSAL>>,
 {
    /// The processes not yet known to have crashed.
    pub closed spec fn correct_list(&self) -> Seq<P> {
        self.correct@
    }

    /// The current round.
    pub closed spec fn current_round(&self) -> u64 {
        self.round
    }

    /// The decision, once there is one.
    pub closed spec fn current_decision(&self) -> Option<V> {
        self.decision
    }

    /// One row per round, each holding the processes heard from in that round.
    pub closed spec fn received_rows(&self) -> Seq<Vec<P>> {
        self.received_from@
    }

    /// One row per round, each holding what was proposed in that round.
    pub closed spec fn proposal_rows(&self) -> Seq<Vec<PROPOSAL>> {
        self.proposals@
    }

    /// The failure detector.
    pub closed spec fn failure_detector(&self) -> D {
        self.detector
    }

    /// The sender that broadcasts are made with.
    pub closed spec fn broadcast_sender(&self) -> BestEffortBroadcastSender<
        P,
        FloodingConsensusMessage<V, PROPOSAL>,
        N,
    > {
        self.sender
    }

    /// Consensus among `processes` at its start: all of them are correct, the round is 1,
    /// nothing is decided or proposed, and round 0 has heard from all of them.
    pub fn new(
        processes: Vec<P>,
        detector: D,
        sender: BestEffortBroadcastSender<P, FloodingConsensusMessage<V, PROPOSAL>, N>,
    ) -> (consensus: Self)
        ensures
            consensus.correct_list() == processes@,
            consensus.current_round() == 1,
            consensus.current_decision() is None,
            consensus.received_rows().len() == 1,
            consensus.received_rows()[0] == processes,
            consensus.proposal_rows().len() == 0,
            consensus.failure_detector() == detector,
            consensus.broadcast_sender() == sender,
    {
        let mut correct: Vec<P> = Vec::new();
        let mut i: usize = 0;
        while i < processes.len()
            invariant
                i <= processes.len(),
                correct@ == processes@.take(i as int),
            decreases processes.len() - i,
        {
            correct.push(processes[i]);
            i += 1;
        }
        let mut received_from: Vec<Vec<P>> = Vec::new();
        received_from.push(processes);
        FloodingConsensus {
            correct,
            round: 1,
            decision: None,
            received_from,
            proposals: Vec::new(),
            detector,
            sender,
            process_phantom: PhantomData,
            value_phantom: PhantomData,
            proposal_phantom: PhantomData,
        }
    }
}

impl<D, P, V, PROPOSAL, N> PerfectFailureDetectorReceiver<P> for FloodingConsensus<
    D,
    P,
    V,
    PROPOSAL,
    N,
> where
    D: PerfectFailureDetectorReceiver<P>,
    P: Process,
    V: Clone,
    PROPOSAL: Clone,
    N: NetworkSender<P, FloodingConsensusMessage<V, PROPOSAL>>,
 {
    /// Takes the first occurrence of `process` out of the correct processes; the others keep
    /// their order. A process that is not among them changes nothing. Nothing else changes.
    fn crash(&mut self, process: P) -> (noted: Result<(), InternalError>)
        ensures
            noted is Ok,
            process_eq_is_identity::<P>() ==> {
                &&& !old(self).correct_list().contains(process) ==> final(self).correct_list()
                    == old(self).correct_list()
                &&& forall|index: int|
                    is_first_occurrence(old(self).correct_list(), process, index)
                        ==> final(self).correct_list() == old(self).correct_list().remove(index)
            },
            final(self).current_round() == old(self).current_round(),
            final(self).current_decision() == old(self).current_decision(),
            final(self).received_rows() == old(self).received_rows(),
            final(self).proposal_rows() == old(self).proposal_rows(),
            final(self).failure_detector() == old(self).failure_detector(),
            final(self).broadcast_sender() == old(self).broadcast_sender(),
    {
        match position_of(&self.correct, process) {
            Some(index) => {
                self.correct.remove(index);
            },
            None => (),
        };
        Ok(())
    }
}

} // verus!
