//! The transition function of flooding consensus.

use std::marker::PhantomData;
use vstd::prelude::*;

use crate::algorithm::{Algorithm, Value};
use crate::error::InternalError;
use crate::process::{all_contained, contains_process, process_eq_is_identity, remove_process, Process};

use super::action::FloodingAction;
use super::context::{ensure_row, extends_to, heard_in, proposed_in, FloodingContext};
use super::event::FloodingEvent;
use super::message::FloodingMessage;
use super::state::FloodingState;
use super::Round;

verus! {

/// Whether a process that was in `state` has taken `value` as its decision: it is now in
/// `next`, which holds a clone of `value` as the decision and is otherwise `state`, and
/// `effects` announces a clone of `value` to the other processes and then reports `value`
/// itself to the application.
pub open spec fn decides<P: Process, V: Value>(
    state: FloodingState<P, V>,
    next: FloodingState<P, V>,
    effects: Seq<FloodingAction<P, V>>,
    value: V,
) -> bool {
    &&& match next.decision {
        Some(copy) => cloned(value, copy) && next == state.adopt(copy),
        None => false,
    }
    &&& effects.len() == 2
    &&& effects[0].announces(value)
    &&& effects[1] == FloodingAction::<P, V>::Decide(value)
}

/// Rows that are followed by empty rows record the same for every round as before.
proof fn lemma_extension_keeps_rounds<T>(rows: Seq<Vec<T>>, longer: Seq<Vec<T>>, round: Round)
    requires
        extends_to(rows, longer, round),
    ensures
        forall|r: nat| heard_in(longer, r) == heard_in(rows, r),
        forall|r: nat| proposed_in(longer, r) == proposed_in(rows, r),
{
    assert forall|r: nat| heard_in(longer, r) == heard_in(rows, r) by {
        if rows.len() <= r < longer.len() {
            assert(longer[r as int]@.to_set() =~= Set::<T>::empty());
        }
    }
    assert forall|r: nat| proposed_in(longer, r) == proposed_in(rows, r) by {
        if rows.len() <= r < longer.len() {
            assert(longer[r as int]@ =~= Seq::<T>::empty());
        }
    }
}

/// Takes `decision` as the decision of the process: stores a clone of it in `context`, and
/// adds to `actions` the broadcast that announces it and the report to the application.
pub fn record_decision<P: Process, V: Value>(
    context: &mut FloodingContext<P, V>,
    actions: &mut Vec<FloodingAction<P, V>>,
    decision: V,
)
    ensures
        final(actions)@.take(old(actions)@.len() as int) == old(actions)@,
        decides(
            old(context)@,
            final(context)@,
            final(actions)@.skip(old(actions)@.len() as int),
            decision,
        ),
{
    context.set_decision(Some(decision.clone()));
    actions.push(FloodingAction::Broadcast(FloodingMessage::Decided(decision.clone())));
    actions.push(FloodingAction::Decide(decision));
}

/// The state of a process after its host has applied `result` to a context that stood for
/// `state`: the state of the context in the first action, if there is one; else `state`, as
/// the host keeps the context it had.
pub open spec fn state_after<P: Process, V: Value>(
    state: FloodingState<P, V>,
    result: Result<Vec<FloodingAction<P, V>>, InternalError>,
) -> FloodingState<P, V> {
    match result {
        Ok(actions) => if actions@.len() > 0 {
            match actions@[0] {
                FloodingAction::UpdateContext(context) => context@,
                _ => state,
            }
        } else {
            state
        },
        Err(_) => state,
    }
}

/// Flooding consensus, with the function that selects the decision from the proposals of a
/// round.
#[verifier::reject_recursive_types(P)]
#[verifier::reject_recursive_types(V)]
pub struct FloodingAlgorithm<P, V, F> where
    P: Process,
    V: Value,
    F: Fn(&Vec<V>) -> Result<V, InternalError>,
 {
    select_func: F,
    _process_phantom: PhantomData<P>,
    _value_phantom: PhantomData<V>,
}

impl<P, V, F> FloodingAlgorithm<P, V, F> where
    P: Process,
    V: Value,
    F: Fn(&Vec<V>) -> Result<V, InternalError>,
 {
    /// The selection function.
    pub closed spec fn selection(&self) -> F {
        self.select_func
    }

    /// Whether the selection function can be called on every list of proposals. It reports
    /// a list that it cannot select from by an error.
    pub open spec fn well_formed(&self) -> bool {
        forall|input: &Vec<V>| call_requires(self.selection(), (input,))
    }

    /// Whether the selection function may answer `outcome` when it is given `values`.
    pub open spec fn selects(&self, values: Seq<V>, outcome: Result<V, InternalError>) -> bool {
        exists|input: Vec<V>|
            input@ == values && #[trigger] call_ensures(self.selection(), (&input,), outcome)
    }

    /// Whether the selection function is deterministic: it gives one answer for each list of
    /// proposals, whenever and wherever it is asked.
    pub open spec fn deterministic(&self) -> bool {
        forall|values: Seq<V>, one: Result<V, InternalError>, other: Result<V, InternalError>|
            #[trigger] self.selects(values, one) && #[trigger] self.selects(values, other) ==> one
                == other
    }

    /// Whether the convergence check takes a process from `state` to `next` with `effects`.
    ///
    /// Nothing happens unless the round is complete and still open. Then, if the same
    /// processes were heard from as in the round before, the process decides on a value
    /// that the selection function picks from the proposals of the round; else it moves to
    /// the next round and floods the proposals of the round it leaves.
    pub open spec fn settles(
        &self,
        state: FloodingState<P, V>,
        next: FloodingState<P, V>,
        effects: Seq<FloodingAction<P, V>>,
    ) -> bool {
        if !state.ready() {
            next == state && effects.len() == 0
        } else if state.stable() {
            exists|value: V|
                self.selects(state.candidates(), Ok(value)) && #[trigger] decides(
                    state,
                    next,
                    effects,
                    value,
                )
        } else {
            &&& next == state.advance()
            &&& effects.len() == 1
            &&& effects[0].floods(state.round + 1, state.candidates())
        }
    }

    /// Whether the selection function fails with `error` in the convergence check of a
    /// process in `state`.
    pub open spec fn fails(&self, state: FloodingState<P, V>, error: InternalError) -> bool {
        &&& state.ready()
        &&& state.stable()
        &&& self.selects(state.candidates(), Err(error))
    }

    /// Whether `result` is what a transition returns that has brought the process to `state`
    /// and then runs the convergence check: the context that the check leaves, followed by
    /// the effects of the check; or the error of the selection function.
    pub open spec fn settled_result(
        &self,
        state: FloodingState<P, V>,
        result: Result<Vec<FloodingAction<P, V>>, InternalError>,
    ) -> bool {
        match result {
            Ok(actions) => actions@.len() >= 1 && match actions@[0] {
                FloodingAction::UpdateContext(context) => self.settles(
                    state,
                    context@,
                    actions@.skip(1),
                ),
                _ => false,
            },
            Err(error) => self.fails(state, error),
        }
    }

    /// Whether `result` is what the report of a crash of `process` returns in `state`.
    ///
    /// A process that is not among the correct ones changes nothing and asks for nothing.
    /// Else the process leaves the correct ones and the convergence check is run.
    pub open spec fn crash_result(
        &self,
        state: FloodingState<P, V>,
        process: P,
        result: Result<Vec<FloodingAction<P, V>>, InternalError>,
    ) -> bool {
        if state.correct.contains(process) {
            self.settled_result(state.crash(process), result)
        } else {
            result matches Ok(actions) && actions@.len() == 0
        }
    }

    /// Whether `result` is what a local proposal of `value` returns in `state`: the value
    /// joins the proposals of round 1, which are then flooded.
    pub open spec fn propose_result(
        &self,
        state: FloodingState<P, V>,
        value: V,
        result: Result<Vec<FloodingAction<P, V>>, InternalError>,
    ) -> bool {
        match result {
            Ok(actions) => {
                &&& actions@.len() == 2
                &&& actions@[0].stores(state.propose(value))
                &&& actions@[1].floods(1, state.propose(value).proposals[1])
            },
            Err(_) => false,
        }
    }

    /// Whether `result` is what the delivery of the proposals `values` of `process` for
    /// `round` returns in `state`: they are recorded, and the convergence check is run if
    /// `round` is the current round.
    pub open spec fn proposal_result(
        &self,
        state: FloodingState<P, V>,
        process: P,
        round: Round,
        values: Seq<V>,
        result: Result<Vec<FloodingAction<P, V>>, InternalError>,
    ) -> bool {
        let recorded = state.record(process, round as nat, values);
        if round == state.round {
            self.settled_result(recorded, result)
        } else {
            match result {
                Ok(actions) => actions@.len() == 1 && actions@[0].stores(recorded),
                Err(_) => false,
            }
        }
    }

    /// Whether `result` is what the delivery of the decision `value` of `process` returns in
    /// `state`: a process that has not decided yet takes over the decision of a process that
    /// it holds to be correct; in any other case nothing changes and nothing is asked for.
    pub open spec fn decided_result(
        &self,
        state: FloodingState<P, V>,
        process: P,
        value: V,
        result: Result<Vec<FloodingAction<P, V>>, InternalError>,
    ) -> bool {
        match result {
            Ok(actions) => if state.correct.contains(process) && state.decision is None {
                actions@.len() == 3 && match actions@[0] {
                    FloodingAction::UpdateContext(context) => decides(
                        state,
                        context@,
                        actions@.skip(1),
                        value,
                    ),
                    _ => false,
                }
            } else {
                actions@.len() == 0
            },
            Err(_) => false,
        }
    }

    /// Whether `result` is what `event` returns in `state`.
    pub open spec fn event_result(
        &self,
        event: FloodingEvent<P, V>,
        state: FloodingState<P, V>,
        result: Result<Vec<FloodingAction<P, V>>, InternalError>,
    ) -> bool {
        match event {
            FloodingEvent::Crash(process) => self.crash_result(state, process, result),
            FloodingEvent::Deliver(process, FloodingMessage::Proposal(round, values)) => {
                self.proposal_result(state, process, round, values@, result)
            },
            FloodingEvent::Deliver(process, FloodingMessage::Decided(value)) => {
                self.decided_result(state, process, value, result)
            },
            FloodingEvent::Propose(value) => self.propose_result(state, value, result),
        }
    }

    /// Whether the algorithm can run `event` in `state`.
    ///
    /// The round of the state is at least 1 and not the last that the machine can count; a
    /// delivered proposal may be for any round but that last one. The selection function
    /// answers on every list of proposals, and `==` on processes is the identity.
    pub open spec fn runs_on(&self, event: FloodingEvent<P, V>, state: FloodingState<P, V>) -> bool {
        &&& self.well_formed()
        &&& process_eq_is_identity::<P>()
        &&& 1 <= state.round < Round::MAX
        &&& match event {
            FloodingEvent::Deliver(_, FloodingMessage::Proposal(round, _)) => round < Round::MAX,
            _ => true,
        }
    }

    /// What the algorithm accepts as an implementation of `Algorithm` is what it runs on.
    pub proof fn lemma_accepts_what_it_runs_on(
        &self,
        event: FloodingEvent<P, V>,
        context: FloodingContext<P, V>,
    )
        ensures
            self.accepts(event, context) == self.runs_on(event, context@),
    {
    }

    /// Creates the algorithm around the selection function `select_func`.
    pub fn new(select_func: F) -> (algorithm: Self)
        requires
            forall|input: &Vec<V>| call_requires(select_func, (input,)),
        ensures
            algorithm.selection() == select_func,
            algorithm.well_formed(),
            forall|event: FloodingEvent<P, V>, context: FloodingContext<P, V>|
                #[trigger] algorithm.accepts(event, context) == algorithm.runs_on(event, context@),
    {
        FloodingAlgorithm { select_func, _process_phantom: PhantomData, _value_phantom: PhantomData }
    }

    // If the round is complete and still open, decides or moves to the next round.
    fn decide_or_next_round(
        &self,
        context: &mut FloodingContext<P, V>,
        actions: &mut Vec<FloodingAction<P, V>>,
    ) -> (result: Result<(), InternalError>)
        requires
            self.well_formed(),
            process_eq_is_identity::<P>(),
            1 <= old(context)@.round < Round::MAX,
        ensures
            final(actions)@.take(old(actions)@.len() as int) == old(actions)@,
            match result {
                Ok(()) => self.settles(
                    old(context)@,
                    final(context)@,
                    final(actions)@.skip(old(actions)@.len() as int),
                ),
                Err(error) => {
                    &&& self.fails(old(context)@, error)
                    &&& final(context)@ == old(context)@
                    &&& final(actions)@ == old(actions)@
                },
            },
    {
        let round = context.round();
        ensure_row(context.received_from_mut(), round);
        ensure_row(context.proposals_mut(), round);
        proof {
            lemma_extension_keeps_rounds(old(context).received_rows(), context.received_rows(), round);
            lemma_extension_keeps_rounds(old(context).proposal_rows(), context.proposal_rows(), round);
            assert(context@.received_from =~= old(context)@.received_from);
            assert(context@.proposals =~= old(context)@.proposals);
        }
        let received = context.received_from();
        if context.decision().is_none() && all_contained(context.correct(), &received[round]) {
            let stable = all_contained(&received[round], &received[round - 1]) && all_contained(
                &received[round - 1],
                &received[round],
            );
            assert(stable ==> received@[round as int]@.to_set() =~= received@[round - 1]@.to_set());
            if stable {
                let input = &context.proposals()[round];
                assert(call_requires(self.selection(), (input,)));
                let selected = (self.select_func)(input);
                match selected {
                    Err(error) => {
                        return Err(error);
                    },
                    Ok(decision) => {
                        record_decision(context, actions, decision);
                    },
                }
            } else {
                context.set_round(round + 1);
                let flooded = context.proposals()[round].clone();
                actions.push(
                    FloodingAction::Broadcast(FloodingMessage::Proposal(round + 1, flooded)),
                );
            }
        }
        Ok(())
    }

    // When a process is reported as crashed, it leaves the correct processes; the round may
    // be complete without it.
    fn handle_crash(&self, mut context: FloodingContext<P, V>, process: P) -> (result: Result<
        Vec<FloodingAction<P, V>>,
        InternalError,
    >)
        requires
            self.well_formed(),
            process_eq_is_identity::<P>(),
            1 <= context@.round < Round::MAX,
        ensures
            self.crash_result(context@, process, result),
    {
        if !contains_process(context.correct(), process) {
            return Ok(Vec::new());
        }
        remove_process(context.correct_mut(), process);
        let mut actions = Vec::new();
        self.decide_or_next_round(&mut context, &mut actions)?;
        let ghost effects = actions@;
        actions.insert(0, FloodingAction::UpdateContext(context));
        assert(actions@.skip(1) =~= effects);
        assert(effects.skip(0) =~= effects);
        Ok(actions)
    }

    // A value proposed by the local process joins the proposals of round 1, which are then
    // broadcast to the other processes.
    fn handle_propose(&self, mut context: FloodingContext<P, V>, value: V) -> (result: Result<
        Vec<FloodingAction<P, V>>,
        InternalError,
    >)
        ensures
            self.propose_result(context@, value, result),
    {
        let ghost state = context@;
        let ghost before = context.proposal_rows();
        let rows = context.proposals_mut();
        ensure_row(rows, 1);
        let ghost grown = rows@;
        rows[1].push(value);
        let flooded = context.proposals()[1].clone();
        proof {
            lemma_extension_keeps_rounds(before, grown, 1);
            assert(context@.proposals =~= state.propose(value).proposals);
        }
        let mut actions = Vec::new();
        actions.push(FloodingAction::Broadcast(FloodingMessage::Proposal(1, flooded)));
        actions.insert(0, FloodingAction::UpdateContext(context));
        Ok(actions)
    }

    // The proposals that a remote process has sent for a round are recorded for that round,
    // and the process counts as heard from in it. Only proposals for the current round can
    // complete it.
    fn handle_deliver_proposal(
        &self,
        mut context: FloodingContext<P, V>,
        process: P,
        round: Round,
        mut proposals: Vec<V>,
    ) -> (result: Result<Vec<FloodingAction<P, V>>, InternalError>)
        requires
            self.well_formed(),
            process_eq_is_identity::<P>(),
            1 <= context@.round < Round::MAX,
            round < Round::MAX,
        ensures
            self.proposal_result(context@, process, round, proposals@, result),
    {
        let ghost state = context@;
        let ghost heard = context.received_rows();
        let ghost proposed = context.proposal_rows();
        let ghost values = proposals@;
        let rows = context.received_from_mut();
        ensure_row(rows, round);
        let ghost heard_grown = rows@;
        rows[round].push(process);
        let rows = context.proposals_mut();
        ensure_row(rows, round);
        let ghost proposed_grown = rows@;
        rows[round].append(&mut proposals);
        proof {
            lemma_extension_keeps_rounds(heard, heard_grown, round);
            lemma_extension_keeps_rounds(proposed, proposed_grown, round);
            heard_grown[round as int]@.lemma_push_to_set_commute(process);
            let recorded = state.record(process, round as nat, values);
            assert(context@.received_from =~= recorded.received_from);
            assert(context@.proposals =~= recorded.proposals);
        }
        let mut actions = Vec::new();
        if round == context.round() {
            self.decide_or_next_round(&mut context, &mut actions)?;
        }
        let ghost effects = actions@;
        actions.insert(0, FloodingAction::UpdateContext(context));
        assert(actions@.skip(1) =~= effects);
        assert(effects.skip(0) =~= effects);
        Ok(actions)
    }

    // A process that has not decided takes over the decision that a process it holds to be
    // correct announces, and passes it on.
    fn handle_deliver_decided(
        &self,
        mut context: FloodingContext<P, V>,
        process: P,
        decision: V,
    ) -> (result: Result<Vec<FloodingAction<P, V>>, InternalError>)
        requires
            process_eq_is_identity::<P>(),
        ensures
            self.decided_result(context@, process, decision, result),
    {
        let mut actions = Vec::new();
        if contains_process(context.correct(), process) && context.decision().is_none() {
            record_decision(&mut context, &mut actions, decision);
            actions.insert(0, FloodingAction::UpdateContext(context));
        }
        Ok(actions)
    }
}

impl<P, V, F> Algorithm<P> for FloodingAlgorithm<P, V, F> where
    P: Process,
    V: Value,
    F: Fn(&Vec<V>) -> Result<V, InternalError>,
 {
    type Event = FloodingEvent<P, V>;

    type Action = FloodingAction<P, V>;

    type Context = FloodingContext<P, V>;

    /// The algorithm accepts what it runs on: see `runs_on`.
    open spec fn accepts(&self, event: FloodingEvent<P, V>, context: FloodingContext<P, V>) -> bool {
        self.runs_on(event, context@)
    }

    /// Runs the transition for `event` on `context`. The first action of a list that is not
    /// empty holds the context that follows; an empty list leaves the context as it is.
    fn event(&self, event: FloodingEvent<P, V>, context: FloodingContext<P, V>) -> (result: Result<
        Vec<FloodingAction<P, V>>,
        InternalError,
    >)
        ensures
            self.event_result(event, context@, result),
    {
        match event {
            FloodingEvent::Crash(p) => self.handle_crash(context, p),
            FloodingEvent::Deliver(p, m) => match m {
                FloodingMessage::Proposal(round, values) => {
                    self.handle_deliver_proposal(context, p, round, values)
                },
                FloodingMessage::Decided(value) => self.handle_deliver_decided(context, p, value),
            },
            FloodingEvent::Propose(v) => self.handle_propose(context, v),
        }
    }
}

} // verus!
