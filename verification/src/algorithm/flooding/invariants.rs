//! What holds of every transition of flooding consensus, and of every run made of them.

use vstd::prelude::*;

use crate::algorithm::{clone_is_faithful, Value};
use crate::error::InternalError;
use crate::process::Process;

use super::action::FloodingAction;
use super::algorithm::{decides, state_after, FloodingAlgorithm};
use super::event::FloodingEvent;
use super::message::FloodingMessage;
use super::state::FloodingState;

verus! {

/// Whether a process may come from `state` to `next` without losing anything it has
/// learnt: the round does not go back, a decision stays, no process becomes correct again,
/// and every round keeps the processes heard from and the values proposed, in their order.
pub open spec fn grows_to<P, V>(state: FloodingState<P, V>, next: FloodingState<P, V>) -> bool {
    &&& state.round <= next.round
    &&& state.decision is Some ==> next.decision == state.decision
    &&& next.correct.subset_of(state.correct)
    &&& forall|round: nat| #[trigger] state.received_from[round].subset_of(next.received_from[round])
    &&& forall|round: nat| #[trigger] state.proposals[round].is_prefix_of(next.proposals[round])
}

/// Whether `event` brings `value` as a proposal for `round`: as the value that the local
/// application proposes, which counts for round 1, or as one of the proposals that a
/// process has sent for `round`.
pub open spec fn brings<P: Process, V: Value>(
    event: FloodingEvent<P, V>,
    round: nat,
    value: V,
) -> bool {
    match event {
        FloodingEvent::Propose(proposed) => round == 1 && proposed == value,
        FloodingEvent::Deliver(_, FloodingMessage::Proposal(sent_for, values)) => {
            round == sent_for && values@.contains(value)
        },
        _ => false,
    }
}

/// Whether `states` are the states that a process goes through when its host feeds it
/// `events` one after the other, gets `results` from `algorithm`, and applies each result
/// before the next event.
pub open spec fn is_run<P, V, F>(
    algorithm: FloodingAlgorithm<P, V, F>,
    states: Seq<FloodingState<P, V>>,
    events: Seq<FloodingEvent<P, V>>,
    results: Seq<Result<Vec<FloodingAction<P, V>>, InternalError>>,
) -> bool where P: Process, V: Value, F: Fn(&Vec<V>) -> Result<V, InternalError> {
    &&& states.len() == events.len() + 1
    &&& results.len() == events.len()
    &&& forall|i: int|
        0 <= i < events.len() ==> #[trigger] algorithm.event_result(
            events[i],
            states[i],
            results[i],
        ) && states[i + 1] == state_after(states[i], results[i])
}

/// The convergence check loses nothing: it leaves the state as it is, adds a decision where
/// there was none, or moves to the next round.
proof fn lemma_settling_grows<P, V, F>(
    algorithm: FloodingAlgorithm<P, V, F>,
    state: FloodingState<P, V>,
    next: FloodingState<P, V>,
    effects: Seq<FloodingAction<P, V>>,
) where P: Process, V: Value, F: Fn(&Vec<V>) -> Result<V, InternalError>
    requires
        algorithm.settles(state, next, effects),
    ensures
        grows_to(state, next),
        next.correct == state.correct,
        next.received_from == state.received_from,
        next.proposals == state.proposals,
{
}

/// No transition loses what the process has learnt: the round never goes back, a decision
/// once taken is never changed, the correct processes only get fewer, and what a round has
/// recorded is only ever added to.
pub proof fn lemma_transition_grows<P, V, F>(
    algorithm: FloodingAlgorithm<P, V, F>,
    event: FloodingEvent<P, V>,
    state: FloodingState<P, V>,
    result: Result<Vec<FloodingAction<P, V>>, InternalError>,
) where P: Process, V: Value, F: Fn(&Vec<V>) -> Result<V, InternalError>
    requires
        algorithm.event_result(event, state, result),
    ensures
        grows_to(state, state_after(state, result)),
{
    let next = state_after(state, result);
    match result {
        Err(_) => {},
        Ok(actions) => {
            if actions@.len() > 0 {
                match event {
                    FloodingEvent::Crash(process) => {
                        lemma_settling_grows(
                            algorithm,
                            state.crash(process),
                            next,
                            actions@.skip(1),
                        );
                    },
                    FloodingEvent::Deliver(process, FloodingMessage::Proposal(round, values)) => {
                        let recorded = state.record(process, round as nat, values@);
                        if round == state.round {
                            lemma_settling_grows(algorithm, recorded, next, actions@.skip(1));
                        }
                        assert forall|r: nat| #[trigger]
                            state.proposals[r].is_prefix_of(recorded.proposals[r]) by {
                            if r == round {
                                assert(recorded.proposals[r].subrange(
                                    0,
                                    state.proposals[r].len() as int,
                                ) =~= state.proposals[r]);
                            }
                        }
                    },
                    FloodingEvent::Deliver(process, FloodingMessage::Decided(value)) => {},
                    FloodingEvent::Propose(value) => {
                        let proposed = state.propose(value);
                        assert forall|r: nat| #[trigger]
                            state.proposals[r].is_prefix_of(proposed.proposals[r]) by {
                            if r == 1 {
                                assert(proposed.proposals[r].subrange(
                                    0,
                                    state.proposals[r].len() as int,
                                ) =~= state.proposals[r]);
                            }
                        }
                    },
                }
            }
        },
    }
}

/// Along a run nothing that a process has learnt is lost: between any two of its states, the
/// earlier first, the round has not gone back, a decision has not changed, no process has
/// become correct again, and what each round has recorded has only been added to.
pub proof fn lemma_run_grows<P, V, F>(
    algorithm: FloodingAlgorithm<P, V, F>,
    states: Seq<FloodingState<P, V>>,
    events: Seq<FloodingEvent<P, V>>,
    results: Seq<Result<Vec<FloodingAction<P, V>>, InternalError>>,
    i: int,
    j: int,
) where P: Process, V: Value, F: Fn(&Vec<V>) -> Result<V, InternalError>
    requires
        is_run(algorithm, states, events, results),
        0 <= i <= j < states.len(),
    ensures
        grows_to(states[i], states[j]),
    decreases j - i,
{
    if i == j {
        assert forall|round: nat| #[trigger]
            states[i].proposals[round].is_prefix_of(states[i].proposals[round]) by {
            assert(states[i].proposals[round].subrange(
                0,
                states[i].proposals[round].len() as int,
            ) =~= states[i].proposals[round]);
        }
    } else {
        lemma_run_grows(algorithm, states, events, results, i, j - 1);
        lemma_transition_grows(algorithm, events[j - 1], states[j - 1], results[j - 1]);
        let (first, middle, last) = (states[i], states[j - 1], states[j]);
        assert forall|round: nat| #[trigger]
            first.proposals[round].is_prefix_of(last.proposals[round]) by {
            assert(first.proposals[round].is_prefix_of(middle.proposals[round]));
            assert(middle.proposals[round].is_prefix_of(last.proposals[round]));
            assert(last.proposals[round].subrange(0, first.proposals[round].len() as int)
                =~= first.proposals[round]);
        }
        assert forall|round: nat| #[trigger]
            first.received_from[round].subset_of(last.received_from[round]) by {
            assert(first.received_from[round].subset_of(middle.received_from[round]));
            assert(middle.received_from[round].subset_of(last.received_from[round]));
        }
    }
}

/// Every value among the proposals of a round, in a run that started without proposals for
/// that round, was brought by an earlier event of the run: the local application proposed
/// it, or a process sent it as a proposal for that round.
pub proof fn lemma_run_proposals_come_from_events<P, V, F>(
    algorithm: FloodingAlgorithm<P, V, F>,
    states: Seq<FloodingState<P, V>>,
    events: Seq<FloodingEvent<P, V>>,
    results: Seq<Result<Vec<FloodingAction<P, V>>, InternalError>>,
    at: int,
    round: nat,
    value: V,
) where P: Process, V: Value, F: Fn(&Vec<V>) -> Result<V, InternalError>
    requires
        is_run(algorithm, states, events, results),
        states[0].proposals[round].len() == 0,
        0 <= at < states.len(),
        states[at].proposals[round].contains(value),
    ensures
        exists|i: int| 0 <= i < at && #[trigger] brings(events[i], round, value),
    decreases at,
{
    if at > 0 {
        assert(algorithm.event_result(events[at - 1], states[at - 1], results[at - 1]));
        lemma_proposals_come_from_events(
            algorithm,
            events[at - 1],
            states[at - 1],
            results[at - 1],
            round,
            value,
        );
        if states[at - 1].proposals[round].contains(value) {
            lemma_run_proposals_come_from_events(
                algorithm,
                states,
                events,
                results,
                at - 1,
                round,
                value,
            );
        }
    }
}

/// The decision that a process holds, in a run that started undecided, is a clone of a
/// value that an earlier event of the run led to: a delivered message announced it, or the
/// selection function picked it from the proposals recorded for the round of that time.
pub proof fn lemma_run_decision_is_adopted_or_selected<P, V, F>(
    algorithm: FloodingAlgorithm<P, V, F>,
    states: Seq<FloodingState<P, V>>,
    events: Seq<FloodingEvent<P, V>>,
    results: Seq<Result<Vec<FloodingAction<P, V>>, InternalError>>,
    at: int,
) where P: Process, V: Value, F: Fn(&Vec<V>) -> Result<V, InternalError>
    requires
        is_run(algorithm, states, events, results),
        states[0].decision is None,
        0 <= at < states.len(),
        states[at].decision is Some,
    ensures
        exists|i: int|
            0 <= i < at && #[trigger] originates(
                algorithm,
                events[i],
                states[i + 1],
                states[at].decision->Some_0,
            ),
    decreases at,
{
    if at > 0 {
        assert(algorithm.event_result(events[at - 1], states[at - 1], results[at - 1]));
        if states[at - 1].decision is Some {
            lemma_transition_grows(algorithm, events[at - 1], states[at - 1], results[at - 1]);
            lemma_run_decision_is_adopted_or_selected(algorithm, states, events, results, at - 1);
            let i = choose|i: int|
                0 <= i < at - 1 && #[trigger] originates(
                    algorithm,
                    events[i],
                    states[i + 1],
                    states[at - 1].decision->Some_0,
                );
            assert(originates(algorithm, events[i], states[i + 1], states[at].decision->Some_0));
        } else {
            lemma_decision_is_adopted_or_selected(
                algorithm,
                events[at - 1],
                states[at - 1],
                results[at - 1],
            );
            assert(originates(
                algorithm,
                events[at - 1],
                states[at],
                states[at].decision->Some_0,
            ));
        }
    }
}

/// A process reports a decision to its application at most once: once it holds a decision,
/// no transition fails, and none asks for a decision to be reported or announced.
pub proof fn lemma_decided_process_decides_no_more<P, V, F>(
    algorithm: FloodingAlgorithm<P, V, F>,
    event: FloodingEvent<P, V>,
    state: FloodingState<P, V>,
    result: Result<Vec<FloodingAction<P, V>>, InternalError>,
) where P: Process, V: Value, F: Fn(&Vec<V>) -> Result<V, InternalError>
    requires
        algorithm.event_result(event, state, result),
        state.decision is Some,
    ensures
        result is Ok,
        forall|i: int|
            0 <= i < result->Ok_0@.len() ==> match #[trigger] result->Ok_0@[i] {
                FloodingAction::UpdateContext(_) => i == 0,
                FloodingAction::Broadcast(message) => message is Proposal,
                FloodingAction::Decide(_) => false,
            },
{
}

/// A report that a process has crashed, if the transition succeeds, leaves as correct
/// exactly the processes that were correct before, without that process.
pub proof fn lemma_crash_removes_process<P, V, F>(
    algorithm: FloodingAlgorithm<P, V, F>,
    state: FloodingState<P, V>,
    process: P,
    result: Result<Vec<FloodingAction<P, V>>, InternalError>,
) where P: Process, V: Value, F: Fn(&Vec<V>) -> Result<V, InternalError>
    requires
        algorithm.crash_result(state, process, result),
        result is Ok,
    ensures
        state_after(state, result).correct == state.correct.remove(process),
{
    let actions = result->Ok_0;
    if state.correct.contains(process) {
        lemma_settling_grows(
            algorithm,
            state.crash(process),
            state_after(state, result),
            actions@.skip(1),
        );
    } else {
        assert(state.correct.remove(process) =~= state.correct);
    }
}

/// A second report that the same process has crashed changes nothing and asks for nothing.
pub proof fn lemma_second_crash_is_ignored<P, V, F>(
    algorithm: FloodingAlgorithm<P, V, F>,
    state: FloodingState<P, V>,
    process: P,
    first: Result<Vec<FloodingAction<P, V>>, InternalError>,
    second: Result<Vec<FloodingAction<P, V>>, InternalError>,
) where P: Process, V: Value, F: Fn(&Vec<V>) -> Result<V, InternalError>
    requires
        algorithm.crash_result(state, process, first),
        first is Ok,
        algorithm.crash_result(state_after(state, first), process, second),
    ensures
        second matches Ok(actions) && actions@.len() == 0,
        state_after(state_after(state, first), second) == state_after(state, first),
{
    lemma_crash_removes_process(algorithm, state, process, first);
}

/// When the same decision of the same process is delivered twice, the second delivery
/// changes nothing and asks for nothing: the decision is neither broadcast nor reported
/// again.
pub proof fn lemma_second_decided_is_ignored<P, V, F>(
    algorithm: FloodingAlgorithm<P, V, F>,
    state: FloodingState<P, V>,
    process: P,
    value: V,
    first: Result<Vec<FloodingAction<P, V>>, InternalError>,
    second: Result<Vec<FloodingAction<P, V>>, InternalError>,
) where P: Process, V: Value, F: Fn(&Vec<V>) -> Result<V, InternalError>
    requires
        algorithm.decided_result(state, process, value, first),
        algorithm.decided_result(state_after(state, first), process, value, second),
    ensures
        second matches Ok(actions) && actions@.len() == 0,
        state_after(state_after(state, first), second) == state_after(state, first),
{
}

/// A value is among the proposals of a round after a transition only if it was there
/// before, or the event brought it: as the value that the local application proposed, or
/// as one of the proposals that a process sent for that round.
pub proof fn lemma_proposals_come_from_events<P, V, F>(
    algorithm: FloodingAlgorithm<P, V, F>,
    event: FloodingEvent<P, V>,
    state: FloodingState<P, V>,
    result: Result<Vec<FloodingAction<P, V>>, InternalError>,
    round: nat,
    value: V,
) where P: Process, V: Value, F: Fn(&Vec<V>) -> Result<V, InternalError>
    requires
        algorithm.event_result(event, state, result),
        state_after(state, result).proposals[round].contains(value),
    ensures
        state.proposals[round].contains(value) || brings(event, round, value),
{
    let next = state_after(state, result);
    match result {
        Err(_) => {},
        Ok(actions) => {
            if actions@.len() > 0 {
                match event {
                    FloodingEvent::Crash(process) => {
                        lemma_settling_grows(
                            algorithm,
                            state.crash(process),
                            next,
                            actions@.skip(1),
                        );
                    },
                    FloodingEvent::Deliver(process, FloodingMessage::Proposal(sent_for, values)) => {
                        let recorded = state.record(process, sent_for as nat, values@);
                        if sent_for == state.round {
                            lemma_settling_grows(algorithm, recorded, next, actions@.skip(1));
                        }
                        if round == sent_for {
                            let all = state.proposals[round] + values@;
                            let i = choose|i: int| 0 <= i < all.len() && all[i] == value;
                            if i < state.proposals[round].len() {
                                assert(state.proposals[round][i] == value);
                            } else {
                                assert(values@[i - state.proposals[round].len()] == value);
                            }
                        }
                    },
                    FloodingEvent::Deliver(process, FloodingMessage::Decided(decided)) => {},
                    FloodingEvent::Propose(proposed) => {
                        if round == 1 {
                            let all = state.proposals[1].push(proposed);
                            let i = choose|i: int| 0 <= i < all.len() && all[i] == value;
                            if i < state.proposals[1].len() {
                                assert(state.proposals[1][i] == value);
                            }
                        }
                    },
                }
            }
        },
    }
}

/// Whether `decision` is a clone of a value that `event` has led a process to decide on,
/// where `next` is the state of the process after the event: the event delivered a message
/// that announced the value, or the selection function picked the value from the proposals
/// recorded for the current round.
pub open spec fn originates<P, V, F>(
    algorithm: FloodingAlgorithm<P, V, F>,
    event: FloodingEvent<P, V>,
    next: FloodingState<P, V>,
    decision: V,
) -> bool where P: Process, V: Value, F: Fn(&Vec<V>) -> Result<V, InternalError> {
    ||| event matches FloodingEvent::Deliver(_, FloodingMessage::Decided(announced)) && cloned(
        announced,
        decision,
    )
    ||| exists|value: V|
        #[trigger] algorithm.selects(next.candidates(), Ok(value)) && cloned(value, decision)
}

/// A process comes to a decision in one of two ways only: it takes over the value that a
/// delivered message announces, or the selection function picks a value from the proposals
/// recorded for the current round. Either way the process holds a clone of that value.
pub proof fn lemma_decision_is_adopted_or_selected<P, V, F>(
    algorithm: FloodingAlgorithm<P, V, F>,
    event: FloodingEvent<P, V>,
    state: FloodingState<P, V>,
    result: Result<Vec<FloodingAction<P, V>>, InternalError>,
) where P: Process, V: Value, F: Fn(&Vec<V>) -> Result<V, InternalError>
    requires
        algorithm.event_result(event, state, result),
        state.decision is None,
        state_after(state, result).decision is Some,
    ensures
        originates(
            algorithm,
            event,
            state_after(state, result),
            state_after(state, result).decision->Some_0,
        ),
{
    let next = state_after(state, result);
    let actions = result->Ok_0;
    match event {
        FloodingEvent::Crash(process) => {
            lemma_decision_is_selected(algorithm, state.crash(process), next, actions@.skip(1));
        },
        FloodingEvent::Deliver(process, FloodingMessage::Proposal(round, values)) => {
            let recorded = state.record(process, round as nat, values@);
            lemma_decision_is_selected(algorithm, recorded, next, actions@.skip(1));
        },
        FloodingEvent::Deliver(process, FloodingMessage::Decided(announced)) => {},
        FloodingEvent::Propose(proposed) => {},
    }
}

/// A decision that the convergence check takes is a clone of a value that the selection
/// function picks from the proposals of the current round.
proof fn lemma_decision_is_selected<P, V, F>(
    algorithm: FloodingAlgorithm<P, V, F>,
    state: FloodingState<P, V>,
    next: FloodingState<P, V>,
    effects: Seq<FloodingAction<P, V>>,
) where P: Process, V: Value, F: Fn(&Vec<V>) -> Result<V, InternalError>
    requires
        algorithm.settles(state, next, effects),
        state.decision is None,
        next.decision is Some,
    ensures
        exists|value: V|
            #[trigger] algorithm.selects(next.candidates(), Ok(value)) && cloned(
                value,
                next.decision->Some_0,
            ),
{
    let value = choose|value: V|
        algorithm.selects(state.candidates(), Ok(value)) && #[trigger] decides(
            state,
            next,
            effects,
            value,
        );
    assert(algorithm.selects(next.candidates(), Ok(value)));
}

/// Two processes that decide by themselves on the same proposals decide alike, if they
/// select with the same deterministic function: both report the same value to their
/// applications, and both hold a clone of it as their decision; where clones are faithful,
/// the two decisions are equal.
pub proof fn lemma_same_proposals_same_decision<P, V, F>(
    algorithm: FloodingAlgorithm<P, V, F>,
    one_event: FloodingEvent<P, V>,
    one: FloodingState<P, V>,
    one_result: Result<Vec<FloodingAction<P, V>>, InternalError>,
    other_event: FloodingEvent<P, V>,
    other: FloodingState<P, V>,
    other_result: Result<Vec<FloodingAction<P, V>>, InternalError>,
) where P: Process, V: Value, F: Fn(&Vec<V>) -> Result<V, InternalError>
    requires
        algorithm.deterministic(),
        algorithm.event_result(one_event, one, one_result),
        algorithm.event_result(other_event, other, other_result),
        !(one_event matches FloodingEvent::Deliver(_, FloodingMessage::Decided(_))),
        !(other_event matches FloodingEvent::Deliver(_, FloodingMessage::Decided(_))),
        one.decision is None,
        other.decision is None,
        state_after(one, one_result).decision is Some,
        state_after(other, other_result).decision is Some,
        state_after(one, one_result).candidates() == state_after(other, other_result).candidates(),
    ensures
        ({
            let one_decision = state_after(one, one_result).decision->Some_0;
            let other_decision = state_after(other, other_result).decision->Some_0;
            &&& one_result->Ok_0@.len() == 3
            &&& other_result->Ok_0@.len() == 3
            &&& one_result->Ok_0@[2] == other_result->Ok_0@[2]
            &&& exists|value: V|
                {
                    &&& one_result->Ok_0@[2] == FloodingAction::<P, V>::Decide(value)
                    &&& #[trigger] cloned(value, one_decision)
                    &&& cloned(value, other_decision)
                }
            &&& clone_is_faithful::<V>() ==> one_decision == other_decision
        }),
{
    let one_next = state_after(one, one_result);
    let other_next = state_after(other, other_result);
    let one_actions = one_result->Ok_0@;
    let other_actions = other_result->Ok_0@;
    let one_before = match one_event {
        FloodingEvent::Crash(process) => one.crash(process),
        FloodingEvent::Deliver(process, FloodingMessage::Proposal(round, values)) => one.record(
            process,
            round as nat,
            values@,
        ),
        _ => one,
    };
    let other_before = match other_event {
        FloodingEvent::Crash(process) => other.crash(process),
        FloodingEvent::Deliver(process, FloodingMessage::Proposal(round, values)) => other.record(
            process,
            round as nat,
            values@,
        ),
        _ => other,
    };
    let one_value = choose|value: V|
        algorithm.selects(one_before.candidates(), Ok(value)) && #[trigger] decides(
            one_before,
            one_next,
            one_actions.skip(1),
            value,
        );
    let other_value = choose|value: V|
        algorithm.selects(other_before.candidates(), Ok(value)) && #[trigger] decides(
            other_before,
            other_next,
            other_actions.skip(1),
            value,
        );
    assert(algorithm.selects(one_next.candidates(), Ok(one_value)));
    assert(algorithm.selects(one_next.candidates(), Ok(other_value)));
    assert(one_value == other_value);
}

/// A process that takes over a decision holds a clone of the value that the message
/// announced, reports that very value to its application, and announces a clone of it in
/// turn; where clones are faithful, its decision is equal to the value announced.
pub proof fn lemma_adopted_decision_is_the_announced_one<P, V, F>(
    algorithm: FloodingAlgorithm<P, V, F>,
    state: FloodingState<P, V>,
    process: P,
    value: V,
    result: Result<Vec<FloodingAction<P, V>>, InternalError>,
) where P: Process, V: Value, F: Fn(&Vec<V>) -> Result<V, InternalError>
    requires
        algorithm.decided_result(state, process, value, result),
        state.correct.contains(process),
        state.decision is None,
    ensures
        ({
            let next = state_after(state, result);
            &&& result matches Ok(actions) && actions@.len() == 3 && actions@[1].announces(value)
                && actions@[2] == FloodingAction::<P, V>::Decide(value)
            &&& next.decision matches Some(decision) && cloned(value, decision)
            &&& clone_is_faithful::<V>() ==> next.decision == Some(value)
        }),
{
}

/// With a deterministic selection function and faithful clones, the convergence check leads
/// from one state to one state only, and fails or succeeds alike.
proof fn lemma_settling_is_deterministic<P, V, F>(
    algorithm: FloodingAlgorithm<P, V, F>,
    state: FloodingState<P, V>,
    one: Result<Vec<FloodingAction<P, V>>, InternalError>,
    other: Result<Vec<FloodingAction<P, V>>, InternalError>,
) where P: Process, V: Value, F: Fn(&Vec<V>) -> Result<V, InternalError>
    requires
        algorithm.deterministic(),
        clone_is_faithful::<V>(),
        algorithm.settled_result(state, one),
        algorithm.settled_result(state, other),
    ensures
        one is Ok <==> other is Ok,
        one is Ok ==> one->Ok_0@[0]->UpdateContext_0@ == other->Ok_0@[0]->UpdateContext_0@,
        one is Err ==> one == other,
{
    if state.ready() && state.stable() {
        let one_outcome: Result<V, InternalError> = match one {
            Ok(actions) => Ok(
                choose|value: V|
                    algorithm.selects(state.candidates(), Ok(value)) && #[trigger] decides(
                        state,
                        actions@[0]->UpdateContext_0@,
                        actions@.skip(1),
                        value,
                    ),
            ),
            Err(error) => Err(error),
        };
        let other_outcome: Result<V, InternalError> = match other {
            Ok(actions) => Ok(
                choose|value: V|
                    algorithm.selects(state.candidates(), Ok(value)) && #[trigger] decides(
                        state,
                        actions@[0]->UpdateContext_0@,
                        actions@.skip(1),
                        value,
                    ),
            ),
            Err(error) => Err(error),
        };
        assert(algorithm.selects(state.candidates(), one_outcome));
        assert(algorithm.selects(state.candidates(), other_outcome));
        assert(one_outcome == other_outcome);
    }
}

/// With a deterministic selection function and faithful clones, an event leads from one
/// state to one state only: two processes in the same state that are fed the same event
/// are in the same state afterwards, and the transition fails for both or for neither.
pub proof fn lemma_transition_is_deterministic<P, V, F>(
    algorithm: FloodingAlgorithm<P, V, F>,
    event: FloodingEvent<P, V>,
    state: FloodingState<P, V>,
    one: Result<Vec<FloodingAction<P, V>>, InternalError>,
    other: Result<Vec<FloodingAction<P, V>>, InternalError>,
) where P: Process, V: Value, F: Fn(&Vec<V>) -> Result<V, InternalError>
    requires
        algorithm.deterministic(),
        clone_is_faithful::<V>(),
        algorithm.event_result(event, state, one),
        algorithm.event_result(event, state, other),
    ensures
        state_after(state, one) == state_after(state, other),
        one is Ok <==> other is Ok,
        one is Err ==> one == other,
{
    match event {
        FloodingEvent::Crash(process) => {
            if state.correct.contains(process) {
                lemma_settling_is_deterministic(algorithm, state.crash(process), one, other);
            }
        },
        FloodingEvent::Deliver(process, FloodingMessage::Proposal(round, values)) => {
            if round == state.round {
                lemma_settling_is_deterministic(
                    algorithm,
                    state.record(process, round as nat, values@),
                    one,
                    other,
                );
            }
        },
        FloodingEvent::Deliver(process, FloodingMessage::Decided(value)) => {},
        FloodingEvent::Propose(value) => {},
    }
}

/// Two processes that start in the same state and are fed the same events go through the
/// same states, if they select with the same deterministic function and clones are
/// faithful. So they hold the same decision, at every moment at which one of them holds
/// one.
pub proof fn lemma_same_events_same_states<P, V, F>(
    algorithm: FloodingAlgorithm<P, V, F>,
    events: Seq<FloodingEvent<P, V>>,
    one_states: Seq<FloodingState<P, V>>,
    one_results: Seq<Result<Vec<FloodingAction<P, V>>, InternalError>>,
    other_states: Seq<FloodingState<P, V>>,
    other_results: Seq<Result<Vec<FloodingAction<P, V>>, InternalError>>,
    at: int,
) where P: Process, V: Value, F: Fn(&Vec<V>) -> Result<V, InternalError>
    requires
        algorithm.deterministic(),
        clone_is_faithful::<V>(),
        is_run(algorithm, one_states, events, one_results),
        is_run(algorithm, other_states, events, other_results),
        one_states[0] == other_states[0],
        0 <= at < one_states.len(),
    ensures
        one_states[at] == other_states[at],
    decreases at,
{
    if at > 0 {
        lemma_same_events_same_states(
            algorithm,
            events,
            one_states,
            one_results,
            other_states,
            other_results,
            at - 1,
        );
        assert(algorithm.event_result(events[at - 1], one_states[at - 1], one_results[at - 1]));
        assert(algorithm.event_result(events[at - 1], other_states[at - 1], other_results[at - 1]));
        lemma_transition_is_deterministic(
            algorithm,
            events[at - 1],
            one_states[at - 1],
            one_results[at - 1],
            other_results[at - 1],
        );
    }
}

} // verus!
