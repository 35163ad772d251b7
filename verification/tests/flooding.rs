use std::cell::RefCell;

use augrim::algorithm::flooding::algorithm::record_decision;
use augrim::algorithm::flooding::context::ensure_row;
use augrim::algorithm::flooding::{
    FloodingAction, FloodingAlgorithm, FloodingContext, FloodingEvent, FloodingMessage,
};
use augrim::algorithm::{Algorithm, Value};
use augrim::error::InternalError;
use augrim::process::Process;

#[derive(Clone, Copy, Debug, PartialEq, Eq)]
struct Node(u64);

impl Process for Node {}

/// A proposed text together with the id of the process that proposed it.
#[derive(Clone, Debug, PartialEq, Eq)]
struct Entry {
    from: u64,
    text: &'static str,
}

impl Value for Entry {}

fn entry(from: u64, text: &'static str) -> Entry {
    Entry { from, text }
}

/// Picks the value proposed by the process with the lowest id.
fn lowest(values: &Vec<Entry>) -> Result<Entry, InternalError> {
    match values.iter().min_by_key(|value| value.from) {
        Some(value) => Ok(value.clone()),
        None => Err(InternalError::with_message("no proposals".to_string())),
    }
}

type Actions = Vec<FloodingAction<Node, Entry>>;

fn algorithm() -> FloodingAlgorithm<Node, Entry, fn(&Vec<Entry>) -> Result<Entry, InternalError>> {
    FloodingAlgorithm::new(lowest as fn(&Vec<Entry>) -> Result<Entry, InternalError>)
}

fn run(event: FloodingEvent<Node, Entry>, context: FloodingContext<Node, Entry>) -> Actions {
    algorithm().event(event, context).unwrap()
}

/// Splits a list of actions that is not empty into the context of the first action and the
/// actions that follow it.
fn split(actions: Actions) -> (FloodingContext<Node, Entry>, Actions) {
    let mut rest = actions.into_iter();
    match rest.next() {
        Some(FloodingAction::UpdateContext(context)) => (context, rest.collect()),
        _ => panic!("the first action must update the context"),
    }
}

fn proposal(round: usize, values: Vec<Entry>) -> FloodingMessage<Entry> {
    FloodingMessage::Proposal(round, values)
}

fn assert_floods(action: &FloodingAction<Node, Entry>, round: usize, values: Vec<Entry>) {
    match action {
        FloodingAction::Broadcast(FloodingMessage::Proposal(r, v)) => {
            assert_eq!(*r, round);
            assert_eq!(*v, values);
        }
        _ => panic!("expected a broadcast of proposals"),
    }
}

fn assert_decides(rest: &Actions, value: Entry) {
    assert_eq!(rest.len(), 2);
    match &rest[0] {
        FloodingAction::Broadcast(FloodingMessage::Decided(v)) => assert_eq!(*v, value),
        _ => panic!("expected a broadcast of the decision"),
    }
    match &rest[1] {
        FloodingAction::Decide(v) => assert_eq!(*v, value),
        _ => panic!("expected the decision"),
    }
}

#[test]
fn a_new_context_starts_in_round_one() {
    let context: FloodingContext<Node, Entry> = FloodingContext::new(vec![Node(1), Node(2), Node(3)]);
    assert_eq!(context.correct(), &vec![Node(1), Node(2), Node(3)]);
    assert_eq!(context.round(), 1);
    assert_eq!(context.decision(), &None);
    assert_eq!(
        context.received_from(),
        &vec![vec![Node(1), Node(2), Node(3)], vec![], vec![]]
    );
    assert_eq!(context.proposals(), &vec![vec![], vec![], vec![]]);
}

#[test]
fn a_context_without_processes_has_no_rows() {
    let context: FloodingContext<Node, Entry> = FloodingContext::new(vec![]);
    assert!(context.correct().is_empty());
    assert_eq!(context.round(), 1);
    assert!(context.received_from().is_empty());
    assert!(context.proposals().is_empty());
}

#[test]
fn the_fields_of_a_context_can_be_replaced() {
    let mut context: FloodingContext<Node, Entry> = FloodingContext::new(vec![Node(1), Node(2)]);
    context.set_round(4);
    context.set_decision(Some(entry(1, "A")));
    context.correct_mut().pop();
    context.received_from_mut()[1].push(Node(2));
    context.proposals_mut()[1].push(entry(2, "B"));
    assert_eq!(context.round(), 4);
    assert_eq!(context.decision(), &Some(entry(1, "A")));
    assert_eq!(context.correct(), &vec![Node(1)]);
    assert_eq!(context.received_from(), &vec![vec![Node(1), Node(2)], vec![Node(2)]]);
    assert_eq!(context.proposals(), &vec![vec![], vec![entry(2, "B")]]);
    context.set_decision(None);
    assert_eq!(context.decision(), &None);
}

#[test]
fn rows_are_added_up_to_the_round_asked_for() {
    let mut rows: Vec<Vec<u8>> = vec![vec![1, 2]];
    ensure_row(&mut rows, 3);
    assert_eq!(rows, vec![vec![1, 2], vec![], vec![], vec![]]);
    ensure_row(&mut rows, 1);
    assert_eq!(rows, vec![vec![1, 2], vec![], vec![], vec![]]);
    let mut none: Vec<Vec<u8>> = vec![];
    ensure_row(&mut none, 0);
    assert_eq!(none, vec![Vec::<u8>::new()]);
}

#[test]
fn a_proposal_is_recorded_for_round_one_and_flooded() {
    let context = FloodingContext::new(vec![Node(1), Node(2), Node(3)]);
    let (context, rest) = split(run(FloodingEvent::Propose(entry(1, "A")), context));
    assert_eq!(context.proposals()[1], vec![entry(1, "A")]);
    assert_eq!(context.round(), 1);
    assert_eq!(context.decision(), &None);
    assert_eq!(context.correct(), &vec![Node(1), Node(2), Node(3)]);
    assert_eq!(
        context.received_from(),
        &vec![vec![Node(1), Node(2), Node(3)], vec![], vec![]]
    );
    assert_eq!(rest.len(), 1);
    assert_floods(&rest[0], 1, vec![entry(1, "A")]);

    let (context, rest) = split(run(FloodingEvent::Propose(entry(1, "Z")), context));
    assert_eq!(context.proposals()[1], vec![entry(1, "A"), entry(1, "Z")]);
    assert_floods(&rest[0], 1, vec![entry(1, "A"), entry(1, "Z")]);
}

#[test]
fn a_proposal_is_recorded_even_where_there_was_no_row_for_round_one() {
    let context = FloodingContext::new(vec![Node(1)]);
    assert_eq!(context.proposals().len(), 1);
    let (context, rest) = split(run(FloodingEvent::Propose(entry(1, "A")), context));
    assert_eq!(context.proposals(), &vec![vec![], vec![entry(1, "A")]]);
    assert_floods(&rest[0], 1, vec![entry(1, "A")]);
}

#[test]
fn three_processes_decide_on_the_proposal_of_the_lowest() {
    let (n1, n2, n3) = (Node(1), Node(2), Node(3));
    let context = FloodingContext::new(vec![n1, n2, n3]);

    // The first process proposes, and floods its proposal to all processes, itself among them.
    let (context, rest) = split(run(FloodingEvent::Propose(entry(1, "A")), context));
    assert_eq!(context.proposals()[1], vec![entry(1, "A")]);
    assert_floods(&rest[0], 1, vec![entry(1, "A")]);

    let (context, rest) = split(run(
        FloodingEvent::Deliver(n1, proposal(1, vec![entry(1, "A")])),
        context,
    ));
    assert!(rest.is_empty());
    let (context, rest) = split(run(
        FloodingEvent::Deliver(n2, proposal(1, vec![entry(2, "B")])),
        context,
    ));
    assert!(rest.is_empty());
    assert_eq!(context.round(), 1);
    assert_eq!(context.decision(), &None);

    // With the third process every correct process has been heard from, as in round 0: decide.
    let (context, rest) = split(run(
        FloodingEvent::Deliver(n3, proposal(1, vec![entry(3, "C")])),
        context,
    ));
    assert_eq!(context.received_from()[1], vec![n1, n2, n3]);
    assert_eq!(
        context.proposals()[1],
        vec![entry(1, "A"), entry(1, "A"), entry(2, "B"), entry(3, "C")]
    );
    assert_eq!(context.round(), 1);
    assert_eq!(context.decision(), &Some(entry(1, "A")));
    assert_decides(&rest, entry(1, "A"));

    // A crash that is reported after the decision only shrinks the correct processes.
    let (context, rest) = split(run(FloodingEvent::Crash(n3), context));
    assert!(rest.is_empty());
    assert_eq!(context.correct(), &vec![n1, n2]);
    assert_eq!(context.decision(), &Some(entry(1, "A")));
    assert_eq!(context.round(), 1);
}

#[test]
fn the_decision_does_not_depend_on_the_order_of_arrival() {
    let (n1, n2, n3) = (Node(1), Node(2), Node(3));
    let context = FloodingContext::new(vec![n1, n2, n3]);
    let (context, _) = split(run(
        FloodingEvent::Deliver(n3, proposal(1, vec![entry(3, "C")])),
        context,
    ));
    let (context, _) = split(run(
        FloodingEvent::Deliver(n2, proposal(1, vec![entry(2, "B")])),
        context,
    ));
    let (context, rest) = split(run(
        FloodingEvent::Deliver(n1, proposal(1, vec![entry(1, "A")])),
        context,
    ));
    assert_eq!(context.decision(), &Some(entry(1, "A")));
    assert_decides(&rest, entry(1, "A"));
}

#[test]
fn a_process_adopts_a_decision_without_completing_a_round() {
    let (n1, n2, n3, n4) = (Node(1), Node(2), Node(3), Node(4));
    let context = FloodingContext::new(vec![n1, n2, n3, n4]);
    let (context, rest) = split(run(
        FloodingEvent::Deliver(n1, FloodingMessage::Decided(entry(1, "A"))),
        context,
    ));
    assert_eq!(context.decision(), &Some(entry(1, "A")));
    assert_eq!(context.round(), 1);
    assert_eq!(context.correct(), &vec![n1, n2, n3, n4]);
    assert_eq!(context.received_from()[1], vec![]);
    assert_decides(&rest, entry(1, "A"));
}

#[test]
fn a_decision_delivered_twice_is_adopted_once() {
    let (n1, n2) = (Node(1), Node(2));
    let context = FloodingContext::new(vec![n1, n2]);
    let decided = FloodingEvent::Deliver(n1, FloodingMessage::Decided(entry(1, "A")));
    let (context, rest) = split(run(decided.clone(), context));
    assert_eq!(rest.len(), 2);
    let actions = run(decided, context);
    assert!(actions.is_empty());
}

#[test]
fn a_later_decision_does_not_replace_the_first() {
    let (n1, n2) = (Node(1), Node(2));
    let context = FloodingContext::new(vec![n1, n2]);
    let (context, _) = split(run(
        FloodingEvent::Deliver(n1, FloodingMessage::Decided(entry(1, "A"))),
        context,
    ));
    let actions = run(
        FloodingEvent::Deliver(n2, FloodingMessage::Decided(entry(2, "B"))),
        context,
    );
    assert!(actions.is_empty());
}

#[test]
fn a_decision_of_a_crashed_process_is_ignored() {
    let (n1, n2, n3) = (Node(1), Node(2), Node(3));
    let context = FloodingContext::new(vec![n1, n2, n3]);
    let (context, _) = split(run(FloodingEvent::Crash(n2), context));
    let actions = run(
        FloodingEvent::Deliver(n2, FloodingMessage::Decided(entry(2, "B"))),
        context,
    );
    assert!(actions.is_empty());
}

#[test]
fn a_crash_takes_the_process_out_of_the_correct_ones() {
    let (n1, n2, n3) = (Node(1), Node(2), Node(3));
    let context = FloodingContext::new(vec![n1, n2, n3]);
    let (context, rest) = split(run(FloodingEvent::Crash(n1), context));
    assert!(rest.is_empty());
    assert_eq!(context.correct().len(), 2);
    assert!(context.correct().contains(&n2));
    assert!(context.correct().contains(&n3));
    assert!(!context.correct().contains(&n1));
    assert_eq!(context.round(), 1);

    let actions = run(FloodingEvent::Crash(n1), context);
    assert!(actions.is_empty());
}

#[test]
fn a_crash_of_an_unknown_process_changes_nothing() {
    let context = FloodingContext::new(vec![Node(1), Node(2)]);
    let actions = run(FloodingEvent::Crash(Node(9)), context);
    assert!(actions.is_empty());
}

#[test]
fn a_crash_takes_out_every_occurrence_of_the_process() {
    let (n1, n2) = (Node(1), Node(2));
    let context = FloodingContext::new(vec![n1, n2, n1, n1]);
    let (context, _) = split(run(FloodingEvent::Crash(n1), context));
    assert_eq!(context.correct(), &vec![n2]);
}

#[test]
fn a_changed_set_of_respondents_leads_to_the_next_round() {
    let (n1, n2) = (Node(1), Node(2));
    let context = FloodingContext::new(vec![n1, n2]);
    let (context, _) = split(run(FloodingEvent::Propose(entry(1, "A")), context));
    let (context, rest) = split(run(FloodingEvent::Crash(n2), context));
    assert!(rest.is_empty());

    // One process is heard from in round 1, but round 0 had heard from both: next round.
    let (context, rest) = split(run(
        FloodingEvent::Deliver(n1, proposal(1, vec![entry(1, "A")])),
        context,
    ));
    assert_eq!(context.round(), 2);
    assert_eq!(context.decision(), &None);
    assert_eq!(rest.len(), 1);
    assert_floods(&rest[0], 2, vec![entry(1, "A"), entry(1, "A")]);

    // Round 2 hears from the same processes as round 1: decide on the proposals of round 2.
    let (context, rest) = split(run(
        FloodingEvent::Deliver(n1, proposal(2, vec![entry(1, "A"), entry(2, "B")])),
        context,
    ));
    assert_eq!(context.round(), 2);
    assert_eq!(context.proposals()[2], vec![entry(1, "A"), entry(2, "B")]);
    assert_eq!(context.decision(), &Some(entry(1, "A")));
    assert_decides(&rest, entry(1, "A"));
}

#[test]
fn a_crash_can_complete_the_round() {
    let (n1, n2) = (Node(1), Node(2));
    let context = FloodingContext::new(vec![n1, n2]);
    let (context, rest) = split(run(
        FloodingEvent::Deliver(n1, proposal(1, vec![entry(1, "A")])),
        context,
    ));
    assert!(rest.is_empty());
    assert_eq!(context.round(), 1);
    let (context, rest) = split(run(FloodingEvent::Crash(n2), context));
    assert_eq!(context.correct(), &vec![n1]);
    assert_eq!(context.round(), 2);
    assert_eq!(rest.len(), 1);
    assert_floods(&rest[0], 2, vec![entry(1, "A")]);
}

#[test]
fn the_same_process_heard_twice_counts_once() {
    let (n1, n2) = (Node(1), Node(2));
    let context = FloodingContext::new(vec![n1, n2]);
    let (context, _) = split(run(FloodingEvent::Deliver(n1, proposal(1, vec![entry(1, "A")])), context));
    let (context, rest) = split(run(FloodingEvent::Deliver(n1, proposal(1, vec![])), context));
    assert!(rest.is_empty());
    assert_eq!(context.received_from()[1], vec![n1, n1]);
    // Two entries in round 1 and two processes in round 0, yet one has not been heard from.
    assert_eq!(context.decision(), &None);
    let (context, rest) = split(run(FloodingEvent::Deliver(n2, proposal(1, vec![])), context));
    assert_eq!(context.received_from()[1], vec![n1, n1, n2]);
    assert_eq!(context.decision(), &Some(entry(1, "A")));
    assert_decides(&rest, entry(1, "A"));
}

#[test]
fn a_proposal_for_another_round_is_only_recorded() {
    let (n1, n2) = (Node(1), Node(2));
    let context = FloodingContext::new(vec![n1, n2]);
    let (context, _) = split(run(FloodingEvent::Crash(n2), context));
    // The round for which the process is heard is not the current one: no check, no decision.
    let (context, rest) = split(run(
        FloodingEvent::Deliver(n1, proposal(0, vec![entry(1, "A")])),
        context,
    ));
    assert!(rest.is_empty());
    assert_eq!(context.round(), 1);
    assert_eq!(context.received_from()[0], vec![n1, n2, n1]);
    assert_eq!(context.proposals()[0], vec![entry(1, "A")]);
}

#[test]
fn a_proposal_for_a_round_far_ahead_is_kept() {
    let (n1, n2) = (Node(1), Node(2));
    let context = FloodingContext::new(vec![n1, n2]);
    let (context, rest) = split(run(
        FloodingEvent::Deliver(n2, proposal(1000, vec![entry(2, "B")])),
        context,
    ));
    assert!(rest.is_empty());
    assert_eq!(context.round(), 1);
    assert_eq!(context.decision(), &None);
    assert_eq!(context.received_from().len(), 1001);
    assert_eq!(context.received_from()[1000], vec![n2]);
    assert_eq!(context.proposals()[1000], vec![entry(2, "B")]);
    assert!(context.received_from()[999].is_empty());
    assert_eq!(context.received_from()[0], vec![n1, n2]);
}

#[test]
fn a_proposal_of_a_crashed_process_is_still_recorded() {
    let (n1, n2) = (Node(1), Node(2));
    let context = FloodingContext::new(vec![n1, n2]);
    let (context, _) = split(run(FloodingEvent::Crash(n2), context));
    let (context, rest) = split(run(
        FloodingEvent::Deliver(n2, proposal(1, vec![entry(2, "B")])),
        context,
    ));
    assert!(rest.is_empty());
    assert_eq!(context.received_from()[1], vec![n2]);
    assert_eq!(context.proposals()[1], vec![entry(2, "B")]);
    assert_eq!(context.correct(), &vec![n1]);
}

#[test]
fn a_failed_selection_fails_the_transition() {
    let n1 = Node(1);
    let context: FloodingContext<Node, Entry> = FloodingContext::new(vec![n1]);
    let result = algorithm().event(FloodingEvent::Deliver(n1, proposal(1, vec![])), context);
    match result {
        Ok(_) => panic!("nothing to select from"),
        Err(error) => assert_eq!(error.message(), "no proposals"),
    }
}

#[test]
fn nothing_is_decided_after_a_decision() {
    let (n1, n2) = (Node(1), Node(2));
    let context = FloodingContext::new(vec![n1, n2]);
    let (context, _) = split(run(
        FloodingEvent::Deliver(n2, FloodingMessage::Decided(entry(2, "B"))),
        context,
    ));
    let (context, rest) = split(run(FloodingEvent::Deliver(n1, proposal(1, vec![entry(1, "A")])), context));
    assert!(rest.is_empty());
    let (context, rest) = split(run(FloodingEvent::Deliver(n2, proposal(1, vec![])), context));
    assert!(rest.is_empty());
    assert_eq!(context.decision(), &Some(entry(2, "B")));
    assert_eq!(context.round(), 1);
}

#[test]
fn the_round_never_goes_back() {
    let (n1, n2, n3) = (Node(1), Node(2), Node(3));
    let events = vec![
        FloodingEvent::Propose(entry(1, "A")),
        FloodingEvent::Crash(n3),
        FloodingEvent::Deliver(n1, proposal(1, vec![entry(1, "A")])),
        FloodingEvent::Deliver(n2, proposal(1, vec![entry(2, "B")])),
        FloodingEvent::Deliver(n2, proposal(2, vec![entry(2, "B")])),
        FloodingEvent::Crash(n2),
        FloodingEvent::Deliver(n1, proposal(2, vec![entry(1, "A")])),
        FloodingEvent::Deliver(n1, proposal(3, vec![entry(1, "A")])),
        FloodingEvent::Deliver(n1, FloodingMessage::Decided(entry(9, "Z"))),
        FloodingEvent::Crash(n1),
    ];
    let mut context = FloodingContext::new(vec![n1, n2, n3]);
    let mut rounds = vec![context.round()];
    let mut decisions = vec![context.decision().clone()];
    for event in events {
        let actions = run(event, context.clone());
        if !actions.is_empty() {
            context = split(actions).0;
        }
        rounds.push(context.round());
        decisions.push(context.decision().clone());
    }
    assert_eq!(rounds, vec![1, 1, 1, 1, 2, 2, 2, 2, 2, 2, 2]);
    let decided = Some(entry(1, "A"));
    assert_eq!(
        decisions,
        vec![
            None,
            None,
            None,
            None,
            None,
            None,
            None,
            decided.clone(),
            decided.clone(),
            decided.clone(),
            decided
        ]
    );
}

#[test]
fn a_decision_is_stored_announced_and_reported() {
    let mut context: FloodingContext<Node, Entry> = FloodingContext::new(vec![Node(1)]);
    let mut actions: Actions = vec![FloodingAction::Decide(entry(0, "kept"))];
    record_decision(&mut context, &mut actions, entry(1, "A"));
    assert_eq!(context.decision(), &Some(entry(1, "A")));
    assert_eq!(context.round(), 1);
    assert_eq!(actions.len(), 3);
    assert!(matches!(&actions[0], FloodingAction::Decide(v) if *v == entry(0, "kept")));
    let rest: Actions = actions.into_iter().skip(1).collect();
    assert_decides(&rest, entry(1, "A"));
}

#[test]
fn the_selection_is_handed_the_proposals_of_the_current_round() {
    let (n1, n2, n3) = (Node(1), Node(2), Node(3));
    let seen: RefCell<Vec<Vec<Entry>>> = RefCell::new(Vec::new());
    let algorithm = FloodingAlgorithm::new(|values: &Vec<Entry>| {
        seen.borrow_mut().push(values.clone());
        lowest(values)
    });
    let mut context: FloodingContext<Node, Entry> = FloodingContext::new(vec![n1, n2, n3]);
    let events = vec![
        FloodingEvent::Propose(entry(1, "A")),
        FloodingEvent::Deliver(n1, proposal(1, vec![])),
        FloodingEvent::Deliver(n2, proposal(1, vec![entry(2, "B")])),
        FloodingEvent::Deliver(n2, proposal(2, vec![entry(9, "later")])),
    ];
    for event in events {
        context = split(algorithm.event(event, context).unwrap()).0;
        assert!(seen.borrow().is_empty());
    }
    let (context, rest) = split(
        algorithm
            .event(FloodingEvent::Deliver(n3, proposal(1, vec![entry(3, "C")])), context)
            .unwrap(),
    );
    assert_eq!(
        *seen.borrow(),
        vec![vec![entry(1, "A"), entry(2, "B"), entry(3, "C")]]
    );
    assert_eq!(context.proposals()[1], vec![entry(1, "A"), entry(2, "B"), entry(3, "C")]);
    assert_eq!(context.decision(), &Some(entry(1, "A")));
    assert_decides(&rest, entry(1, "A"));
}

#[test]
fn a_decided_value_was_proposed_or_delivered_before() {
    let (n1, n2) = (Node(1), Node(2));
    let context = FloodingContext::new(vec![n1, n2]);
    let (context, _) = split(run(FloodingEvent::Propose(entry(1, "mine")), context));
    let (context, _) = split(run(
        FloodingEvent::Deliver(n2, proposal(1, vec![entry(2, "theirs"), entry(0, "relayed")])),
        context,
    ));
    let (context, rest) = split(run(FloodingEvent::Deliver(n1, proposal(1, vec![])), context));
    let brought = vec![entry(1, "mine"), entry(2, "theirs"), entry(0, "relayed")];
    assert_eq!(context.proposals()[1], brought);
    let decision = context.decision().clone().unwrap();
    assert!(brought.contains(&decision));
    assert_decides(&rest, entry(0, "relayed"));
}

/// A host that knows nothing of the algorithm it drives.
fn drive<A: Algorithm<Node>>(
    algorithm: &A,
    event: A::Event,
    context: A::Context,
) -> Result<Vec<A::Action>, InternalError> {
    algorithm.event(event, context)
}

#[test]
fn a_host_drives_the_algorithm_through_its_contract() {
    let context: FloodingContext<Node, Entry> = FloodingContext::new(vec![Node(1)]);
    let actions = drive(&algorithm(), FloodingEvent::Propose(entry(1, "A")), context).unwrap();
    let (context, rest) = split(actions);
    assert_eq!(rest.len(), 1);
    let actions = drive(
        &algorithm(),
        FloodingEvent::Deliver(Node(1), proposal(1, vec![])),
        context,
    )
    .unwrap();
    let (context, rest) = split(actions);
    assert_eq!(context.decision(), &Some(entry(1, "A")));
    assert_decides(&rest, entry(1, "A"));
}
