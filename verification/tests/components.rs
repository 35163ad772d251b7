use std::cell::RefCell;

use augrim::algorithm::flooding::{
    FloodingConsensus, FloodingConsensusMessage, PerfectFailureDetectorReceiver,
};
use augrim::broadcast::BestEffortBroadcastSender;
use augrim::communication::internal::{
    next_delivery, ControlMessage, Delivery, IntraProcessNetworkError, IntraProcessNetworkReceiver,
};
use augrim::error::{InternalError, InvalidStateError};
use augrim::links::stubborn::{StubbornReceiver, StubbornSender};
use augrim::links::{FairLossLink, Receiver, Sender};
use augrim::message::Message;
use augrim::network::NetworkSender;
use augrim::process::{all_contained, contains_process, position_of, remove_process, Process};

#[derive(Clone, Copy, Debug, PartialEq, Eq)]
struct Node(u64);

impl Process for Node {}

#[derive(Clone, Debug, PartialEq, Eq)]
struct Note(&'static str);

impl Message for Note {}

/// Keeps what it was asked to send, and fails on the process it was told to fail on.
struct Recorder {
    sent: RefCell<Vec<(Node, Note)>>,
    fails_on: Option<Node>,
}

impl Recorder {
    fn new(fails_on: Option<Node>) -> Self {
        Recorder {
            sent: RefCell::new(Vec::new()),
            fails_on,
        }
    }
}

impl NetworkSender<Node, Note> for Recorder {
    fn send(&self, to_process: &Node, message: Note) -> Result<(), InternalError> {
        if self.fails_on == Some(*to_process) {
            return Err(InternalError::with_message("unreachable".to_string()));
        }
        self.sent.borrow_mut().push((*to_process, message));
        Ok(())
    }
}

impl<'a> NetworkSender<Node, Note> for &'a Recorder {
    fn send(&self, to_process: &Node, message: Note) -> Result<(), InternalError> {
        (**self).send(to_process, message)
    }
}

#[test]
fn a_broadcast_reaches_every_process_in_order() {
    let recorder = Recorder::new(None);
    let sender = BestEffortBroadcastSender::new(&recorder, vec![Node(1), Node(2), Node(3)]);
    assert!(sender.broadcast(&Note("hello")).is_ok());
    assert_eq!(
        *recorder.sent.borrow(),
        vec![
            (Node(1), Note("hello")),
            (Node(2), Note("hello")),
            (Node(3), Note("hello"))
        ]
    );
}

#[test]
fn a_broadcast_stops_at_the_first_failure() {
    let recorder = Recorder::new(Some(Node(2)));
    let sender = BestEffortBroadcastSender::new(&recorder, vec![Node(1), Node(2), Node(3)]);
    match sender.broadcast(&Note("hello")) {
        Ok(()) => panic!("the send to the second process fails"),
        Err(error) => assert_eq!(error.message(), "unreachable"),
    }
    assert_eq!(*recorder.sent.borrow(), vec![(Node(1), Note("hello"))]);
}

#[test]
fn a_broadcast_to_nobody_sends_nothing() {
    let recorder = Recorder::new(None);
    let sender = BestEffortBroadcastSender::new(&recorder, vec![]);
    assert!(sender.broadcast(&Note("hello")).is_ok());
    assert!(recorder.sent.borrow().is_empty());
}

#[test]
fn the_first_occurrence_is_found() {
    let processes = vec![Node(4), Node(7), Node(4), Node(9)];
    assert_eq!(position_of(&processes, Node(4)), Some(0));
    assert_eq!(position_of(&processes, Node(7)), Some(1));
    assert_eq!(position_of(&processes, Node(9)), Some(3));
    assert_eq!(position_of(&processes, Node(5)), None);
    assert_eq!(position_of(&Vec::new(), Node(5)), None);
    assert!(contains_process(&processes, Node(9)));
    assert!(!contains_process(&processes, Node(1)));
}

#[test]
fn containment_ignores_order_and_repetition() {
    let outer = vec![Node(1), Node(2), Node(3)];
    assert!(all_contained(&vec![Node(3), Node(1), Node(3)], &outer));
    assert!(all_contained(&Vec::new(), &outer));
    assert!(all_contained(&Vec::new(), &Vec::<Node>::new()));
    assert!(!all_contained(&vec![Node(1), Node(4)], &outer));
    assert!(!all_contained(&vec![Node(1)], &Vec::new()));
}

#[test]
fn removal_takes_every_occurrence_and_fills_the_gap_from_the_end() {
    let mut processes = vec![Node(1), Node(2), Node(3), Node(4)];
    remove_process(&mut processes, Node(2));
    assert_eq!(processes, vec![Node(1), Node(4), Node(3)]);

    let mut processes = vec![Node(5), Node(1), Node(5), Node(5)];
    remove_process(&mut processes, Node(5));
    assert_eq!(processes, vec![Node(1)]);

    let mut processes = vec![Node(1), Node(2)];
    remove_process(&mut processes, Node(3));
    assert_eq!(processes, vec![Node(1), Node(2)]);

    let mut processes: Vec<Node> = vec![Node(7)];
    remove_process(&mut processes, Node(7));
    assert!(processes.is_empty());
}

#[test]
fn errors_carry_their_message() {
    let error = InternalError::with_message("broken".to_string());
    assert_eq!(error.message(), "broken");
    assert_eq!(error, InternalError::with_message("broken".to_string()));
    let error = InvalidStateError::with_message("wrong state".to_string());
    assert_eq!(error.message(), "wrong state");
    assert_ne!(error, InvalidStateError::with_message("other".to_string()));
}

struct Detector;

impl PerfectFailureDetectorReceiver<Node> for Detector {
    fn crash(&mut self, _process: Node) -> Result<(), InternalError> {
        Ok(())
    }
}

struct Silent;

impl NetworkSender<Node, FloodingConsensusMessage<Note, Note>> for Silent {
    fn send(
        &self,
        _to_process: &Node,
        _message: FloodingConsensusMessage<Note, Note>,
    ) -> Result<(), InternalError> {
        Ok(())
    }
}

#[test]
fn consensus_takes_note_of_crashes() {
    let processes = vec![Node(1), Node(2), Node(3)];
    let sender = BestEffortBroadcastSender::new(Silent, processes.clone());
    let mut consensus: FloodingConsensus<Detector, Node, Note, Note, Silent> =
        FloodingConsensus::new(processes, Detector, sender);
    assert!(consensus.crash(Node(2)).is_ok());
    assert!(consensus.crash(Node(2)).is_ok());
    assert!(consensus.crash(Node(9)).is_ok());
}

struct Wire;

impl FairLossLink for Wire {}

impl Sender<Node, Note> for Wire {
    fn send(_to_process: &Node, _message: Note) -> Result<(), InternalError> {
        Ok(())
    }
}

impl Receiver<Node, Note> for Wire {
    fn recv(_from_process: &Node, _message: Note) -> Result<(), InternalError> {
        Ok(())
    }
}

fn is_fair_loss<L: FairLossLink>(_link: &L) -> bool {
    true
}

#[test]
fn a_stubborn_link_is_a_fair_loss_link() {
    let sender: StubbornSender<Node, Note, Wire> = StubbornSender::new(Wire);
    let receiver: StubbornReceiver<Node, Note, Wire> = StubbornReceiver::new(Wire);
    assert!(is_fair_loss(&sender));
    assert!(is_fair_loss(&receiver));
}

struct Inbox {
    delivered: Vec<Note>,
}

impl IntraProcessNetworkReceiver<Note> for Inbox {
    fn deliver(&mut self, message: Note) -> Result<(), IntraProcessNetworkError> {
        self.delivered.push(message);
        Ok(())
    }
}

#[test]
fn the_delivery_thread_delivers_until_it_is_stopped() {
    let mut inbox = Inbox { delivered: vec![] };
    let channel = vec![
        Some(ControlMessage::Message(Node(1), Note("Message 1"))),
        Some(ControlMessage::Message(Node(1), Note("Message 2"))),
        Some(ControlMessage::Shutdown),
        Some(ControlMessage::Message(Node(1), Note("too late"))),
    ];
    for received in channel {
        match next_delivery(received) {
            Delivery::Deliver(process, message) => {
                assert_eq!(process, Node(1));
                inbox.deliver(message).unwrap();
            }
            Delivery::Stop => break,
        }
    }
    assert_eq!(inbox.delivered, vec![Note("Message 1"), Note("Message 2")]);
    assert!(matches!(
        next_delivery::<Node, Note>(None),
        Delivery::Stop
    ));
}
