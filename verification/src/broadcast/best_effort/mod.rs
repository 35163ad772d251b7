//! Best-effort broadcast: the message is sent once to every process, with no guarantee if
//! the sender fails on the way.

use std::marker::PhantomData;
use vstd::prelude::*;

use crate::error::InternalError;
use crate::message::Message;
use crate::network::NetworkSender;
use crate::process::Process;

verus! {

/// Sends a message to every process of a fixed list.
pub struct BestEffortBroadcastSender<P, M, N> where P: Process, M: Message, N: NetworkSender<P, M> {
    network_sender: N,
    processes: Vec<P>,
    message_phantom: PhantomData<M>,
}

impl<P, M, N> BestEffortBroadcastSender<P, M, N> where
    P: Process,
    M: Message,
    N: NetworkSender<P, M>,
 {
    /// The capability that the messages are sent with.
    pub closed spec fn network(&self) -> N {
        self.network_sender
    }

    /// The processes that a broadcast reaches, in the order in which it sends to them.
    pub closed spec fn targets(&self) -> Seq<P> {
        self.processes@
    }

    /// Whether the network may accept a clone of `message` for the target at `index`.
    pub open spec fn delivers(&self, index: int, message: M) -> bool {
        exists|copy: M, outcome: Result<(), InternalError>|
            cloned(message, copy) && outcome is Ok && #[trigger] call_ensures(
                N::send,
                (&self.network(), &self.targets()[index], copy),
                outcome,
            )
    }

    /// Whether the network may fail with `error` when a clone of `message` is sent to the
    /// target at `index`.
    pub open spec fn fails(&self, index: int, message: M, error: InternalError) -> bool {
        exists|copy: M|
            cloned(message, copy) && #[trigger] call_ensures(
                N::send,
                (&self.network(), &self.targets()[index], copy),
                Err(error),
            )
    }

    /// A broadcast sender that reaches `processes` through `network_sender`.
    pub fn new(network_sender: N, processes: Vec<P>) -> (sender: Self)
        ensures
            sender.network() == network_sender,
            sender.targets() == processes@,
    {
        BestEffortBroadcastSender { network_sender, processes, message_phantom: PhantomData }
    }

    /// Sends a clone of `message` to each target in turn, and stops at the first send that
    /// fails, with its error.
    pub fn broadcast(&self, message: &M) -> (result: Result<(), InternalError>)
        ensures
            match result {
                Ok(()) => forall|i: int| 0 <= i < self.targets().len() ==> self.delivers(i, *message),
                Err(error) => exists|failed: int|
                    {
                        &&& 0 <= failed < self.targets().len()
                        &&& #[trigger] self.fails(failed, *message, error)
                        &&& forall|i: int| 0 <= i < failed ==> self.delivers(i, *message)
                    },
            },
    {
        let mut i: usize = 0;
        while i < self.processes.len()
            invariant
                i <= self.processes.len(),
                forall|j: int| 0 <= j < i ==> self.delivers(j, *message),
            decreases self.processes.len() - i,
        {
            let process = self.processes[i];
            let copy = message.clone();
            let ghost sent_copy = copy;
            let sent = self.network_sender.send(&process, copy);
            proof {
                assert(call_ensures(
                    N::send,
                    (&self.network(), &self.targets()[i as int], sent_copy),
                    sent,
                ));
            }
            match sent {
                Ok(()) => {
                    assert(self.delivers(i as int, *message));
                },
                Err(error) => {
                    assert(self.fails(i as int, *message, error));
                    return Err(error);
                },
            }
            i += 1;
        }
        Ok(())
    }
}

/// Takes in the messages that were broadcast.
pub trait BestEffortBroadcastReceiver<P, M> {
    /// Takes in `message`, which `process` has broadcast.
    fn deliver(process: P, message: M) -> (delivered: Result<(), InternalError>);
}

} // verus!
