//! A network inside one operating-system process: what travels through its channel, what
//! its delivery thread does with it, and what it shares with the code that uses it.

use vstd::prelude::*;

verus! {

/// A message could not be handed over inside the process.
#[derive(Debug)]
pub struct IntraProcessNetworkError;

/// Takes in the messages that the network inside the process delivers.
pub trait IntraProcessNetworkReceiver<M> {
    /// Takes in `message`.
    fn deliver(&mut self, message: M) -> (delivered: Result<(), IntraProcessNetworkError>);
}

/// What travels through the channel to the delivery thread.
pub enum ControlMessage<P, M> {
    /// A message for the process.
    Message(P, M),
    /// The network shuts down.
    Shutdown,
}

/// What the delivery thread does next.
pub enum Delivery<P, M> {
    /// Hand the message to the receiver of the process, then take the next from the channel.
    Deliver(P, M),
    /// Stop.
    Stop,
}

/// What the delivery thread does with what it has taken from the channel; `None` stands for
/// a channel that no sender holds any more. A message is delivered; the thread stops when
/// it is told to shut down or the channel has closed.
pub fn next_delivery<P, M>(received: Option<ControlMessage<P, M>>) -> (next: Delivery<P, M>)
    ensures
        next == match received {
            Some(ControlMessage::Message(process, message)) => Delivery::Deliver(process, message),
            Some(ControlMessage::Shutdown) => Delivery::Stop,
            None => Delivery::Stop,
        },
{
    match received {
        Some(ControlMessage::Message(process, message)) => Delivery::Deliver(process, message),
        Some(ControlMessage::Shutdown) => Delivery::Stop,
        None => Delivery::Stop,
    }
}

} // verus!
