//! The capability to send a message to a process.

use vstd::prelude::*;

use crate::error::InternalError;
use crate::message::Message;
use crate::process::Process;

verus! {

/// Sends messages over the network. The host implements it; nothing is assumed of a send
/// but that it reports whether it failed.
pub trait NetworkSender<P, M> where P: Process, M: Message {
    /// Sends `message` to `to_process`.
    fn send(&self, to_process: &P, message: M) -> (sent: Result<(), InternalError>);
}

} // verus!
