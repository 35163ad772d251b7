//! Links between two processes.

use vstd::prelude::*;

use crate::error::InternalError;

pub mod stubborn;

verus! {

/// Marker for a link that may lose messages, but not all of them if the sender keeps
/// sending.
pub trait FairLossLink {}

/// The sending end of a link.
pub trait Sender<P, M> {
    /// Sends `message` to `to_process`.
    fn send(to_process: &P, message: M) -> (sent: Result<(), InternalError>);
}

/// The receiving end of a link.
pub trait Receiver<P, M> {
    /// Takes in `message`, which has arrived from `from_process`.
    fn recv(from_process: &P, message: M) -> (received: Result<(), InternalError>);
}

} // verus!
