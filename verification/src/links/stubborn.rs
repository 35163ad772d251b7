//! Stubborn links: links that keep sending each message over a fair-loss link.

use std::marker::PhantomData;
use vstd::prelude::*;

use crate::message::Message;
use crate::process::Process;

use super::{FairLossLink, Receiver, Sender};

verus! {

/// Marker for a link that delivers every message sent over it again and again.
pub trait StubbornLink {}

impl<T> FairLossLink for T where T: StubbornLink {}

/// The sending end of a stubborn link, built on the sending end of a fair-loss link.
pub struct StubbornSender<P, M, S> where P: Process, M: Message, S: Sender<P, M> + FairLossLink {
    inner: S,
    process_phantom: PhantomData<P>,
    message_phantom: PhantomData<M>,
}

impl<P, M, S> StubbornSender<P, M, S> where P: Process, M: Message, S: Sender<P, M> + FairLossLink {
    /// The fair-loss sender that the link is built on.
    pub closed spec fn inner(&self) -> S {
        self.inner
    }

    /// A stubborn sender on top of `sender`.
    pub fn new(sender: S) -> (stubborn: Self)
        ensures
            stubborn.inner() == sender,
    {
        StubbornSender { inner: sender, process_phantom: PhantomData, message_phantom: PhantomData }
    }
}

impl<P, M, S> StubbornLink for StubbornSender<P, M, S> where
    P: Process,
    M: Message,
    S: Sender<P, M> + FairLossLink,
 {
}

/// The receiving end of a stubborn link, built on the receiving end of a fair-loss link.
pub struct StubbornReceiver<P, M, R> where
    P: Process,
    M: Message,
    R: Receiver<P, M> + FairLossLink,
 {
    inner: R,
    process_phantom: PhantomData<P>,
    message_phantom: PhantomData<M>,
}

impl<P, M, R> StubbornReceiver<P, M, R> where
    P: Process,
    M: Message,
    R: Receiver<P, M> + FairLossLink,
 {
    /// The fair-loss receiver that the link is built on.
    pub closed spec fn inner(&self) -> R {
        self.inner
    }

    /// A stubborn receiver on top of `receiver`.
    pub fn new(receiver: R) -> (stubborn: Self)
        ensures
            stubborn.inner() == receiver,
    {
        StubbornReceiver {
            inner: receiver,
            process_phantom: PhantomData,
            message_phantom: PhantomData,
        }
    }
}

impl<P, M, R> StubbornLink for StubbornReceiver<P, M, R> where
    P: Process,
    M: Message,
    R: Receiver<P, M> + FairLossLink,
 {
}

} // verus!
