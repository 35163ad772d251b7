//! Fault-tolerant distributed-agreement algorithms as pure state-transition engines.
//!
//! An algorithm takes an event and the context of the process, and returns the actions that
//! the host is to apply in order: store the new context, send messages, report a decision.
//! It does no input or output of its own. The host feeds it the events of one context one
//! at a time.
//!
//! [`algorithm::flooding`] holds flooding consensus: the context of a process, the
//! transition function with its contract, and what holds of every run. The other modules
//! hold the vocabulary that algorithms and hosts share: processes, messages, time, errors,
//! links, broadcast, and the contexts of two-phase commit.

pub mod algorithm;
pub mod broadcast;
pub mod communication;
pub mod error;
pub mod links;
pub mod message;
pub mod network;
pub mod process;
pub mod time;
