//! Broadcast primitives.

pub mod best_effort;

pub use best_effort::{BestEffortBroadcastReceiver, BestEffortBroadcastSender};
