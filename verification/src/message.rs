//! Messages.

use vstd::prelude::*;

verus! {

/// A message that processes send to each other. A broadcast sends a clone to each process.
pub trait Message: Clone {}

} // verus!
