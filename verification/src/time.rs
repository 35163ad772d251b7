//! Points in time, as the algorithms see them.

use vstd::prelude::*;

verus! {

/// A point in time, such as the moment at which a timeout started. The algorithms only
/// store and copy it; the host supplies the clock.
pub trait Time: Copy {}

} // verus!
