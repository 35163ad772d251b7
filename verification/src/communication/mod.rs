//! Ways for processes to reach each other.

pub mod internal;
