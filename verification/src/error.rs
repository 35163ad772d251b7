//! Error types shared by the algorithms.

use vstd::prelude::*;

verus! {

/// An error raised when a component fails for reasons internal to the library or to a
/// capability supplied by the host, such as a selection function that cannot pick a value.
#[derive(Clone, Debug, PartialEq, Eq)]
pub struct InternalError {
    message: String,
}

impl InternalError {
    /// The text carried by the error, as a sequence of characters.
    pub closed spec fn message_view(&self) -> Seq<char> {
        self.message@
    }

    /// Builds an error that carries `message`.
    pub fn with_message(message: String) -> (error: Self)
        ensures
            error.message_view() == message@,
    {
        InternalError { message }
    }

    /// The text carried by the error.
    pub fn message(&self) -> (message: &String)
        ensures
            message@ == self.message_view(),
    {
        &self.message
    }
}

/// An error raised when a value is asked to play a part that its current state does not allow.
#[derive(Clone, Debug, PartialEq, Eq)]
pub struct InvalidStateError {
    message: String,
}

impl InvalidStateError {
    /// The text carried by the error, as a sequence of characters.
    pub closed spec fn message_view(&self) -> Seq<char> {
        self.message@
    }

    /// Builds an error that carries `message`.
    pub fn with_message(message: String) -> (error: Self)
        ensures
            error.message_view() == message@,
    {
        InvalidStateError { message }
    }

    /// The text carried by the error.
    pub fn message(&self) -> (message: &String)
        ensures
            message@ == self.message_view(),
    {
        &self.message
    }
}

} // verus!
