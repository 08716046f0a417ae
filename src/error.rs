//! Misuse of the completion protocol.
use vstd::prelude::*;

verus! {

/// A violation of the completion protocol by the caller.
///
/// Every variant is a logic error on the caller's side; none is transient.
#[derive(Debug, Clone, Copy, PartialEq, Eq, Structural)]
pub enum Error {
    /// Awaitable is not initialized yet.
    Uninitialized,
    /// Awaitable is already consumed but not yet reset.
    AlreadyConsumed,
    /// Awaitable is marked done twice.
    AlreadyDone,
}

impl Error {
    /// The human-readable description of this error.
    pub fn message(&self) -> (r: &'static str)
        ensures
            *self == Error::Uninitialized ==> r@ == "Awaitable is not initialized yet."@,
            *self == Error::AlreadyConsumed ==> r@
                == "Awaitable is already consumed but not yet reset."@,
            *self == Error::AlreadyDone ==> r@ == "Awaitable is marked done twice."@,
    {
        match self {
            Error::Uninitialized => "Awaitable is not initialized yet.",
            Error::AlreadyConsumed => "Awaitable is already consumed but not yet reset.",
            Error::AlreadyDone => "Awaitable is marked done twice.",
        }
    }
}

} // verus!
