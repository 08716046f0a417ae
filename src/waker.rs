//! The consumer's resume callback, as seen by the verifier.
use vstd::prelude::*;

verus! {

/// `std::task::Waker` is carried through the cell unopened: the state machine
/// stores it, hands it back and wakes it, and never looks inside.
#[verifier::external_type_specification]
#[verifier::external_body]
pub struct ExWaker(std::task::Waker);

/// Relies on `std::task::Waker::wake`: it consumes the handle and schedules the
/// task it belongs to. Nothing about the cell's state depends on it.
pub assume_specification[ std::task::Waker::wake ](w: std::task::Waker);

} // verus!
