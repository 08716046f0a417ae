//! The shared completion cell.
use std::task::Waker;
use vstd::prelude::*;

use crate::error::Error;
use crate::lock::{const_mutex, guarded, guarded_mut, lock, new_mutex};
use crate::state::InnerState;

verus! {

/// A completion cell shared between one producer and one consumer.
///
/// Each operation takes the cell's lock for one step of [`InnerState`] and
/// releases it before returning; `done` wakes the consumer only after the lock
/// is released, so a waker that re-enters the cell cannot deadlock. There is
/// no spurious wakeup: a waker is woken only by the `done` that completes its
/// cycle.
///
/// Since the cell is shared, what another thread did between two calls is not
/// known to the caller. Each method therefore promises that its outcome is
/// that of one step of the state machine, taken atomically on the state the
/// lock held at that moment.
#[derive(Debug)]
#[verifier::reject_recursive_types(Input)]
#[verifier::reject_recursive_types(Output)]
pub struct Awaitable<Input, Output>(parking_lot::Mutex<InnerState<Input, Output>>);

impl<Input, Output> Awaitable<Input, Output> {
    /// Creates an uninitialized cell; it must be `reset` before it can be used.
    pub fn new() -> Self {
        Awaitable(new_mutex(InnerState::Uninitialized))
    }

    /// Creates an uninitialized cell, as a constant initializer would; it must
    /// be `reset` before it can be used.
    pub fn const_new() -> Self {
        Awaitable(const_mutex(InnerState::Uninitialized))
    }

    /// Starts a new cycle holding `input` and no waker, whatever the state was.
    ///
    /// After this call `install_waker`, `take_input` and `done` can be called.
    pub fn reset(&self, input: Option<Input>) {
        let mut guard = lock(&self.0);
        guarded_mut(&mut guard).reset(input);
    }

    /// Registers the consumer's waker, replacing one installed earlier in the
    /// same cycle. Returns `Ok(true)` if the operation is already done, in
    /// which case nothing is stored and the consumer must not suspend.
    pub fn install_waker(&self, waker: Waker) -> (r: Result<bool, Error>)
        ensures
            exists|s: InnerState<Input, Output>| (#[trigger] s.install_waker_step(waker)).1 == r,
    {
        let mut guard = lock(&self.0);
        guarded_mut(&mut guard).install_waker(waker)
    }

    /// Hands the producer its input: the payload on the first call of a cycle,
    /// `None` on later calls.
    pub fn take_input(&self) -> (r: Result<Option<Input>, Error>)
        ensures
            exists|s: InnerState<Input, Output>| (#[trigger] s.take_input_step()).1 == r,
    {
        let mut guard = lock(&self.0);
        guarded_mut(&mut guard).take_input()
    }

    /// Records the output and wakes the installed waker, if any, after the
    /// lock is released. Fails, leaving the cell as it was, unless the cycle
    /// is ongoing.
    pub fn done(&self, value: Output) -> (r: Result<(), Error>)
        ensures
            exists|s: InnerState<Input, Output>|
                match (#[trigger] s.done_step(value)).1 {
                    Ok(_) => r == Ok::<(), Error>(()),
                    Err(e) => r == Err::<(), Error>(e),
                },
    {
        let step = {
            let mut guard = lock(&self.0);
            guarded_mut(&mut guard).done(value)
        };
        match step {
            Ok(Some(waker)) => {
                waker.wake();
                Ok(())
            },
            Ok(None) => Ok(()),
            Err(e) => Err(e),
        }
    }

    /// Retrieves the output if the cell is done; the cell is consumed in every
    /// case, until the next reset.
    pub fn take_output(&self) -> (r: Option<Output>)
        ensures
            exists|s: InnerState<Input, Output>| (#[trigger] s.take_output_step()).1 == r,
    {
        let mut guard = lock(&self.0);
        guarded_mut(&mut guard).take_output()
    }

    /// Whether the cell was done at the moment of the call.
    pub fn is_done(&self) -> bool {
        let guard = lock(&self.0);
        guarded(&guard).is_done()
    }

    /// Whether the cell was consumed at the moment of the call.
    pub fn is_consumed(&self) -> bool {
        let guard = lock(&self.0);
        guarded(&guard).is_consumed()
    }
}

impl<Input, Output> Default for Awaitable<Input, Output> {
    fn default() -> Self {
        Self::new()
    }
}

} // verus!
