//! The completion state machine: legal transitions, one step at a time.
use std::task::Waker;
use vstd::prelude::*;

use crate::error::Error;

verus! {

/// The state of one completion cycle.
///
/// The only edges are Uninitialized -> Ongoing -> Done -> Consumed, plus the
/// reset, which moves any state to a fresh Ongoing. A second waker installed
/// while Ongoing replaces the first (last writer wins): a consumer that
/// re-polls registers its latest handle.
#[derive(Debug)]
pub enum InnerState<Input, Output> {
    /// Never armed.
    Uninitialized,
    /// Armed: the input not yet taken, and the waker to resume the consumer.
    Ongoing(Option<Input>, Option<Waker>),
    /// The producer finished; the output is not yet retrieved.
    Done(Output),
    /// The output was retrieved; inert until the next reset.
    Consumed,
}

impl<Input, Output> InnerState<Input, Output> {
    /// The state that a reset with `input` leaves, whatever came before.
    pub open spec fn reset_step(input: Option<Input>) -> Self {
        InnerState::Ongoing(input, None)
    }

    /// Next state and outcome of installing `waker`; `Ok(true)` means the
    /// operation is already complete and the consumer must not suspend.
    pub open spec fn install_waker_step(self, waker: Waker) -> (Self, Result<bool, Error>) {
        match self {
            InnerState::Uninitialized => (self, Err(Error::Uninitialized)),
            InnerState::Ongoing(input, _) => (InnerState::Ongoing(input, Some(waker)), Ok(false)),
            InnerState::Done(_) => (self, Ok(true)),
            InnerState::Consumed => (self, Err(Error::AlreadyConsumed)),
        }
    }

    /// Next state and outcome of taking the input.
    pub open spec fn take_input_step(self) -> (Self, Result<Option<Input>, Error>) {
        match self {
            InnerState::Uninitialized => (self, Err(Error::Uninitialized)),
            InnerState::Ongoing(input, waker) => (InnerState::Ongoing(None, waker), Ok(input)),
            InnerState::Done(_) => (self, Ok(None)),
            InnerState::Consumed => (self, Err(Error::AlreadyConsumed)),
        }
    }

    /// Next state and outcome of completing with `value`; on success the
    /// outcome holds the waker that must now be woken, if one was installed.
    pub open spec fn done_step(self, value: Output) -> (Self, Result<Option<Waker>, Error>) {
        match self {
            InnerState::Uninitialized => (self, Err(Error::Uninitialized)),
            InnerState::Ongoing(_, waker) => (InnerState::Done(value), Ok(waker)),
            InnerState::Done(_) => (self, Err(Error::AlreadyDone)),
            InnerState::Consumed => (self, Err(Error::AlreadyConsumed)),
        }
    }

    /// Next state and outcome of retrieving the output: always Consumed.
    pub open spec fn take_output_step(self) -> (Self, Option<Output>) {
        match self {
            InnerState::Done(value) => (InnerState::Consumed, Some(value)),
            _ => (InnerState::Consumed, None),
        }
    }

    /// Overwrites the state with a fresh cycle holding `input` and no waker.
    pub fn reset(&mut self, input: Option<Input>)
        ensures
            *final(self) == Self::reset_step(input),
    {
        *self = InnerState::Ongoing(input, None);
    }

    /// Registers the consumer's waker; returns whether the operation is
    /// already complete.
    pub fn install_waker(&mut self, waker: Waker) -> (r: Result<bool, Error>)
        ensures
            (*final(self), r) == old(self).install_waker_step(waker),
    {
        match self {
            InnerState::Uninitialized => Err(Error::Uninitialized),
            InnerState::Ongoing(_input, stored) => {
                *stored = Some(waker);
                Ok(false)
            },
            InnerState::Done(_) => Ok(true),
            InnerState::Consumed => Err(Error::AlreadyConsumed),
        }
    }

    /// Hands the producer its input, once per cycle.
    pub fn take_input(&mut self) -> (r: Result<Option<Input>, Error>)
        ensures
            (*final(self), r) == old(self).take_input_step(),
    {
        match self {
            InnerState::Uninitialized => Err(Error::Uninitialized),
            InnerState::Ongoing(input, _stored) => Ok(input.take()),
            InnerState::Done(_) => Ok(None),
            InnerState::Consumed => Err(Error::AlreadyConsumed),
        }
    }

    /// Records the output. On success returns the waker that was installed,
    /// which the caller wakes once it no longer holds the state exclusively.
    /// On failure the state is left as it was.
    pub fn done(&mut self, value: Output) -> (r: Result<Option<Waker>, Error>)
        ensures
            (*final(self), r) == old(self).done_step(value),
    {
        match self {
            InnerState::Uninitialized => Err(Error::Uninitialized),
            InnerState::Ongoing(_input, stored) => {
                let waker = stored.take();
                *self = InnerState::Done(value);
                Ok(waker)
            },
            InnerState::Done(_) => Err(Error::AlreadyDone),
            InnerState::Consumed => Err(Error::AlreadyConsumed),
        }
    }

    /// Retrieves the output if the state is Done; the state becomes Consumed
    /// in every case.
    pub fn take_output(&mut self) -> (r: Option<Output>)
        ensures
            (*final(self), r) == old(self).take_output_step(),
    {
        let mut prev = InnerState::Consumed;
        std::mem::swap(self, &mut prev);
        match prev {
            InnerState::Done(value) => Some(value),
            _ => None,
        }
    }

    /// Whether the state is Done.
    pub fn is_done(&self) -> (r: bool)
        ensures
            r == (*self is Done),
    {
        match self {
            InnerState::Done(_) => true,
            _ => false,
        }
    }

    /// Whether the state is Consumed.
    pub fn is_consumed(&self) -> (r: bool)
        ensures
            r == (*self is Consumed),
    {
        match self {
            InnerState::Consumed => true,
            _ => false,
        }
    }
}

} // verus!
