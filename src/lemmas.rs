//! Laws of the completion state machine over whole sequences of steps.
use std::task::Waker;
use vstd::prelude::*;

use crate::error::Error;
use crate::state::InnerState;

verus! {

/// The input of the current cycle has been handed out (or the cycle is
/// already done), so the producer gets nothing more from `take_input`.
pub open spec fn input_spent<I, O>(s: InnerState<I, O>) -> bool {
    match s {
        InnerState::Ongoing(input, _) => input is None,
        InnerState::Done(_) => true,
        _ => false,
    }
}

/// Reset, install a waker, complete: `done` hands back exactly the waker that
/// was installed, to be woken once, and leaves the state Done with the output
/// supplied. A later `done` in the same cycle hands back no waker at all.
pub proof fn lemma_done_wakes_installed_waker<I, O>(
    input: Option<I>,
    waker: Waker,
    value: O,
    later: O,
)
    ensures
        ({
            let armed = InnerState::<I, O>::reset_step(input);
            let (waiting, installed) = armed.install_waker_step(waker);
            let (finished, woken) = waiting.done_step(value);
            &&& installed == Ok::<bool, Error>(false)
            &&& woken == Ok::<Option<Waker>, Error>(Some(waker))
            &&& finished == InnerState::<I, O>::Done(value)
            &&& finished.done_step(later) == (finished, Err::<Option<Waker>, Error>(Error::AlreadyDone))
        }),
{
}

/// A second `done` without a reset in between fails with `AlreadyDone` and
/// leaves the output of the first in place. (From Uninitialized or Consumed
/// the first `done` already fails, with its own error.)
pub proof fn lemma_second_done_fails<I, O>(s: InnerState<I, O>, first: O, second: O)
    requires
        s is Ongoing || s is Done,
    ensures
        ({
            let after_first = s.done_step(first).0;
            &&& after_first.done_step(second) == (after_first, Err::<Option<Waker>, Error>(Error::AlreadyDone))
            &&& s is Ongoing ==> after_first == InnerState::<I, O>::Done(first)
            &&& s is Done ==> after_first == s
        }),
{
}

/// Taking the output from a state that is not Done yields nothing and still
/// consumes the cell; after that every operation but reset fails with
/// `AlreadyConsumed` and changes nothing.
pub proof fn lemma_take_output_consumes<I, O>(s: InnerState<I, O>, waker: Waker, value: O)
    requires
        !(s is Done),
    ensures
        ({
            let (c, out) = s.take_output_step();
            &&& out is None
            &&& c == InnerState::<I, O>::Consumed
            &&& c.install_waker_step(waker) == (c, Err::<bool, Error>(Error::AlreadyConsumed))
            &&& c.take_input_step() == (c, Err::<Option<I>, Error>(Error::AlreadyConsumed))
            &&& c.done_step(value) == (c, Err::<Option<Waker>, Error>(Error::AlreadyConsumed))
            &&& c.take_output_step() == (c, None::<O>)
        }),
{
}

/// The first `take_input` after a reset returns the payload of that reset and
/// spends it.
pub proof fn lemma_take_input_first<I, O>(input: Option<I>)
    ensures
        ({
            let (s, r) = InnerState::<I, O>::reset_step(input).take_input_step();
            &&& r == Ok::<Option<I>, Error>(input)
            &&& input_spent(s)
        }),
{
}

/// Once the input is spent, `take_input` returns `None` and changes nothing,
/// and installing a waker or completing keeps it spent: until the next reset
/// or the cell is consumed, the producer gets no payload again.
pub proof fn lemma_take_input_spent<I, O>(s: InnerState<I, O>, waker: Waker, value: O)
    requires
        input_spent(s),
    ensures
        s.take_input_step() == (s, Ok::<Option<I>, Error>(None)),
        input_spent(s.install_waker_step(waker).0),
        input_spent(s.done_step(value).0),
{
}

/// Installing a waker once the cycle is done reports completion and stores
/// nothing, and a later `done` fails without any waker to wake.
pub proof fn lemma_install_after_done<I, O>(output: O, waker: Waker, value: O)
    ensures
        ({
            let s = InnerState::<I, O>::Done(output);
            &&& s.install_waker_step(waker) == (s, Ok::<bool, Error>(true))
            &&& s.done_step(value) == (s, Err::<Option<Waker>, Error>(Error::AlreadyDone))
        }),
{
}

} // verus!
