//! A thread-safe completion cell: a producer finishes one operation per cycle
//! and a single consumer task is woken exactly once, never spuriously, and
//! retrieves the result exactly once.
//!
//! [`InnerState`] is the state machine with its exact transitions, and
//! [`lemmas`] states the laws that hold over sequences of them. [`Awaitable`]
//! shares one state between threads behind a lock.

pub mod awaitable;
pub mod error;
pub mod lemmas;
mod lock;
pub mod state;
mod waker;

pub use awaitable::Awaitable;
pub use error::Error;
pub use state::InnerState;
