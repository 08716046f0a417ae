//! The mutual-exclusion primitive that guards a cell's state.
//!
//! The lock is taken on trust for mutual exclusion and nothing more: what the
//! guarded value holds is not visible to the verifier, since another thread
//! may change it between two acquisitions.
use vstd::prelude::*;

verus! {

#[verifier::external_type_specification]
#[verifier::external_body]
pub struct ExRawMutex(parking_lot::RawMutex);

#[verifier::external_type_specification]
#[verifier::external_body]
#[verifier::reject_recursive_types(R)]
#[verifier::reject_recursive_types(T)]
pub struct ExMutex<R, T: ?Sized>(parking_lot::lock_api::Mutex<R, T>);

/// Exclusive access to a guarded value; dropping it releases the lock.
///
/// It holds a `parking_lot::MutexGuard`, which cannot be declared to the
/// verifier directly because its bound names a trait of `lock_api`.
#[verifier::external_body]
#[verifier::reject_recursive_types(T)]
pub(crate) struct Held<'a, T> {
    guard: parking_lot::MutexGuard<'a, T>,
}

/// Relies on `parking_lot::Mutex::new`: an unlocked mutex that owns `value`.
#[verifier::external_body]
pub(crate) fn new_mutex<T>(value: T) -> parking_lot::Mutex<T> {
    parking_lot::Mutex::new(value)
}

/// Relies on `parking_lot::const_mutex`: an unlocked mutex that owns `value`,
/// built the way a constant initializer builds it.
#[verifier::external_body]
pub(crate) fn const_mutex<T>(value: T) -> parking_lot::Mutex<T> {
    parking_lot::const_mutex(value)
}

/// Relies on `parking_lot::Mutex::lock`: blocks until the lock is held by the
/// calling thread; the lock is released when the guard is dropped.
#[verifier::external_body]
pub(crate) fn lock<'a, T>(m: &'a parking_lot::Mutex<T>) -> Held<'a, T> {
    Held { guard: m.lock() }
}

/// Relies on `DerefMut` of `parking_lot::MutexGuard`: exclusive access to the
/// guarded value for as long as the guard is borrowed.
#[verifier::external_body]
pub(crate) fn guarded_mut<'a, 'b, T>(g: &'b mut Held<'a, T>) -> &'b mut T {
    &mut *g.guard
}

/// Relies on `Deref` of `parking_lot::MutexGuard`: shared access to the
/// guarded value for as long as the guard is borrowed.
#[verifier::external_body]
pub(crate) fn guarded<'a, 'b, T>(g: &'b Held<'a, T>) -> &'b T {
    &*g.guard
}

} // verus!
