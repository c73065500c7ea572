use vstd::prelude::*;

use std::sync::{Condvar, Mutex, MutexGuard};

use crate::outcome::Awaited;
use crate::stack::BoundedStack;

verus! {

/// std's Mutex, carried through opaquely: it guards the storage.
#[verifier::external_type_specification]
#[verifier::external_body]
#[verifier::reject_recursive_types(T)]
pub struct ExMutex<T: ?Sized>(Mutex<T>);

/// std's MutexGuard, carried through opaquely: the lock is held while it
/// lives.
#[verifier::external_type_specification]
#[verifier::external_body]
#[verifier::reject_recursive_types(T)]
pub struct ExMutexGuard<'a, T: ?Sized + 'a>(MutexGuard<'a, T>);

/// std's Condvar, carried through opaquely: one per waiting condition.
#[verifier::external_type_specification]
#[verifier::external_body]
pub struct ExCondvar(Condvar);

/// Relies on std's Mutex::new: creates an unlocked mutex holding the value.
pub assume_specification<T>[ Mutex::<T>::new ](t: T) -> Mutex<T>;

/// Relies on std's Condvar::new: creates a condition variable with no waiter.
pub assume_specification[ Condvar::new ]() -> Condvar;

/// Relies on std's Condvar::notify_one: wakes at most one waiter.
pub assume_specification[ Condvar::notify_one ](cv: &Condvar);

/// Relies on std's Condvar::notify_all: wakes every waiter.
pub assume_specification[ Condvar::notify_all ](cv: &Condvar);

/// Relies on std's Mutex::lock: blocks until the lock is held. A poisoned
/// lock is taken over as it stands, since no operation on the storage
/// leaves it half-updated.
#[verifier::external_body]
pub(crate) fn lock_storage<T>(m: &Mutex<BoundedStack<T>>) -> MutexGuard<'_, BoundedStack<T>> {
    m.lock().unwrap_or_else(|e| e.into_inner())
}

/// Relies on std's DerefMut for MutexGuard: access to the locked value.
/// Another thread may have changed it since the last lock, so nothing is
/// known of it.
#[verifier::external_body]
pub(crate) fn locked<'a, 'b, T>(g: &'a mut MutexGuard<'b, BoundedStack<T>>) -> &'a mut BoundedStack<T> {
    &mut **g
}

/// Relies on std's Condvar::wait_while: releases the lock while suspended
/// and returns with it held once the storage no longer asks an operation
/// waiting for `awaited` to wait.
#[verifier::external_body]
pub(crate) fn wait_until<'a, T>(
    cv: &Condvar,
    g: MutexGuard<'a, BoundedStack<T>>,
    awaited: Awaited,
) -> MutexGuard<'a, BoundedStack<T>> {
    cv.wait_while(g, |s| s.must_wait(awaited)).unwrap_or_else(|e| e.into_inner())
}

} // verus!
