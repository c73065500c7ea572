use vstd::prelude::*;

use std::sync::atomic::{AtomicBool, Ordering};
use std::sync::{Condvar, Mutex};

use crate::outcome::{Awaited, MessageResult, Policy};
use crate::stack::BoundedStack;
use crate::sync::{lock_storage, locked, wait_until};

verus! {

/// A bounded container shared by reference between producer and consumer
/// threads. One lock guards the storage; inserts wait for space on one
/// condition variable and removes wait for an element on the other.
/// Other threads may act between two calls, so what a call does to the
/// storage is stated where it happens, under the lock: by the contracts of
/// `BoundedStack`'s `must_wait`, `try_insert`, `try_remove`,
/// `remove_matching` and `close`.
#[verifier::reject_recursive_types(T)]
pub struct MessageQueue<T> {
    storage: Mutex<BoundedStack<T>>,
    not_empty: Condvar,
    not_full: Condvar,
    capacity: usize,
    closed_hint: AtomicBool,
}

impl<T> MessageQueue<T> {
    pub closed spec fn spec_capacity(&self) -> nat {
        self.capacity as nat
    }

    pub fn new(queue_size: usize) -> (r: Self)
        requires
            queue_size > 0,
        ensures
            r.spec_capacity() == queue_size,
    {
        MessageQueue {
            storage: Mutex::new(BoundedStack::new(queue_size)),
            not_empty: Condvar::new(),
            not_full: Condvar::new(),
            capacity: queue_size,
            closed_hint: AtomicBool::new(false),
        }
    }

    pub fn capacity(&self) -> (r: usize)
        ensures
            r as nat == self.spec_capacity(),
    {
        self.capacity
    }

    /// The number of stored elements while the lock was held. After
    /// closure it no longer changes.
    pub fn len(&self) -> (r: usize) {
        let mut guard = lock_storage(&self.storage);
        locked(&mut guard).len()
    }

    /// Inserts `message` on top. When full, a non-blocking insert answers
    /// `Full` and a blocking one waits for a free slot or for closure.
    pub fn push(&self, message: T, policy: Policy) -> (r: MessageResult)
        ensures
            r == MessageResult::Success || r == MessageResult::Full || r == MessageResult::Closed,
    {
        if self.is_closed() {
            return MessageResult::Closed;
        }
        let r = {
            let mut guard = lock_storage(&self.storage);
            let wait = locked(&mut guard).must_wait(Awaited::Space);
            if wait {
                match policy {
                    Policy::NonBlocking => {
                        return MessageResult::Full;
                    },
                    Policy::Blocking => {
                        guard = wait_until(&self.not_full, guard, Awaited::Space);
                    },
                }
            }
            locked(&mut guard).try_insert(message)
        };
        if r == MessageResult::Success {
            self.not_empty.notify_one();
        }
        r
    }

    /// Removes the top element. When empty, a non-blocking remove answers
    /// `Empty` and a blocking one waits for an element or for closure.
    pub fn pop(&self, policy: Policy) -> (r: (Option<T>, MessageResult))
        ensures
            r.1 == MessageResult::Success || r.1 == MessageResult::Empty || r.1 == MessageResult::Closed,
            r.0 is Some <==> r.1 == MessageResult::Success,
    {
        if self.is_closed() {
            return (None, MessageResult::Closed);
        }
        let r = {
            let mut guard = lock_storage(&self.storage);
            let wait = locked(&mut guard).must_wait(Awaited::Item);
            if wait {
                match policy {
                    Policy::NonBlocking => {
                        return (None, MessageResult::Empty);
                    },
                    Policy::Blocking => {
                        guard = wait_until(&self.not_empty, guard, Awaited::Item);
                    },
                }
            }
            locked(&mut guard).try_remove()
        };
        if r.1 == MessageResult::Success {
            self.not_full.notify_one();
        }
        r
    }

    /// Removes the first element, from the bottom up, on which `predicate`
    /// answers true; the top element takes its place. Never waits.
    pub fn get<F: Fn(&T) -> bool>(&self, predicate: &F) -> (r: (Option<T>, MessageResult))
        requires
            forall|m: &T| predicate.requires((m,)),
        ensures
            r.1 == MessageResult::Success || r.1 == MessageResult::NotFound || r.1 == MessageResult::Closed,
            r.0 is Some <==> r.1 == MessageResult::Success,
    {
        if self.is_closed() {
            return (None, MessageResult::Closed);
        }
        let r = {
            let mut guard = lock_storage(&self.storage);
            locked(&mut guard).remove_matching(predicate)
        };
        if r.1 == MessageResult::Success {
            self.not_full.notify_one();
        }
        r
    }

    /// Closes the queue for good and wakes every waiter, so that each one
    /// observes the closure. Closing twice changes nothing.
    pub fn close(&self) -> (r: MessageResult)
        ensures
            r == MessageResult::Success,
    {
        {
            let mut guard = lock_storage(&self.storage);
            locked(&mut guard).close();
            self.closed_hint.store(true, Ordering::Relaxed);
        }
        self.not_empty.notify_all();
        self.not_full.notify_all();
        MessageResult::Success
    }

    /// A fast check of the closed flag without taking the lock. The flag is
    /// only set after the storage itself was closed under the lock.
    pub fn is_closed(&self) -> (r: bool) {
        self.closed_hint.load(Ordering::Relaxed)
    }
}

} // verus!
