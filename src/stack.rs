use vstd::prelude::*;

use crate::outcome::{Awaited, MessageResult};

verus! {

/// The abstract state of a container: its elements from bottom to top,
/// its fixed capacity and whether it has been closed.
pub struct StackModel<T> {
    pub items: Seq<T>,
    pub capacity: nat,
    pub closed: bool,
}

impl<T> StackModel<T> {
    /// The capacity is positive and never exceeded.
    pub open spec fn valid(self) -> bool {
        0 < self.capacity && self.items.len() <= self.capacity
    }

    pub open spec fn is_full(self) -> bool {
        self.items.len() >= self.capacity
    }

    /// A blocking insert has to wait in this state.
    pub open spec fn must_wait_for_space(self) -> bool {
        !self.closed && self.is_full()
    }

    /// A blocking remove has to wait in this state.
    pub open spec fn must_wait_for_item(self) -> bool {
        !self.closed && self.items.len() == 0
    }
}

/// A fresh, open and empty container.
pub open spec fn empty_model<T>(capacity: nat) -> StackModel<T> {
    StackModel { items: Seq::empty(), capacity, closed: false }
}

/// Non-blocking insert: appends on top when open and not full.
pub open spec fn insert_model<T>(s: StackModel<T>, message: T) -> (StackModel<T>, MessageResult) {
    if s.closed {
        (s, MessageResult::Closed)
    } else if s.is_full() {
        (s, MessageResult::Full)
    } else {
        (StackModel { items: s.items.push(message), ..s }, MessageResult::Success)
    }
}

/// Non-blocking remove: takes the top element when open and not empty.
pub open spec fn remove_model<T>(s: StackModel<T>) -> (StackModel<T>, Option<T>, MessageResult) {
    if s.closed {
        (s, None, MessageResult::Closed)
    } else if s.items.len() == 0 {
        (s, None, MessageResult::Empty)
    } else {
        (StackModel { items: s.items.drop_last(), ..s }, Some(s.items.last()), MessageResult::Success)
    }
}

/// Closing keeps the elements and capacity and sets the flag for good.
pub open spec fn close_model<T>(s: StackModel<T>) -> StackModel<T> {
    StackModel { closed: true, ..s }
}

/// The sequence with its element at `i` replaced by the last one and the
/// last position dropped.
pub open spec fn swap_removed<T>(s: Seq<T>, i: int) -> Seq<T> {
    s.update(i, s.last()).drop_last()
}

/// Predicate removal that matched at `found`, if anywhere.
pub open spec fn remove_matching_model<T>(s: StackModel<T>, found: Option<int>) -> (StackModel<T>, MessageResult) {
    if s.closed {
        (s, MessageResult::Closed)
    } else {
        match found {
            Some(i) => if 0 <= i < s.items.len() {
                (StackModel { items: swap_removed(s.items, i), ..s }, MessageResult::Success)
            } else {
                (s, MessageResult::NotFound)
            },
            None => (s, MessageResult::NotFound),
        }
    }
}

/// `i` is the first position of `s` on which `predicate` answered true:
/// it answered false on every position before.
pub open spec fn first_match_at<T, F: Fn(&T) -> bool>(predicate: F, s: Seq<T>, i: int) -> bool {
    &&& 0 <= i < s.len()
    &&& predicate.ensures((&s[i],), true)
    &&& forall|j: int| 0 <= j < i ==> predicate.ensures((&s[j],), false)
}

/// The storage of a message container: a bounded sequence on which insert
/// and remove work at the same end, with a terminal closed flag.
pub struct BoundedStack<T> {
    items: Vec<T>,
    capacity: usize,
    closed: bool,
}

impl<T> View for BoundedStack<T> {
    type V = StackModel<T>;

    closed spec fn view(&self) -> StackModel<T> {
        StackModel { items: self.items@, capacity: self.capacity as nat, closed: self.closed }
    }
}

impl<T> BoundedStack<T> {
    /// An open, empty container holding at most `capacity` elements.
    pub fn new(capacity: usize) -> (r: Self)
        requires
            capacity > 0,
        ensures
            r@ == empty_model::<T>(capacity as nat),
            r@.valid(),
    {
        BoundedStack { items: Vec::new(), capacity, closed: false }
    }

    pub fn capacity(&self) -> (r: usize)
        ensures
            r as nat == self@.capacity,
    {
        self.capacity
    }

    pub fn len(&self) -> (r: usize)
        ensures
            r as nat == self@.items.len(),
    {
        self.items.len()
    }

    pub fn is_closed(&self) -> (r: bool)
        ensures
            r == self@.closed,
    {
        self.closed
    }

    /// Whether a blocking operation waiting for `awaited` has to keep
    /// waiting: the container is open and full, or open and empty.
    pub fn must_wait(&self, awaited: Awaited) -> (r: bool)
        ensures
            r == match awaited {
                Awaited::Space => self@.must_wait_for_space(),
                Awaited::Item => self@.must_wait_for_item(),
            },
    {
        match awaited {
            Awaited::Space => !self.closed && self.items.len() >= self.capacity,
            Awaited::Item => !self.closed && self.items.len() == 0,
        }
    }

    /// Appends `message` on top unless the container is closed or full.
    pub fn try_insert(&mut self, message: T) -> (r: MessageResult)
        ensures
            (final(self)@, r) == insert_model(old(self)@, message),
    {
        if self.closed {
            MessageResult::Closed
        } else if self.items.len() >= self.capacity {
            MessageResult::Full
        } else {
            self.items.push(message);
            MessageResult::Success
        }
    }

    /// Takes the top element unless the container is closed or empty.
    pub fn try_remove(&mut self) -> (r: (Option<T>, MessageResult))
        ensures
            (final(self)@, r.0, r.1) == remove_model(old(self)@),
    {
        if self.closed {
            (None, MessageResult::Closed)
        } else {
            match self.items.pop() {
                Some(m) => (Some(m), MessageResult::Success),
                None => (None, MessageResult::Empty),
            }
        }
    }

    /// Removes the first element, from the bottom up, on which `predicate`
    /// answers true, by moving the top element into its place. Never waits.
    pub fn remove_matching<F: Fn(&T) -> bool>(&mut self, predicate: &F) -> (r: (Option<T>, MessageResult))
        requires
            forall|m: &T| predicate.requires((m,)),
        ensures
            old(self)@.closed ==> r.0 is None && r.1 == MessageResult::Closed && final(self)@ == old(self)@,
            !old(self)@.closed ==> r.1 == MessageResult::Success || r.1 == MessageResult::NotFound,
            r.1 == MessageResult::NotFound ==> {
                &&& r.0 is None
                &&& (final(self)@, r.1) == remove_matching_model(old(self)@, None)
                &&& forall|i: int| 0 <= i < old(self)@.items.len() ==> predicate.ensures((&old(self)@.items[i],), false)
            },
            !old(self)@.closed && (forall|i: int|
                0 <= i < old(self)@.items.len() ==> !predicate.ensures((&old(self)@.items[i],), true))
                ==> r.1 == MessageResult::NotFound,
            r.1 == MessageResult::Success ==> exists|i: int| {
                &&& first_match_at(*predicate, old(self)@.items, i)
                &&& r.0 == Some(old(self)@.items[i])
                &&& (final(self)@, r.1) == remove_matching_model(old(self)@, Some(i))
            },
    {
        if self.closed {
            return (None, MessageResult::Closed);
        }
        let n = self.items.len();
        let mut i: usize = 0;
        while i < n
            invariant
                n == self.items.len(),
                self@ == old(self)@,
                !self.closed,
                i <= n,
                forall|m: &T| predicate.requires((m,)),
                forall|j: int| 0 <= j < i ==> predicate.ensures((&self@.items[j],), false),
            decreases n - i,
        {
            if predicate(&self.items[i]) {
                let m = self.items.swap_remove(i);
                assert(first_match_at(*predicate, old(self)@.items, i as int));
                return (Some(m), MessageResult::Success);
            }
            i = i + 1;
        }
        (None, MessageResult::NotFound)
    }

    /// Sets the closed flag; the elements stay.
    pub fn close(&mut self)
        ensures
            final(self)@ == close_model(old(self)@),
    {
        self.closed = true;
    }
}

} // verus!
