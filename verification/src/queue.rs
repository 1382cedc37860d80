//! The bounded first-in-first-out submission queue.
//!
//! Calling threads append submission jobs at the back and the worker
//! thread drains them from the front, so jobs are processed strictly in
//! arrival order.  The capacity bound provides backpressure: a full
//! queue accepts nothing, and a submitter must wait until the worker
//! has drained a slot.

use vstd::prelude::*;

verus! {

/// A first-in-first-out queue that never grows past the capacity it
/// was created with.
pub struct BoundedQueue<T> {
    items: Vec<T>,
    capacity: usize,
}

impl<T> View for BoundedQueue<T> {
    type V = Seq<T>;

    closed spec fn view(&self) -> Seq<T> {
        self.items@
    }
}

impl<T> BoundedQueue<T> {
    /// The capacity the queue was created with.
    pub closed spec fn spec_capacity(self) -> usize {
        self.capacity
    }

    /// Creates an empty queue with the given capacity.
    pub fn new(capacity: usize) -> (r: BoundedQueue<T>)
        ensures
            r@ == Seq::<T>::empty(),
            r.spec_capacity() == capacity,
    {
        BoundedQueue { items: Vec::new(), capacity }
    }

    /// The capacity the queue was created with.
    pub fn capacity(&self) -> (r: usize)
        ensures
            r == self.spec_capacity(),
    {
        self.capacity
    }

    /// The number of queued items.
    pub fn len(&self) -> (r: usize)
        ensures
            r == self@.len(),
    {
        self.items.len()
    }

    /// Whether the queue holds nothing.
    pub fn is_empty(&self) -> (r: bool)
        ensures
            r == (self@.len() == 0),
    {
        self.items.len() == 0
    }

    /// Whether the queue has no free slot.
    pub fn is_full(&self) -> (r: bool)
        ensures
            r == (self@.len() >= self.spec_capacity()),
    {
        self.items.len() >= self.capacity
    }

    /// Appends an item at the back of a queue that has a free slot.
    pub fn push_back(&mut self, item: T)
        requires
            old(self)@.len() < old(self).spec_capacity(),
        ensures
            final(self)@ == old(self)@.push(item),
            final(self).spec_capacity() == old(self).spec_capacity(),
    {
        self.items.push(item);
    }

    /// Appends an item at the back when a slot is free; hands the item
    /// back untouched when the queue is full.  A full queue accepting
    /// nothing is what blocks an excess submitter.
    pub fn try_push_back(&mut self, item: T) -> (r: Result<(), T>)
        ensures
            old(self)@.len() < old(self).spec_capacity() ==> r is Ok && final(self)@ == old(
                self)@.push(item),
            old(self)@.len() >= old(self).spec_capacity() ==> r == Err::<(), T>(item) && final(
                self)@ == old(self)@,
            final(self).spec_capacity() == old(self).spec_capacity(),
    {
        if self.items.len() < self.capacity {
            self.items.push(item);
            Ok(())
        } else {
            Err(item)
        }
    }

    /// Removes and returns the oldest item, or nothing when the queue
    /// is empty.
    pub fn pop_front(&mut self) -> (r: Option<T>)
        ensures
            old(self)@.len() == 0 ==> r is None && final(self)@ == old(self)@,
            old(self)@.len() > 0 ==> r == Some(old(self)@[0]) && final(self)@ == old(
                self)@.subrange(1, old(self)@.len() as int),
            final(self).spec_capacity() == old(self).spec_capacity(),
    {
        if self.items.len() == 0 {
            None
        } else {
            let item = self.items.remove(0);
            Some(item)
        }
    }
}

} // verus!
