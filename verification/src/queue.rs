//! Bounded FIFO queue with non-blocking, drop-on-full sends.
//!
//! Models the command bus and the telemetry channels: producers never
//! block, a send onto a full queue is dropped, and receiving never waits.

use vstd::prelude::*;

verus! {

/// A bounded first-in-first-out queue.
pub struct BoundedQueue<T> {
    items: Vec<T>,
    capacity: usize,
}

impl<T> BoundedQueue<T> {
    /// The queued values, oldest first.
    pub closed spec fn contents(self) -> Seq<T> {
        self.items@
    }

    /// The fixed capacity.
    pub closed spec fn cap(self) -> nat {
        self.capacity as nat
    }

    /// The queue never holds more than its capacity.
    pub closed spec fn wf(self) -> bool {
        self.items@.len() <= self.capacity
    }

    /// An empty queue of the given capacity.
    pub fn new(capacity: usize) -> (q: Self)
        ensures
            q.contents() == Seq::<T>::empty(),
            q.cap() == capacity,
            q.wf(),
    {
        BoundedQueue { items: Vec::new(), capacity }
    }

    /// Appends `value` if there is room; a send onto a full queue is
    /// dropped and reported by `accepted == false`.
    pub fn try_send(&mut self, value: T) -> (accepted: bool)
        requires
            old(self).wf(),
        ensures
            final(self).wf(),
            final(self).cap() == old(self).cap(),
            accepted <==> old(self).contents().len() < old(self).cap(),
            accepted ==> final(self).contents() == old(self).contents().push(value),
            !accepted ==> final(self).contents() == old(self).contents(),
    {
        if self.items.len() < self.capacity {
            self.items.push(value);
            true
        } else {
            false
        }
    }

    /// Removes and returns the oldest value, or `None` on an empty queue;
    /// never waits.
    pub fn try_recv(&mut self) -> (r: Option<T>)
        requires
            old(self).wf(),
        ensures
            final(self).wf(),
            final(self).cap() == old(self).cap(),
            old(self).contents().len() == 0 ==> r is None && final(self).contents() == old(self).contents(),
            old(self).contents().len() > 0 ==> r == Some(old(self).contents()[0])
                && final(self).contents() == old(self).contents().drop_first(),
    {
        if self.items.len() == 0 {
            None
        } else {
            let v = self.items.remove(0);
            proof {
                assert(self.items@ =~= old(self).contents().drop_first());
            }
            Some(v)
        }
    }

    /// How many values are queued.
    pub fn len(&self) -> (n: usize)
        ensures
            n == self.contents().len(),
    {
        self.items.len()
    }

    /// The fixed capacity.
    pub fn capacity(&self) -> (n: usize)
        ensures
            n == self.cap(),
    {
        self.capacity
    }
}

} // verus!
