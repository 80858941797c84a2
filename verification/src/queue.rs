//! A bounded first-in-first-out queue: the library's model of the channels
//! that connect its tasks.
//!
//! Every channel in this design is bounded on purpose: an unresponsive
//! consumer must cause backpressure, never unbounded buffering. The contract
//! of [`BoundedQueue::try_send`] states that discipline exactly: a send to a
//! full queue changes nothing and hands the item back — it is neither dropped
//! nor an error, the producer simply has to wait for the consumer. The
//! asynchronous runtime realizes the waiting by suspending the producer until
//! there is room.

use vstd::prelude::*;

verus! {

/// A FIFO queue that never holds more than its fixed capacity.
pub struct BoundedQueue<T> {
    items: Vec<T>,
    capacity: usize,
}

impl<T> View for BoundedQueue<T> {
    type V = Seq<T>;

    closed spec fn view(&self) -> Seq<T> {
        self.items@
    }
}

impl<T> BoundedQueue<T> {
    /// The capacity the queue was created with.
    pub closed spec fn cap(self) -> nat {
        self.capacity as nat
    }

    /// The queue never exceeds its capacity.
    pub open spec fn wf(self) -> bool {
        self@.len() <= self.cap()
    }

    /// An empty queue that will hold at most `capacity` items.
    pub fn new(capacity: usize) -> (q: BoundedQueue<T>)
        ensures
            q.wf(),
            q@ == Seq::<T>::empty(),
            q.cap() == capacity,
    {
        BoundedQueue { items: Vec::new(), capacity }
    }

    /// How many items are queued.
    pub fn len(&self) -> (n: usize)
        ensures
            n == self@.len(),
    {
        self.items.len()
    }

    /// The fixed capacity.
    pub fn capacity(&self) -> (c: usize)
        ensures
            c == self.cap(),
    {
        self.capacity
    }

    /// Enqueues the item if there is room. On a full queue nothing is
    /// dropped and nothing fails: the queue is unchanged and the item comes
    /// back, so the producer must wait and try again — backpressure instead
    /// of unbounded growth.
    pub fn try_send(&mut self, item: T) -> (r: Option<T>)
        requires
            old(self).wf(),
        ensures
            final(self).wf(),
            final(self).cap() == old(self).cap(),
            old(self)@.len() < old(self).cap() ==> final(self)@ == old(self)@.push(item)
                && r is None,
            old(self)@.len() >= old(self).cap() ==> final(self)@ == old(self)@ && r == Some(item),
    {
        if self.items.len() < self.capacity {
            self.items.push(item);
            Option::None
        } else {
            Some(item)
        }
    }

    /// Dequeues the oldest item, if any: delivery is first-in-first-out.
    pub fn try_recv(&mut self) -> (r: Option<T>)
        requires
            old(self).wf(),
        ensures
            final(self).wf(),
            final(self).cap() == old(self).cap(),
            old(self)@.len() == 0 ==> r is None && final(self)@ == old(self)@,
            old(self)@.len() > 0 ==> r == Some(old(self)@[0]) && final(self)@ == old(
                self,
            )@.drop_first(),
    {
        if self.items.len() == 0 {
            Option::None
        } else {
            let item = self.items.remove(0);
            proof {
                assert(old(self)@.remove(0) =~= old(self)@.drop_first());
            }
            Some(item)
        }
    }
}

} // verus!
