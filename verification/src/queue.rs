//! The bounded first-in, first-out queue between the poller and the outbound
//! pump.

use std::collections::VecDeque;
use vstd::prelude::*;

verus! {

/// A queue that holds at most `capacity` items. A full queue refuses a new
/// item and hands it back, so nothing is ever dropped or overwritten.
pub struct BoundedQueue<T> {
    items: VecDeque<T>,
    capacity: usize,
}

impl<T> View for BoundedQueue<T> {
    type V = Seq<T>;

    closed spec fn view(&self) -> Seq<T> {
        self.items@
    }
}

/// The queue after an item was offered to it.
pub open spec fn after_offer<T>(queue: Seq<T>, capacity: nat, item: T) -> Seq<T> {
    if queue.len() < capacity {
        queue.push(item)
    } else {
        queue
    }
}

/// The queue after its oldest item was asked for.
pub open spec fn after_take<T>(queue: Seq<T>) -> Seq<T> {
    if queue.len() > 0 {
        queue.drop_first()
    } else {
        queue
    }
}

impl<T> BoundedQueue<T> {
    /// The most items the queue holds at once.
    pub closed spec fn spec_capacity(&self) -> nat {
        self.capacity as nat
    }

    /// An empty queue with room for `capacity` items.
    pub fn new(capacity: usize) -> (r: BoundedQueue<T>)
        ensures
            r@ == Seq::<T>::empty(),
            r.spec_capacity() == capacity,
    {
        BoundedQueue { items: VecDeque::new(), capacity }
    }

    /// The most items the queue holds at once.
    pub fn capacity(&self) -> (r: usize)
        ensures
            r == self.spec_capacity(),
    {
        self.capacity
    }

    /// The number of queued items.
    pub fn len(&self) -> (r: usize)
        ensures
            r == self@.len(),
    {
        self.items.len()
    }

    /// Whether nothing is queued.
    pub fn is_empty(&self) -> (r: bool)
        ensures
            r == (self@.len() == 0),
    {
        self.items.len() == 0
    }

    /// Whether the queue has no room left.
    pub fn is_full(&self) -> (r: bool)
        ensures
            r == (self@.len() >= self.spec_capacity()),
    {
        self.items.len() >= self.capacity
    }

    /// Appends `item` if there is room. A full queue stays as it is and the
    /// item comes back in `Err`.
    pub fn try_push(&mut self, item: T) -> (r: Result<(), T>)
        ensures
            final(self).spec_capacity() == old(self).spec_capacity(),
            final(self)@ == after_offer(old(self)@, old(self).spec_capacity(), item),
            r is Ok <==> old(self)@.len() < old(self).spec_capacity(),
            r is Err ==> r == Err::<(), T>(item),
    {
        if self.items.len() < self.capacity {
            self.items.push_back(item);
            Ok(())
        } else {
            Err(item)
        }
    }

    /// Removes and returns the oldest item, if there is one.
    pub fn pop(&mut self) -> (r: Option<T>)
        ensures
            final(self).spec_capacity() == old(self).spec_capacity(),
            final(self)@ == after_take(old(self)@),
            r is Some <==> old(self)@.len() > 0,
            r is Some ==> r == Some(old(self)@[0]),
    {
        self.items.pop_front()
    }
}

/// One thing that happens to a queue: the producer offers an item, or the
/// consumer asks for one.
pub ghost enum QueueEvent<T> {
    Offer(T),
    Take,
}

/// A queue together with the record of what went in and what came out.
pub ghost struct QueueRun<T> {
    /// What is queued now, oldest first.
    pub queue: Seq<T>,
    /// Every item that was let in, in the order of the offers.
    pub accepted: Seq<T>,
    /// Every item that was handed out, in the order of the takes.
    pub delivered: Seq<T>,
}

/// The record of an empty queue to which nothing has happened yet.
pub open spec fn fresh_run<T>() -> QueueRun<T> {
    QueueRun { queue: Seq::empty(), accepted: Seq::empty(), delivered: Seq::empty() }
}

/// The record after one more event.
pub open spec fn run_step<T>(r: QueueRun<T>, capacity: nat, event: QueueEvent<T>) -> QueueRun<T> {
    match event {
        QueueEvent::Offer(item) => QueueRun {
            queue: after_offer(r.queue, capacity, item),
            accepted: if r.queue.len() < capacity {
                r.accepted.push(item)
            } else {
                r.accepted
            },
            delivered: r.delivered,
        },
        QueueEvent::Take => QueueRun {
            queue: after_take(r.queue),
            accepted: r.accepted,
            delivered: if r.queue.len() > 0 {
                r.delivered.push(r.queue[0])
            } else {
                r.delivered
            },
        },
    }
}

/// The record after a sequence of events, starting from an empty queue.
pub open spec fn run<T>(capacity: nat, events: Seq<QueueEvent<T>>) -> QueueRun<T>
    decreases events.len(),
{
    if events.len() == 0 {
        fresh_run()
    } else {
        run_step(run(capacity, events.drop_last()), capacity, events.last())
    }
}

/// First in, first out: whatever offers and takes happen in whatever order,
/// the items handed out so far, followed by the items still queued, are
/// exactly the items that were let in, in the order in which they came.
/// Nothing is reordered, repeated or lost, and the queue keeps to its bound.
pub proof fn lemma_fifo_order<T>(capacity: nat, events: Seq<QueueEvent<T>>)
    ensures
        run(capacity, events).delivered + run(capacity, events).queue == run(
            capacity,
            events,
        ).accepted,
        run(capacity, events).queue.len() <= capacity,
    decreases events.len(),
{
    if events.len() > 0 {
        lemma_fifo_order(capacity, events.drop_last());
    }
}

/// What was handed out is a prefix of what was let in: the k-th item to
/// leave the queue is the k-th item that entered it.
pub proof fn lemma_delivered_in_arrival_order<T>(capacity: nat, events: Seq<QueueEvent<T>>, k: int)
    requires
        0 <= k < run(capacity, events).delivered.len(),
    ensures
        k < run(capacity, events).accepted.len(),
        run(capacity, events).delivered[k] == run(capacity, events).accepted[k],
{
    lemma_fifo_order(capacity, events);
}

} // verus!
