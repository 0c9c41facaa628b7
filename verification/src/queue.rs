//! The bounded queue between the listeners and the aggregator.
//!
//! A producer never waits: when the queue is full, the oldest update makes
//! room for the new one, and the consumer can see how many were lost. Only
//! the latest reserves of a pool matter, so an update that is overtaken this
//! way is no loss.

use crate::cache::ReserveSnapshot;
use std::collections::VecDeque;
use vstd::prelude::*;

verus! {

/// The queue after `item` is pushed: the oldest update leaves first when
/// there is no room.
pub open spec fn pushed(
    queue: Seq<ReserveSnapshot>,
    capacity: nat,
    item: ReserveSnapshot,
) -> Seq<ReserveSnapshot> {
    if queue.len() >= capacity {
        queue.drop_first().push(item)
    } else {
        queue.push(item)
    }
}

/// After a push the queue ends with the new update, holds no more than its
/// capacity, and is the end of what it would hold without a bound.
pub proof fn lemma_push_keeps_latest(
    queue: Seq<ReserveSnapshot>,
    capacity: nat,
    item: ReserveSnapshot,
)
    requires
        0 < capacity,
        queue.len() <= capacity,
    ensures
        pushed(queue, capacity, item).len() <= capacity,
        pushed(queue, capacity, item).last() == item,
        pushed(queue, capacity, item) == queue.push(item).skip(
            queue.push(item).len() - pushed(queue, capacity, item).len(),
        ),
{
    let all = queue.push(item);
    if queue.len() >= capacity {
        assert(queue.drop_first().push(item) =~= all.skip(1));
    } else {
        assert(all.skip(0) =~= all);
    }
}

/// The number of lost updates after one more is lost: it stops at `u64::MAX`.
pub open spec fn one_more_lost(lost: nat) -> nat {
    if lost < u64::MAX {
        lost + 1
    } else {
        lost
    }
}

/// What a queue holds, as plain values.
pub struct QueueView {
    /// The queued updates, oldest first.
    pub items: Seq<ReserveSnapshot>,
    /// The most updates the queue holds.
    pub capacity: nat,
    /// How many updates have been dropped to make room, capped at `u64::MAX`.
    pub lost: nat,
}

impl QueueView {
    /// The capacity is not zero, and no more than that is queued.
    pub open spec fn wf(self) -> bool {
        0 < self.capacity && self.items.len() <= self.capacity
    }

    /// The queue after `item` is pushed.
    pub open spec fn push(self, item: ReserveSnapshot) -> QueueView {
        QueueView {
            items: pushed(self.items, self.capacity, item),
            capacity: self.capacity,
            lost: if self.items.len() >= self.capacity {
                one_more_lost(self.lost)
            } else {
                self.lost
            },
        }
    }

    /// The queue after its oldest update is taken.
    pub open spec fn pop(self) -> QueueView {
        if self.items.len() == 0 {
            self
        } else {
            QueueView { items: self.items.drop_first(), capacity: self.capacity, lost: self.lost }
        }
    }
}

/// A bounded first-in, first-out queue of updates that drops its oldest
/// entry rather than refuse a new one.
pub struct IngestQueue {
    items: VecDeque<ReserveSnapshot>,
    capacity: usize,
    lost: u64,
}

impl View for IngestQueue {
    type V = QueueView;

    closed spec fn view(&self) -> QueueView {
        QueueView { items: self.items@, capacity: self.capacity as nat, lost: self.lost as nat }
    }
}

impl IngestQueue {
    /// An empty queue for up to `capacity` updates; `None` for a capacity of zero.
    pub fn new(capacity: usize) -> (r: Option<Self>)
        ensures
            r is Some <==> capacity > 0,
            r matches Some(q) ==> q@ == (QueueView {
                items: Seq::empty(),
                capacity: capacity as nat,
                lost: 0,
            }),
    {
        if capacity == 0 {
            None
        } else {
            Some(IngestQueue { items: VecDeque::new(), capacity, lost: 0 })
        }
    }

    /// How many updates are queued.
    pub fn len(&self) -> (n: usize)
        ensures
            n == self@.items.len(),
    {
        self.items.len()
    }

    /// How many updates have been dropped to make room so far.
    pub fn lost_count(&self) -> (n: u64)
        ensures
            n == self@.lost,
    {
        self.lost
    }

    /// Queues `item` without waiting. When the queue is full its oldest
    /// update is dropped and returned.
    pub fn push(&mut self, item: ReserveSnapshot) -> (dropped: Option<ReserveSnapshot>)
        requires
            old(self)@.wf(),
        ensures
            final(self)@ == old(self)@.push(item),
            final(self)@.wf(),
            dropped is Some <==> old(self)@.items.len() == old(self)@.capacity,
            dropped matches Some(d) ==> d == old(self)@.items[0],
    {
        let dropped = if self.items.len() >= self.capacity {
            if self.lost < u64::MAX {
                self.lost = self.lost + 1;
            }
            self.items.pop_front()
        } else {
            None
        };
        self.items.push_back(item);
        assert(self.items@ =~= pushed(old(self)@.items, old(self)@.capacity, item));
        dropped
    }

    /// Takes the oldest queued update, if there is one.
    pub fn pop(&mut self) -> (r: Option<ReserveSnapshot>)
        ensures
            final(self)@ == old(self)@.pop(),
            old(self)@.wf() ==> final(self)@.wf(),
            r is Some <==> old(self)@.items.len() > 0,
            r matches Some(item) ==> item == old(self)@.items[0],
    {
        let r = self.items.pop_front();
        assert(self.items@ =~= old(self)@.pop().items);
        r
    }
}

} // verus!
