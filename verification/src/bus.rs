//! A bounded multi-subscriber notification fan-out.
//!
//! Each runner owns two of these: `update` (any state change) and `status`
//! (connectivity flips, carrying the new value). Publishing never blocks and
//! never fails: with no subscribers it does nothing, and a subscriber that is
//! behind by a full buffer loses its oldest message and sees a missed-messages
//! condition on its next read. Missing messages is not an error; a reader
//! that sees it falls back to reading the mirror directly.

use vstd::prelude::*;

verus! {

/// What one read from a subscription yields.
#[derive(Debug, PartialEq, Eq)]
pub enum RecvOutcome<T> {
    /// Messages were dropped since the last read: the subscriber fell behind
    /// the bound. Treat as "assume a full refresh is needed", never as fatal.
    Missed,
    /// Nothing is pending.
    Empty,
    /// The oldest pending message.
    Message(T),
}

struct BusQueue<T> {
    items: Vec<T>,
    missed: bool,
}

/// A bounded broadcast channel; one queue per subscriber.
pub struct NotificationBus<T> {
    capacity: usize,
    queues: Vec<BusQueue<T>>,
}

/// A bounded append: when the queue is full, the oldest message is dropped
/// to make room.
pub open spec fn bounded_push<T>(q: Seq<T>, msg: T, cap: int) -> Seq<T> {
    if q.len() < cap {
        q.push(msg)
    } else {
        q.skip(1).push(msg)
    }
}

/// How one publish relates the bus before and after: every subscriber's
/// queue takes the message (dropping its oldest when full), and a subscriber
/// whose queue was full is marked as having missed messages.
pub open spec fn published<T>(pre: NotificationBus<T>, post: NotificationBus<T>, msg: T) -> bool {
    &&& post.cap() == pre.cap()
    &&& post.subscriber_count() == pre.subscriber_count()
    &&& forall|k: int|
        0 <= k < pre.subscriber_count() ==> #[trigger] post.queue(k) == bounded_push(
            pre.queue(k),
            msg,
            pre.cap(),
        )
    &&& forall|k: int|
        0 <= k < pre.subscriber_count() ==> #[trigger] post.missed(k) == (pre.missed(k)
            || pre.queue(k).len() == pre.cap())
}

fn queue_push<T>(q: &mut BusQueue<T>, msg: T, cap: usize)
    requires
        cap >= 1,
        old(q).items@.len() <= cap,
    ensures
        final(q).items@ == bounded_push(old(q).items@, msg, cap as int),
        final(q).missed == (old(q).missed || old(q).items@.len() == cap),
        final(q).items@.len() <= cap,
{
    if q.items.len() == cap {
        let _ = q.items.remove(0);
        q.missed = true;
        proof {
            assert(q.items@ =~= old(q).items@.skip(1));
        }
    }
    q.items.push(msg);
}

impl<T> NotificationBus<T> {
    /// The bound: how many unread messages one subscriber can hold.
    pub closed spec fn cap(self) -> int {
        self.capacity as int
    }

    /// How many subscriptions exist.
    pub closed spec fn subscriber_count(self) -> int {
        self.queues@.len() as int
    }

    /// Subscriber `k`'s pending messages, oldest first.
    pub closed spec fn queue(self, k: int) -> Seq<T> {
        self.queues@[k].items@
    }

    /// Whether subscriber `k` has lost messages since its last read.
    pub closed spec fn missed(self, k: int) -> bool {
        self.queues@[k].missed
    }

    /// The bound is positive and no queue exceeds it.
    pub closed spec fn wf(self) -> bool {
        &&& self.capacity >= 1
        &&& forall|k: int|
            0 <= k < self.queues@.len() ==> #[trigger] self.queues@[k].items@.len()
                <= self.capacity
    }

}

impl<T: Copy> NotificationBus<T> {
    /// A bus with no subscribers.
    pub fn new(capacity: usize) -> (bus: Self)
        requires
            capacity >= 1,
        ensures
            bus.wf(),
            bus.cap() == capacity,
            bus.subscriber_count() == 0,
    {
        NotificationBus { capacity, queues: Vec::new() }
    }

    /// Open a new subscription; only messages published after this call are
    /// delivered to it.
    pub fn subscribe(&mut self) -> (id: usize)
        requires
            old(self).wf(),
        ensures
            final(self).wf(),
            final(self).cap() == old(self).cap(),
            id == old(self).subscriber_count(),
            final(self).subscriber_count() == old(self).subscriber_count() + 1,
            final(self).queue(id as int) == Seq::<T>::empty(),
            !final(self).missed(id as int),
            forall|k: int|
                0 <= k < old(self).subscriber_count() ==> #[trigger] final(self).queue(k) == old(
                    self,
                ).queue(k) && final(self).missed(k) == old(self).missed(k),
    {
        let id = self.queues.len();
        self.queues.push(BusQueue { items: Vec::new(), missed: false });
        id
    }

    /// Hand a message to every subscriber. Never blocks and never fails:
    /// with no subscribers this does nothing.
    pub fn publish(&mut self, msg: T)
        requires
            old(self).wf(),
        ensures
            final(self).wf(),
            published(*old(self), *final(self), msg),
    {
        let cap = self.capacity;
        let n = self.queues.len();
        let mut i: usize = 0;
        while i < n
            invariant
                old(self).wf(),
                cap == old(self).capacity,
                self.capacity == old(self).capacity,
                n == self.queues@.len(),
                n == old(self).queues@.len(),
                i <= n,
                forall|k: int| i <= k < n ==> self.queues@[k] == old(self).queues@[k],
                forall|k: int|
                    0 <= k < i ==> #[trigger] self.queues@[k].items@ == bounded_push(
                        old(self).queues@[k].items@,
                        msg,
                        cap as int,
                    ) && self.queues@[k].missed == (old(self).queues@[k].missed || old(
                        self,
                    ).queues@[k].items@.len() == cap) && self.queues@[k].items@.len() <= cap,
            decreases n - i,
        {
            queue_push(&mut self.queues[i], msg, cap);
            i = i + 1;
        }
        proof {
            assert forall|k: int| 0 <= k < old(self).subscriber_count() implies #[trigger] self
                .queue(k) == bounded_push(old(self).queue(k), msg, old(self).cap()) by {
                assert(self.queues@[k].items@ == bounded_push(
                    old(self).queues@[k].items@,
                    msg,
                    cap as int,
                ));
            }
            assert forall|k: int| 0 <= k < old(self).subscriber_count() implies #[trigger] self
                .missed(k) == (old(self).missed(k) || old(self).queue(k).len() == old(
                self,
            ).cap()) by {
                assert(self.queues@[k].items@ == bounded_push(
                    old(self).queues@[k].items@,
                    msg,
                    cap as int,
                ));
            }
        }
    }

    /// Read the next message for subscriber `id`. A missed-messages
    /// condition is reported once and cleared; the messages still pending
    /// stay readable after it.
    pub fn recv(&mut self, id: usize) -> (r: RecvOutcome<T>)
        requires
            old(self).wf(),
            id < old(self).subscriber_count(),
        ensures
            final(self).wf(),
            final(self).cap() == old(self).cap(),
            final(self).subscriber_count() == old(self).subscriber_count(),
            forall|k: int|
                0 <= k < old(self).subscriber_count() && k != id ==> #[trigger] final(self).queue(
                    k,
                ) == old(self).queue(k) && final(self).missed(k) == old(self).missed(k),
            !final(self).missed(id as int),
            match r {
                RecvOutcome::Missed => old(self).missed(id as int) && final(self).queue(id as int)
                    == old(self).queue(id as int),
                RecvOutcome::Empty => !old(self).missed(id as int) && old(self).queue(
                    id as int,
                ).len() == 0 && final(self).queue(id as int) == old(self).queue(id as int),
                RecvOutcome::Message(msg) => !old(self).missed(id as int) && old(self).queue(
                    id as int,
                ).len() > 0 && msg == old(self).queue(id as int)[0] && final(self).queue(id as int)
                    == old(self).queue(id as int).skip(1),
            },
    {
        let q = &mut self.queues[id];
        if q.missed {
            q.missed = false;
            RecvOutcome::Missed
        } else if q.items.len() == 0 {
            RecvOutcome::Empty
        } else {
            let msg = q.items.remove(0);
            proof {
                assert(q.items@ =~= old(self).queues@[id as int].items@.skip(1));
            }
            RecvOutcome::Message(msg)
        }
    }

    /// How many subscriptions exist.
    pub fn subscribers(&self) -> (n: usize)
        ensures
            n == self.subscriber_count(),
    {
        self.queues.len()
    }
}

} // verus!
