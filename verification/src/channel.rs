//! Model of the bounded, backpressured mailbox between the delivery
//! callback and the consumer-facing stream.
//!
//! The producer never blocks: sending into a full channel drops the value,
//! by design, rather than stalling the native callback thread.  The
//! consumer sees items in exactly the order they were sent; a closed
//! channel drains and then reports end-of-stream; a cancelled channel
//! reports end-of-stream at once.  The thread-safe shell around this model
//! (a lock, a waker) lives outside the verified core.

use vstd::prelude::*;

verus! {

/// Mathematical state of a channel.
pub ghost struct ChannelModel<T> {
    pub items: Seq<T>,
    pub capacity: int,
    pub closed: bool,
    pub cancelled: bool,
}

/// What sending yielded.
#[derive(Clone, Copy, Debug, PartialEq, Eq, Structural)]
pub enum SendOutcome {
    /// The item was queued.
    Sent,
    /// The channel was at capacity: the item was dropped, not queued.
    Full,
    /// The channel was closed: the item was dropped, not queued.
    Closed,
}

/// What one poll of the consumer end yielded.
#[derive(Clone, Copy, Debug, PartialEq, Eq)]
pub enum PollOutcome<T> {
    /// The oldest queued item.
    Ready(T),
    /// Nothing queued yet; the stream is still open.
    Pending,
    /// End of stream: the channel was cancelled, or closed and drained.
    End,
}

/// What sending does to a channel state: queue the item if the channel is
/// open and below capacity, otherwise drop it and leave the state alone.
pub open spec fn spec_try_send<T>(c: ChannelModel<T>, item: T) -> (ChannelModel<T>, SendOutcome) {
    if c.closed {
        (c, SendOutcome::Closed)
    } else if c.items.len() >= c.capacity {
        (c, SendOutcome::Full)
    } else {
        ((ChannelModel { items: c.items.push(item), ..c }), SendOutcome::Sent)
    }
}

/// What one poll does to a channel state: end at once when cancelled,
/// otherwise the oldest item when one is queued, otherwise end when closed
/// and pending when still open.
pub open spec fn spec_poll<T>(c: ChannelModel<T>) -> (ChannelModel<T>, PollOutcome<T>) {
    if c.cancelled {
        (c, PollOutcome::End)
    } else if c.items.len() > 0 {
        ((ChannelModel { items: c.items.drop_first(), ..c }), PollOutcome::Ready(c.items.first()))
    } else if c.closed {
        (c, PollOutcome::End)
    } else {
        (c, PollOutcome::Pending)
    }
}

/// Closing a channel: the producer is gone; queued items stay readable.
pub open spec fn spec_close<T>(c: ChannelModel<T>) -> ChannelModel<T> {
    ChannelModel { closed: true, ..c }
}

/// Cancelling a channel: the consumer end is torn down; every later poll
/// reports end-of-stream.
pub open spec fn spec_cancel<T>(c: ChannelModel<T>) -> ChannelModel<T> {
    ChannelModel { cancelled: true, ..c }
}

/// A bounded single-consumer mailbox, the verified core of the channel
/// between the delivery callback and the stream.
pub struct EventChannel<T> {
    queue: Vec<T>,
    capacity: usize,
    closed: bool,
    cancelled: bool,
}

impl<T> View for EventChannel<T> {
    type V = ChannelModel<T>;

    closed spec fn view(&self) -> ChannelModel<T> {
        ChannelModel {
            items: self.queue@,
            capacity: self.capacity as int,
            closed: self.closed,
            cancelled: self.cancelled,
        }
    }
}

impl<T> EventChannel<T> {
    /// The channel never holds more than its fixed capacity.
    pub open spec fn wf(&self) -> bool {
        self@.items.len() <= self@.capacity && self@.capacity >= 1
    }

    /// A fresh open channel with the given fixed capacity.
    pub fn new(capacity: usize) -> (r: EventChannel<T>)
        requires
            capacity >= 1,
        ensures
            r@ == (ChannelModel::<T> {
                items: Seq::empty(),
                capacity: capacity as int,
                closed: false,
                cancelled: false,
            }),
            r.wf(),
    {
        EventChannel { queue: Vec::new(), capacity, closed: false, cancelled: false }
    }

    /// Queue an item, or drop it when the channel is closed or at capacity.
    /// Never blocks: a full mailbox loses the item, by design.
    pub fn try_send(&mut self, item: T) -> (r: SendOutcome)
        requires
            old(self).wf(),
        ensures
            final(self).wf(),
            (final(self)@, r) == spec_try_send(old(self)@, item),
    {
        if self.closed {
            SendOutcome::Closed
        } else if self.queue.len() >= self.capacity {
            SendOutcome::Full
        } else {
            self.queue.push(item);
            SendOutcome::Sent
        }
    }

    /// Produce the next item or end-of-stream; pending when the channel is
    /// open and momentarily empty.  A cancelled channel reports
    /// end-of-stream at once, whatever it still holds.
    pub fn poll_next(&mut self) -> (r: PollOutcome<T>)
        requires
            old(self).wf(),
        ensures
            final(self).wf(),
            (final(self)@, r) == spec_poll(old(self)@),
    {
        if self.cancelled {
            PollOutcome::End
        } else if self.queue.len() > 0 {
            PollOutcome::Ready(self.queue.remove(0))
        } else if self.closed {
            PollOutcome::End
        } else {
            PollOutcome::Pending
        }
    }

    /// Mark the producer gone; queued items stay readable.
    pub fn close(&mut self)
        requires
            old(self).wf(),
        ensures
            final(self).wf(),
            final(self)@ == spec_close(old(self)@),
    {
        self.closed = true;
    }

    /// Tear the consumer end down; every later poll reports end-of-stream.
    pub fn cancel(&mut self)
        requires
            old(self).wf(),
        ensures
            final(self).wf(),
            final(self)@ == spec_cancel(old(self)@),
    {
        self.cancelled = true;
    }

    /// How many items are queued.
    pub fn len(&self) -> (r: usize)
        ensures
            r == self@.items.len(),
    {
        self.queue.len()
    }
}

/// The channel introduces no reordering: what two successful sends queue
/// comes to stand, in send order, after everything queued before them, and
/// polls hand the queue out from the front.
pub proof fn lemma_channel_preserves_order<T>(c: ChannelModel<T>, a: T, b: T)
    requires
        !c.closed,
        c.items.len() + 2 <= c.capacity,
    ensures
        spec_try_send(c, a).1 == SendOutcome::Sent,
        spec_try_send(spec_try_send(c, a).0, b).1 == SendOutcome::Sent,
        spec_try_send(spec_try_send(c, a).0, b).0.items =~= c.items + seq![a, b],
{
    broadcast use vstd::seq::Seq::add_empty_right;

    assert(c.items.push(a).push(b) =~= c.items + seq![a, b]);
}

} // verus!
