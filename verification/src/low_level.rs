//! Low-level stream interface: single decoded events rather than batches,
//! and a handler that additionally cancels the consumer stream outright.

use vstd::prelude::*;

use crate::channel::{
    spec_cancel, spec_close, spec_poll, spec_try_send, ChannelModel, EventChannel, PollOutcome,
    SendOutcome,
};
use crate::decode::{
    decode_batch, items_models, spec_decode_batch, spec_decode_errors, CallbackError, PayloadShape,
    RawItem,
};
use crate::flags::StreamFlags;
use crate::raw::{paths_models, valid_watch_paths, CreateError, FSEventStream, FSEventStreamModel};
use crate::stream::{check_create_flags, legal_create_flags, EventModel, HandlerModel,
    CHANNEL_CAPACITY};

verus! {

/// One low-level decoded filesystem change record; the same content as
/// [`crate::stream::Event`], delivered one record at a time.
#[derive(Debug, Clone, PartialEq, Eq, Hash)]
pub struct RawEvent {
    pub path: String,
    pub inode: Option<i64>,
    pub flags: StreamFlags,
    pub raw_flags: u32,
    pub id: u64,
}

impl View for RawEvent {
    type V = EventModel;

    open spec fn view(&self) -> EventModel {
        EventModel {
            path: self.path@,
            inode: self.inode,
            flag_bits: self.flags.spec_bits(),
            raw_flags: self.raw_flags,
            id: self.id,
        }
    }
}

/// The models of a sequence of low-level events.
pub open spec fn raw_events_models(s: Seq<RawEvent>) -> Seq<EventModel> {
    s.map_values(|e: RawEvent| e@)
}

/// Decode a whole delivered batch into low-level events, in delivery
/// order, together with the failures, one per dropped record.
pub fn decode_raw_batch(shape: PayloadShape, items: &Vec<RawItem>) -> (r: (Vec<RawEvent>, Vec<
    CallbackError,
>))
    ensures
        raw_events_models(r.0@) == spec_decode_batch(shape, items_models(items@)),
        r.1@ == spec_decode_errors(shape, items_models(items@)),
{
    let (events, errors) = decode_batch(shape, items);
    let mut out: Vec<RawEvent> = Vec::new();
    let n = events.len();
    for i in 0..n
        invariant
            n == events@.len(),
            out@.len() == i,
            forall|j: int| 0 <= j < i ==> (#[trigger] out@[j])@ == events@[j]@,
            crate::decode::events_models(events@) == spec_decode_batch(
                shape,
                items_models(items@),
            ),
    {
        let e = &events[i];
        out.push(
            RawEvent {
                path: e.path.clone(),
                inode: e.inode,
                flags: e.flags,
                raw_flags: e.raw_flags,
                id: e.id,
            },
        );
    }
    proof {
        assert(raw_events_models(out@) =~= crate::decode::events_models(events@));
    }
    (out, errors)
}

/// How many of the decoded events fit: all of them, or only what space the
/// mailbox has left.
pub open spec fn spec_fit(space: int, n: int) -> int {
    if space < n {
        space
    } else {
        n
    }
}

/// The verified half of the delivery callback for the low-level stream:
/// decode the delivered records under the shape fixed at creation and
/// queue the events one by one, in order, without ever blocking.  Events
/// beyond the mailbox's free space are dropped, never reordered; a closed
/// mailbox takes nothing.  Returns the per-record decode failures and how
/// many decoded events the mailbox had no room for, for the shell to log.
pub fn deliver_raw_events(
    shape: PayloadShape,
    items: &Vec<RawItem>,
    stream: &mut RawEventStream,
) -> (r: (Vec<CallbackError>, usize))
    requires
        old(stream).wf(),
    ensures
        final(stream).wf(),
        r.0@ == spec_decode_errors(shape, items_models(items@)),
        old(stream)@.closed ==> r.1 == spec_decode_batch(shape, items_models(items@)).len(),
        !old(stream)@.closed ==> r.1 == spec_decode_batch(shape, items_models(items@)).len()
            - spec_fit(
            old(stream)@.capacity - old(stream)@.items.len(),
            spec_decode_batch(shape, items_models(items@)).len() as int,
        ),
        final(stream)@.closed == old(stream)@.closed,
        final(stream)@.cancelled == old(stream)@.cancelled,
        final(stream)@.capacity == old(stream)@.capacity,
        old(stream)@.closed ==> final(stream)@.items == old(stream)@.items,
        !old(stream)@.closed ==> ({
            let evs = spec_decode_batch(shape, items_models(items@));
            let before = old(stream)@.items.len() as int;
            let took = spec_fit(old(stream)@.capacity - before, evs.len() as int);
            &&& final(stream)@.items.len() == before + took
            &&& final(stream)@.items.take(before) == old(stream)@.items
            &&& raw_events_models(final(stream)@.items.skip(before)) == evs.take(took)
        }),
{
    broadcast use vstd::seq_lib::group_seq_properties;

    let (events, errors) = decode_raw_batch(shape, items);
    let ghost evs0 = raw_events_models(events@);
    let ghost orig = stream@;
    let mut evs = events;
    let mut dropped: usize = 0;
    let n_total: usize = evs.len();
    let ghost total = evs0.len() as int;
    proof {
        assert(total == n_total as int);
    }
    while evs.len() > 0
        invariant
            stream.wf(),
            orig == old(stream)@,
            total == evs0.len(),
            total <= usize::MAX,
            orig.items.len() <= orig.capacity,
            orig.capacity >= 1,
            stream@.closed == orig.closed,
            stream@.cancelled == orig.cancelled,
            stream@.capacity == orig.capacity,
            raw_events_models(evs@) == evs0.skip(total - evs@.len()),
            evs@.len() <= total,
            orig.closed ==> stream@.items == orig.items,
            orig.closed ==> dropped == total - evs@.len(),
            !orig.closed ==> ({
                let j = total - evs@.len();
                dropped == j - spec_fit(orig.capacity - orig.items.len(), j)
            }),
            dropped <= total - evs@.len(),
            !orig.closed ==> ({
                let j = total - evs@.len();
                let took = spec_fit(orig.capacity - orig.items.len(), j);
                &&& stream@.items.len() == orig.items.len() + took
                &&& stream@.items.take(orig.items.len() as int) == orig.items
                &&& raw_events_models(stream@.items.skip(orig.items.len() as int)) == evs0.take(
                    took,
                )
            }),
        decreases evs@.len(),
    {
        let ghost j = total - evs@.len();
        proof {
            assert(evs0.skip(j).len() > 0);
            assert(raw_events_models(evs@)[0] == evs@[0]@);
            assert(evs0.skip(j)[0] == evs0[j]);
        }
        let ghost prev = evs@;
        let e = evs.remove(0);
        proof {
            assert(e@ == evs0[j]);
            assert(evs@ == prev.remove(0));
            assert forall|i: int| 0 <= i < evs@.len() implies raw_events_models(evs@)[i]
                == evs0.skip(j + 1)[i] by {
                assert(evs@[i] == prev[i + 1]);
                assert(raw_events_models(prev)[i + 1] == prev[i + 1]@);
                assert(evs0.skip(j)[i + 1] == evs0[j + 1 + i]);
                assert(evs0.skip(j + 1)[i] == evs0[j + 1 + i]);
            }
            assert(raw_events_models(evs@).len() == evs0.skip(j + 1).len());
            assert(raw_events_models(evs@) =~= evs0.skip(j + 1));
        }
        let outcome = stream.try_send(e);
        if outcome != SendOutcome::Sent {
            dropped = dropped + 1;
        }
        proof {
            if !orig.closed {
                let took = spec_fit(orig.capacity - orig.items.len(), j);
                if orig.items.len() + took < orig.capacity {
                    assert(outcome == SendOutcome::Sent);
                    assert(stream@.items.take(orig.items.len() as int)
                        =~= orig.items);
                    assert(raw_events_models(stream@.items.skip(orig.items.len() as int))
                        =~= evs0.take(spec_fit(orig.capacity - orig.items.len(), j + 1)));
                } else {
                    assert(outcome == SendOutcome::Full);
                    assert(spec_fit(orig.capacity - orig.items.len(), j + 1) == took);
                }
            }
        }
    }
    proof {
        assert(evs0.skip(total) =~= raw_events_models(evs@));
        if !orig.closed {
            assert(spec_fit(orig.capacity - orig.items.len(), total) == spec_fit(
                orig.capacity - orig.items.len(),
                spec_decode_batch(shape, items_models(items@)).len() as int,
            ));
        }
    }
    (errors, dropped)
}

/// A stream of single low-level events: the consumer end of the bounded
/// mailbox the delivery callback feeds one record at a time.
///
/// Call [`raw_event_stream`] to create it.
pub struct RawEventStream {
    chan: EventChannel<RawEvent>,
}

impl View for RawEventStream {
    type V = ChannelModel<RawEvent>;

    closed spec fn view(&self) -> ChannelModel<RawEvent> {
        self.chan@
    }
}

impl RawEventStream {
    /// The mailbox never exceeds its fixed capacity.
    pub open spec fn wf(&self) -> bool {
        self@.items.len() <= self@.capacity && self@.capacity >= 1
    }

    /// A fresh stream over an open, empty mailbox of the fixed capacity.
    pub fn new() -> (r: RawEventStream)
        ensures
            r@ == (ChannelModel::<RawEvent> {
                items: Seq::empty(),
                capacity: CHANNEL_CAPACITY as int,
                closed: false,
                cancelled: false,
            }),
            r.wf(),
    {
        RawEventStream { chan: EventChannel::new(CHANNEL_CAPACITY) }
    }

    /// The callback side: queue one decoded event, or drop it when the
    /// mailbox is closed or full.  Never blocks the native callback.
    pub fn try_send(&mut self, event: RawEvent) -> (r: SendOutcome)
        requires
            old(self).wf(),
        ensures
            final(self).wf(),
            (final(self)@, r) == spec_try_send(old(self)@, event),
    {
        self.chan.try_send(event)
    }

    /// The consumer side: the next event, end-of-stream, or pending.
    pub fn poll_next(&mut self) -> (r: PollOutcome<RawEvent>)
        requires
            old(self).wf(),
        ensures
            final(self).wf(),
            (final(self)@, r) == spec_poll(old(self)@),
    {
        self.chan.poll_next()
    }

    /// Mark the producer gone: the worker thread has unwound and dropped
    /// its sending end.
    pub fn close(&mut self)
        requires
            old(self).wf(),
        ensures
            final(self).wf(),
            final(self)@ == spec_close(old(self)@),
    {
        self.chan.close()
    }

    /// Tear the consumer end down: every later poll reports end-of-stream,
    /// whatever is still queued.
    pub fn cancel(&mut self)
        requires
            old(self).wf(),
        ensures
            final(self).wf(),
            final(self)@ == spec_cancel(old(self)@),
    {
        self.chan.cancel()
    }
}

/// What the low-level `abort` does to the handler and the mailbox: a
/// handler still armed gives up its pairing, the worker's unwinding closes
/// the mailbox, and the stream is cancelled outright; a handler already
/// disarmed changes nothing.
pub open spec fn spec_raw_abort_effect(h: HandlerModel, c: ChannelModel<RawEvent>) -> (
    HandlerModel,
    ChannelModel<RawEvent>,
) {
    if h.armed {
        ((HandlerModel { armed: false }), spec_cancel(spec_close(c)))
    } else {
        (h, c)
    }
}

/// An owned permission to stop a [`RawEventStream`] and terminate its
/// backing run loop.
///
/// Dropping the handler without first calling
/// [`abort`](RawEventStreamHandler::abort) leaves the spawned worker
/// thread and the native state behind: an explicit resource leak, not a
/// silent cleanup.
pub struct RawEventStreamHandler {
    armed: bool,
}

impl View for RawEventStreamHandler {
    type V = HandlerModel;

    closed spec fn view(&self) -> HandlerModel {
        HandlerModel { armed: self.armed }
    }
}

impl RawEventStreamHandler {
    /// A handler that holds its run-loop pairing.
    pub fn new_armed() -> (r: RawEventStreamHandler)
        ensures
            r@.armed,
    {
        RawEventStreamHandler { armed: true }
    }

    /// Stop the stream and terminate its backing run loop.
    ///
    /// Calling this more than once has no further effect: only the first
    /// call finds the handler armed.  On that first call the unverified
    /// shell runs the abort protocol of the `lifecycle` module — observer,
    /// quiescence, stop, join — then cancels the stream, so pending and
    /// future polls observe end-of-stream at once.
    pub fn abort(&mut self, stream: &mut RawEventStream)
        requires
            old(stream).wf(),
        ensures
            final(stream).wf(),
            (final(self)@, final(stream)@) == spec_raw_abort_effect(old(self)@, old(stream)@),
    {
        if self.armed {
            self.armed = false;
            stream.close();
            stream.cancel();
        }
    }
}

/// Create a new [`RawEventStream`] and [`RawEventStreamHandler`] pair,
/// together with the model of the native stream object the worker thread
/// will own.
///
/// Succeeds exactly when the flags avoid the one illegal combination, the
/// watch set is non-empty and every watch root is representable.  The
/// errors come in that order of checks.
pub fn raw_event_stream(
    paths: &Vec<String>,
    since_when: u64,
    latency_millis: u64,
    flags: u32,
) -> (r: Result<(FSEventStream, RawEventStream, RawEventStreamHandler), CreateError>)
    ensures
        r is Ok <==> legal_create_flags(flags) && paths@.len() > 0 && valid_watch_paths(
            paths_models(paths@),
        ),
        !legal_create_flags(flags) ==> (r matches Err(e) && e
            == CreateError::IllegalFlagCombination),
        legal_create_flags(flags) && paths@.len() == 0 ==> (r matches Err(e) && e
            == CreateError::NoWatchRoot),
        legal_create_flags(flags) && paths@.len() > 0 && !valid_watch_paths(
            paths_models(paths@),
        ) ==> (r matches Err(e) && e == CreateError::InvalidPath),
        r matches Ok(t) ==> {
            &&& t.0@ == (FSEventStreamModel {
                paths: paths_models(paths@),
                since_when,
                latency_millis,
                create_flags: flags,
                scheduled: false,
                started: false,
                invalidated: false,
                released: false,
            })
            &&& t.1@ == (ChannelModel::<RawEvent> {
                items: Seq::empty(),
                capacity: CHANNEL_CAPACITY as int,
                closed: false,
                cancelled: false,
            })
            &&& t.1.wf()
            &&& t.2@.armed
        },
{
    if !check_create_flags(flags) {
        return Err(CreateError::IllegalFlagCombination);
    }
    if paths.len() == 0 {
        return Err(CreateError::NoWatchRoot);
    }
    let native = match FSEventStream::new(paths, since_when, latency_millis, flags) {
        Ok(s) => s,
        Err(e) => {
            return Err(e);
        },
    };
    Ok((native, RawEventStream::new(), RawEventStreamHandler::new_armed()))
}

/// Aborting twice is the same as aborting once: the first call disarms the
/// handler, so the second finds nothing to do and changes nothing.
pub proof fn lemma_raw_abort_idempotent(h: HandlerModel, c: ChannelModel<RawEvent>)
    ensures
        spec_raw_abort_effect(spec_raw_abort_effect(h, c).0, spec_raw_abort_effect(h, c).1)
            == spec_raw_abort_effect(h, c),
{
}

/// After an armed handler's `abort` returns, the stream yields no further
/// items: every poll reports end-of-stream at once and leaves the stream
/// unchanged, whatever was still queued.
pub proof fn lemma_raw_stream_ends_after_abort(h: HandlerModel, c: ChannelModel<RawEvent>)
    requires
        h.armed,
    ensures
        spec_poll(spec_raw_abort_effect(h, c).1) == (
            spec_raw_abort_effect(h, c).1,
            PollOutcome::<RawEvent>::End,
        ),
{
}

} // verus!
