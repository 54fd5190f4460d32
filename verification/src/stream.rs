//! High-level stream interface: decoded events, the batch stream model and
//! its handle.

use vstd::prelude::*;

use crate::channel::{
    spec_cancel, spec_close, spec_poll, spec_try_send, ChannelModel, EventChannel, PollOutcome,
    SendOutcome,
};
use crate::decode::{
    decode_batch, events_models, items_models, spec_decode_batch, spec_decode_errors,
    CallbackError, PayloadShape, RawItem,
};
use crate::flags::StreamFlags;
use crate::raw::{paths_models, valid_watch_paths, CreateError, FSEventStream, FSEventStreamModel};
use crate::sys;
use crate::utils::FlagsExt;

verus! {

/// Mathematical model of one decoded event.
pub ghost struct EventModel {
    pub path: Seq<char>,
    pub inode: Option<i64>,
    pub flag_bits: u32,
    pub raw_flags: u32,
    pub id: u64,
}

/// One decoded filesystem change record.
///
/// Constructed once per decoded record inside the delivery callback, handed
/// to the channel, and never mutated afterwards.
#[derive(Debug, Clone, PartialEq, Eq, Hash)]
pub struct Event {
    /// The filesystem path the record is about.
    pub path: String,
    /// The stable numeric item identifier; present only when extended
    /// per-item metadata was requested at creation.
    pub inode: Option<i64>,
    /// The decoded, known flag set of the record.
    pub flags: StreamFlags,
    /// The flag word exactly as the native layer delivered it.
    pub raw_flags: u32,
    /// The 64-bit event id, monotonically increasing modulo wraparound.
    pub id: u64,
}

impl View for Event {
    type V = EventModel;

    open spec fn view(&self) -> EventModel {
        EventModel {
            path: self.path@,
            inode: self.inode,
            flag_bits: self.flags.spec_bits(),
            raw_flags: self.raw_flags,
            id: self.id,
        }
    }
}


/// The fixed capacity of the mailbox between the delivery callback and the
/// consumer stream.
pub const CHANNEL_CAPACITY: usize = 1024;

/// The one illegal creation-flags combination: extended per-item metadata
/// demands rich objects.
pub open spec fn legal_create_flags(flags: u32) -> bool {
    flags & sys::kFSEventStreamCreateFlagUseExtendedData
        == sys::kFSEventStreamCreateFlagUseExtendedData ==> flags
        & sys::kFSEventStreamCreateFlagUseCFTypes == sys::kFSEventStreamCreateFlagUseCFTypes
}

/// Check a creation-flags word for the one illegal combination.
pub fn check_create_flags(flags: u32) -> (r: bool)
    ensures
        r == legal_create_flags(flags),
{
    !(flags.contains(sys::kFSEventStreamCreateFlagUseExtendedData) && !flags.contains(
        sys::kFSEventStreamCreateFlagUseCFTypes,
    ))
}

/// A stream of batches of decoded events: the consumer end of the bounded
/// mailbox the delivery callback feeds.
///
/// Call [`create_event_stream`] to create it, and
/// [`EventStream::into_flatten`] for a stream of single events instead of
/// batches.  The thread-safe shell and the task-scheduler integration live
/// outside the verified core and drive these methods.
pub struct EventStream {
    chan: EventChannel<Vec<Event>>,
}

impl View for EventStream {
    type V = ChannelModel<Vec<Event>>;

    closed spec fn view(&self) -> ChannelModel<Vec<Event>> {
        self.chan@
    }
}

impl EventStream {
    /// The mailbox never exceeds its fixed capacity.
    pub open spec fn wf(&self) -> bool {
        self@.items.len() <= self@.capacity && self@.capacity >= 1
    }

    /// A fresh stream over an open, empty mailbox of the fixed capacity.
    pub fn new() -> (r: EventStream)
        ensures
            r@ == (ChannelModel::<Vec<Event>> {
                items: Seq::empty(),
                capacity: CHANNEL_CAPACITY as int,
                closed: false,
                cancelled: false,
            }),
            r.wf(),
    {
        EventStream { chan: EventChannel::new(CHANNEL_CAPACITY) }
    }

    /// The callback side: queue one decoded batch, or drop it when the
    /// mailbox is closed or full.  Never blocks the native callback.
    pub fn try_send_batch(&mut self, batch: Vec<Event>) -> (r: SendOutcome)
        requires
            old(self).wf(),
        ensures
            final(self).wf(),
            (final(self)@, r) == spec_try_send(old(self)@, batch),
    {
        self.chan.try_send(batch)
    }

    /// The consumer side: the next batch, end-of-stream, or pending.
    pub fn poll_next(&mut self) -> (r: PollOutcome<Vec<Event>>)
        requires
            old(self).wf(),
        ensures
            final(self).wf(),
            (final(self)@, r) == spec_poll(old(self)@),
    {
        self.chan.poll_next()
    }

    /// Mark the producer gone: the worker thread has unwound and dropped
    /// its sending end.  Queued batches stay readable.
    pub fn close(&mut self)
        requires
            old(self).wf(),
        ensures
            final(self).wf(),
            final(self)@ == spec_close(old(self)@),
    {
        self.chan.close()
    }

    /// Tear the consumer end down: every later poll reports end-of-stream.
    pub fn cancel(&mut self)
        requires
            old(self).wf(),
        ensures
            final(self).wf(),
            final(self)@ == spec_cancel(old(self)@),
    {
        self.chan.cancel()
    }

    /// Flatten batches into a stream of single events, preserving order
    /// within and across batches.
    pub fn into_flatten(self) -> (r: FlatEventStream)
        requires
            self.wf(),
        ensures
            r.wf(),
            r@ == (FlatStreamModel {
                remaining: spec_flat_remaining(self@),
                closed: self@.closed,
                cancelled: self@.cancelled,
            }),
    {
        let r = FlatEventStream { chan: self.chan, current: Vec::new() };
        proof {
            assert(r@.remaining =~= spec_flat_remaining(self@));
        }
        r
    }
}

/// The events of a sequence of batches, in order: the first batch's events,
/// then the rest.
pub open spec fn spec_batches_events(batches: Seq<Vec<Event>>) -> Seq<Event>
    decreases batches.len(),
{
    if batches.len() == 0 {
        Seq::empty()
    } else {
        batches.first()@ + spec_batches_events(batches.drop_first())
    }
}

/// The single events a mailbox of batches can still yield: nothing once it
/// is cancelled, else every queued batch's events in order.
pub open spec fn spec_flat_remaining(c: ChannelModel<Vec<Event>>) -> Seq<Event> {
    if c.cancelled {
        Seq::empty()
    } else {
        spec_batches_events(c.items)
    }
}

/// Mathematical state of a flattened stream: the single events still
/// observable, in order, and how the underlying mailbox ends.
pub ghost struct FlatStreamModel {
    pub remaining: Seq<Event>,
    pub closed: bool,
    pub cancelled: bool,
}

/// A stream of single events over the batch mailbox: each batch is handed
/// out one event at a time, in order.  A batch already taken out of the
/// mailbox is delivered to the end even if the stream is cancelled
/// meanwhile; cancellation discards only what is still queued.
pub struct FlatEventStream {
    chan: EventChannel<Vec<Event>>,
    current: Vec<Event>,
}

impl View for FlatEventStream {
    type V = FlatStreamModel;

    closed spec fn view(&self) -> FlatStreamModel {
        FlatStreamModel {
            remaining: self.current@ + spec_flat_remaining(self.chan@),
            closed: self.chan@.closed,
            cancelled: self.chan@.cancelled,
        }
    }
}

impl FlatEventStream {
    /// The underlying mailbox is sound.
    pub closed spec fn wf(&self) -> bool {
        self.chan.wf()
    }

    /// The next event, end-of-stream, or pending.  Yields exactly the
    /// events of [`FlatStreamModel::remaining`], in order; afterwards, ends
    /// if the mailbox is closed or cancelled, else pends.
    pub fn poll_next(&mut self) -> (r: PollOutcome<Event>)
        requires
            old(self).wf(),
        ensures
            final(self).wf(),
            final(self)@.closed == old(self)@.closed,
            final(self)@.cancelled == old(self)@.cancelled,
            old(self)@.remaining.len() > 0 ==> r == PollOutcome::Ready(
                old(self)@.remaining.first(),
            ) && final(self)@.remaining == old(self)@.remaining.drop_first(),
            old(self)@.remaining.len() == 0 && (old(self)@.closed || old(self)@.cancelled) ==> r
                == PollOutcome::<Event>::End && final(self)@.remaining == old(self)@.remaining,
            old(self)@.remaining.len() == 0 && !(old(self)@.closed || old(self)@.cancelled) ==> r
                == PollOutcome::<Event>::Pending && final(self)@.remaining == old(self)@.remaining,
    {
        let ghost orig = self@;
        loop
            invariant
                self.wf(),
                self@ == orig,
                orig == old(self)@,
            decreases self.chan@.items.len(), self.current@.len(),
        {
            if self.current.len() > 0 {
                let e = self.current.remove(0);
                proof {
                    assert(orig.remaining.first() == e);
                    assert(self@.remaining =~= orig.remaining.drop_first());
                }
                return PollOutcome::Ready(e);
            }
            proof {
                assert(self.current@ =~= Seq::<Event>::empty());
            }
            match self.chan.poll_next() {
                PollOutcome::Ready(batch) => {
                    proof {
                        assert(orig.remaining =~= batch@ + spec_batches_events(self.chan@.items));
                    }
                    self.current = batch;
                    proof {
                        assert(self@.remaining =~= orig.remaining);
                    }
                },
                PollOutcome::Pending => {
                    proof {
                        assert(orig.remaining =~= Seq::<Event>::empty());
                    }
                    return PollOutcome::Pending;
                },
                PollOutcome::End => {
                    proof {
                        assert(orig.remaining =~= Seq::<Event>::empty());
                    }
                    return PollOutcome::End;
                },
            }
        }
    }
}

/// Mathematical state of a stream handler: whether it still holds the
/// run-loop pairing it can tear down.
pub ghost struct HandlerModel {
    pub armed: bool,
}

/// What `abort` does to the handler and the mailbox: a handler still armed
/// gives up its pairing and the worker's unwinding closes the mailbox; a
/// handler already disarmed changes nothing.
pub open spec fn spec_abort_effect(h: HandlerModel, c: ChannelModel<Vec<Event>>) -> (
    HandlerModel,
    ChannelModel<Vec<Event>>,
) {
    if h.armed {
        ((HandlerModel { armed: false }), spec_close(c))
    } else {
        (h, c)
    }
}

/// An owned permission to stop an [`EventStream`] and terminate its
/// backing run loop.
///
/// Dropping the handler without first calling
/// [`abort`](EventStreamHandler::abort) leaves the spawned worker thread
/// and the native state behind: an explicit resource leak, not a silent
/// cleanup.
pub struct EventStreamHandler {
    armed: bool,
}

impl View for EventStreamHandler {
    type V = HandlerModel;

    closed spec fn view(&self) -> HandlerModel {
        HandlerModel { armed: self.armed }
    }
}

impl EventStreamHandler {
    /// A handler that holds its run-loop pairing.
    pub fn new_armed() -> (r: EventStreamHandler)
        ensures
            r@.armed,
    {
        EventStreamHandler { armed: true }
    }

    /// Stop the stream and terminate its backing run loop.
    ///
    /// Calling this more than once has no further effect: only the first
    /// call finds the handler armed.  On that first call the unverified
    /// shell runs the abort protocol of the `lifecycle` module — observer,
    /// quiescence, stop, join — and the worker's unwinding drops the
    /// sending end, which closing the mailbox records: queued batches stay
    /// readable and the stream then reports end-of-stream.
    pub fn abort(&mut self, stream: &mut EventStream)
        requires
            old(stream).wf(),
        ensures
            final(stream).wf(),
            (final(self)@, final(stream)@) == spec_abort_effect(old(self)@, old(stream)@),
    {
        if self.armed {
            self.armed = false;
            stream.close();
        }
    }
}

/// Create a new [`EventStream`] and [`EventStreamHandler`] pair, together
/// with the model of the native stream object the worker thread will own.
///
/// Succeeds exactly when the flags avoid the one illegal combination, the
/// watch set is non-empty and every watch root is representable.  The
/// errors come in that order of checks.  The unverified shell then creates
/// the real native object, spawns the worker, and completes the startup
/// handshake — it receives the worker's run-loop handle before handing the
/// pair out, so a returned handler can always stop the loop.
pub fn create_event_stream(
    paths: &Vec<String>,
    since_when: u64,
    latency_millis: u64,
    flags: u32,
) -> (r: Result<(FSEventStream, EventStream, EventStreamHandler), CreateError>)
    ensures
        r is Ok <==> legal_create_flags(flags) && paths@.len() > 0 && valid_watch_paths(
            paths_models(paths@),
        ),
        !legal_create_flags(flags) ==> (r matches Err(e) && e
            == CreateError::IllegalFlagCombination),
        legal_create_flags(flags) && paths@.len() == 0 ==> (r matches Err(e) && e
            == CreateError::NoWatchRoot),
        legal_create_flags(flags) && paths@.len() > 0 && !valid_watch_paths(
            paths_models(paths@),
        ) ==> (r matches Err(e) && e == CreateError::InvalidPath),
        r matches Ok(t) ==> {
            &&& t.0@ == (FSEventStreamModel {
                paths: paths_models(paths@),
                since_when,
                latency_millis,
                create_flags: flags,
                scheduled: false,
                started: false,
                invalidated: false,
                released: false,
            })
            &&& t.1@ == (ChannelModel::<Vec<Event>> {
                items: Seq::empty(),
                capacity: CHANNEL_CAPACITY as int,
                closed: false,
                cancelled: false,
            })
            &&& t.1.wf()
            &&& t.2@.armed
        },
{
    if !check_create_flags(flags) {
        return Err(CreateError::IllegalFlagCombination);
    }
    if paths.len() == 0 {
        return Err(CreateError::NoWatchRoot);
    }
    let native = match FSEventStream::new(paths, since_when, latency_millis, flags) {
        Ok(s) => s,
        Err(e) => {
            return Err(e);
        },
    };
    Ok((native, EventStream::new(), EventStreamHandler::new_armed()))
}

/// The verified half of the delivery callback for the batch stream: decode
/// the delivered records under the shape fixed at creation and queue the
/// whole batch, without ever blocking.  Returns how the queueing went and
/// the per-record decode failures, for the shell to log.
pub fn deliver_batch(shape: PayloadShape, items: &Vec<RawItem>, stream: &mut EventStream) -> (r: (
    SendOutcome,
    Vec<CallbackError>,
))
    requires
        old(stream).wf(),
    ensures
        final(stream).wf(),
        r.1@ == spec_decode_errors(shape, items_models(items@)),
        old(stream)@.closed ==> r.0 == SendOutcome::Closed && final(stream)@ == old(stream)@,
        !old(stream)@.closed && old(stream)@.items.len() >= old(stream)@.capacity ==> r.0
            == SendOutcome::Full && final(stream)@ == old(stream)@,
        !old(stream)@.closed && old(stream)@.items.len() < old(stream)@.capacity ==> r.0
            == SendOutcome::Sent && final(stream)@.items.len() == old(stream)@.items.len() + 1
            && final(stream)@.items.drop_last() == old(stream)@.items && events_models(
            final(stream)@.items.last()@,
        ) == spec_decode_batch(shape, items_models(items@)) && final(stream)@.closed
            == old(stream)@.closed && final(stream)@.cancelled == old(stream)@.cancelled
            && final(stream)@.capacity == old(stream)@.capacity,
{
    let (events, errors) = decode_batch(shape, items);
    let outcome = stream.try_send_batch(events);
    proof {
        if !old(stream)@.closed && old(stream)@.items.len() < old(stream)@.capacity {
            assert(final(stream)@.items.drop_last() =~= old(stream)@.items);
        }
    }
    (outcome, errors)
}

/// Aborting twice is the same as aborting once: the first call disarms the
/// handler, so the second finds nothing to do and changes nothing.
pub proof fn lemma_abort_idempotent(h: HandlerModel, c: ChannelModel<Vec<Event>>)
    ensures
        spec_abort_effect(spec_abort_effect(h, c).0, spec_abort_effect(h, c).1)
            == spec_abort_effect(h, c),
{
}

/// After an armed handler's `abort` returns, the stream can never pend
/// again: each poll either yields a batch that was already queued —
/// strictly draining the queue — or reports end-of-stream, which it does
/// exactly when the queue is spent.  End-of-stream is therefore reached
/// within as many polls as there are queued batches.
pub proof fn lemma_stream_ends_after_abort(h: HandlerModel, c: ChannelModel<Vec<Event>>)
    requires
        h.armed,
        !c.cancelled,
    ensures
        ({
            let after = spec_abort_effect(h, c).1;
            &&& after.closed
            &&& !(spec_poll(after).1 is Pending)
            &&& (spec_poll(after).1 is End <==> after.items.len() == 0)
            &&& (spec_poll(after).1 matches PollOutcome::Ready(b) ==> b == after.items.first()
                && spec_poll(after).0.items.len() == after.items.len() - 1)
            &&& spec_poll(after).0.closed
            &&& !spec_poll(after).0.cancelled
        }),
{
}

} // verus!
