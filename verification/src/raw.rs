//! Model of the owned native resources: the stream object and the context
//! registry.
//!
//! The native stream object is owned by the worker thread for its whole
//! life.  This model carries the configuration fixed at creation and the
//! lifecycle protocol of the native calls — schedule, start, stop,
//! invalidate, release — with the invariant that exactly one teardown call
//! is ever made: `release` demands a stream not yet released, and
//! `invalidate` one not yet invalidated.  The unverified shim drives this
//! model in lockstep with the real native object.

use vstd::prelude::*;
use vstd::string::StrSliceExecFns;

verus! {

/// Why creation failed.  Creation errors are surfaced synchronously to the
/// caller and are fatal to that call only.
#[derive(Clone, Copy, Debug, PartialEq, Eq, Structural)]
pub enum CreateError {
    /// Extended per-item metadata was requested without rich objects.
    IllegalFlagCombination,
    /// A watch root is not a representable filesystem path.
    InvalidPath,
    /// The set of watch roots is empty.
    NoWatchRoot,
}

/// A watch root the native layer can represent: non-empty, with no NUL
/// character.
pub open spec fn valid_watch_path(p: Seq<char>) -> bool {
    p.len() > 0 && forall|i: int| 0 <= i < p.len() ==> p[i] != '\u{0}'
}

/// Check one watch root.
pub fn check_watch_path(p: &str) -> (r: bool)
    ensures
        r == valid_watch_path(p@),
{
    let n = p.unicode_len();
    if n == 0 {
        return false;
    }
    for i in 0..n
        invariant
            n == p@.len(),
            forall|j: int| 0 <= j < i ==> p@[j] != '\u{0}',
    {
        if p.get_char(i) == '\u{0}' {
            return false;
        }
    }
    true
}

/// Every path of the set is a representable watch root.
pub open spec fn valid_watch_paths(paths: Seq<Seq<char>>) -> bool {
    forall|i: int| 0 <= i < paths.len() ==> valid_watch_path(#[trigger] paths[i])
}

/// The views of a vector of paths.
pub open spec fn paths_models(paths: Seq<String>) -> Seq<Seq<char>> {
    paths.map_values(|p: String| p@)
}

/// Mathematical state of the native stream object: the configuration fixed
/// at creation, and where the object stands in its lifecycle.
pub ghost struct FSEventStreamModel {
    pub paths: Seq<Seq<char>>,
    pub since_when: u64,
    pub latency_millis: u64,
    pub create_flags: u32,
    pub scheduled: bool,
    pub started: bool,
    pub invalidated: bool,
    pub released: bool,
}

/// The owned native stream object, as the verified core sees it: its
/// configuration and its lifecycle state.  The unverified shim pairs a
/// value of this type with the raw handle the native layer returned and
/// performs each native call exactly where a method here records it.
pub struct FSEventStream {
    paths: Vec<String>,
    since_when: u64,
    latency_millis: u64,
    create_flags: u32,
    scheduled: bool,
    started: bool,
    invalidated: bool,
    released: bool,
}

impl View for FSEventStream {
    type V = FSEventStreamModel;

    closed spec fn view(&self) -> FSEventStreamModel {
        FSEventStreamModel {
            paths: paths_models(self.paths@),
            since_when: self.since_when,
            latency_millis: self.latency_millis,
            create_flags: self.create_flags,
            scheduled: self.scheduled,
            started: self.started,
            invalidated: self.invalidated,
            released: self.released,
        }
    }
}

impl FSEventStream {
    /// The stream may still be used: it has been neither invalidated nor
    /// released.
    pub open spec fn usable(&self) -> bool {
        !self@.invalidated && !self@.released
    }

    /// Create the stream model for the given watch roots and configuration.
    ///
    /// Fails exactly when some watch root is not representable; the
    /// configuration is recorded unchanged and the lifecycle starts with
    /// nothing scheduled, started, invalidated or released.
    pub fn new(
        paths: &Vec<String>,
        since_when: u64,
        latency_millis: u64,
        create_flags: u32,
    ) -> (r: Result<FSEventStream, CreateError>)
        ensures
            r is Ok <==> valid_watch_paths(paths_models(paths@)),
            r matches Ok(s) ==> s@ == (FSEventStreamModel {
                paths: paths_models(paths@),
                since_when,
                latency_millis,
                create_flags,
                scheduled: false,
                started: false,
                invalidated: false,
                released: false,
            }),
            r is Err ==> r == Err::<FSEventStream, CreateError>(CreateError::InvalidPath),
    {
        let n = paths.len();
        let mut stored: Vec<String> = Vec::new();
        for i in 0..n
            invariant
                n == paths@.len(),
                stored@.len() == i,
                forall|j: int| 0 <= j < i ==> #[trigger] stored@[j]@ == paths@[j]@,
                forall|j: int|
                    0 <= j < i ==> valid_watch_path(#[trigger] paths_models(paths@)[j]),
        {
            if !check_watch_path(paths[i].as_str()) {
                proof {
                    assert(paths_models(paths@)[i as int] == paths@[i as int]@);
                }
                return Err(CreateError::InvalidPath);
            }
            stored.push(paths[i].clone());
        }
        proof {
            assert(paths_models(stored@) =~= paths_models(paths@));
        }
        Ok(
            FSEventStream {
                paths: stored,
                since_when,
                latency_millis,
                create_flags,
                scheduled: false,
                started: false,
                invalidated: false,
                released: false,
            },
        )
    }

    /// Record scheduling the stream on the worker's run loop.
    pub fn schedule(&mut self)
        requires
            old(self).usable(),
        ensures
            final(self)@ == (FSEventStreamModel { scheduled: true, ..old(self)@ }),
    {
        self.scheduled = true;
    }

    /// Record unscheduling the stream from the worker's run loop.
    pub fn unschedule(&mut self)
        requires
            old(self).usable(),
            old(self)@.scheduled,
        ensures
            final(self)@ == (FSEventStreamModel { scheduled: false, ..old(self)@ }),
    {
        self.scheduled = false;
    }

    /// Record starting delivery.  The stream must already be scheduled.
    /// The model records that the start was requested; whether the native
    /// layer accepted it is surfaced by the unverified shim.
    pub fn start(&mut self) -> (r: bool)
        requires
            old(self).usable(),
            old(self)@.scheduled,
        ensures
            final(self)@ == (FSEventStreamModel { started: true, ..old(self)@ }),
            r,
    {
        self.started = true;
        true
    }

    /// Record a synchronous flush of pending events.  Meaningful only on a
    /// started stream; changes nothing in the model.
    pub fn flush_sync(&mut self)
        requires
            old(self).usable(),
            old(self)@.started,
        ensures
            *final(self) == *old(self),
    {
    }

    /// Record stopping delivery.
    pub fn stop(&mut self)
        requires
            old(self).usable(),
        ensures
            final(self)@ == (FSEventStreamModel { started: false, ..old(self)@ }),
    {
        self.started = false;
    }

    /// Record invalidating the stream: it leaves every run loop and can
    /// never be used again.  At most one invalidation is possible.
    pub fn invalidate(&mut self)
        requires
            old(self).usable(),
        ensures
            final(self)@ == (FSEventStreamModel {
                scheduled: false,
                started: false,
                invalidated: true,
                ..old(self)@
            }),
    {
        self.scheduled = false;
        self.started = false;
        self.invalidated = true;
    }

    /// Record releasing the native object.  Exactly one release is ever
    /// made: a released stream cannot be touched again through any method
    /// of this model.
    pub fn release(&mut self)
        requires
            !old(self)@.released,
        ensures
            final(self)@ == (FSEventStreamModel { released: true, ..old(self)@ }),
    {
        self.released = true;
    }
}

/// The worker thread's startup sequence on the native stream: schedule it
/// on the worker's run loop, then start delivery.  Verifying this sequence
/// shows it respects the stream's lifecycle protocol.
pub fn worker_startup(stream: &mut FSEventStream)
    requires
        old(stream).usable(),
    ensures
        final(stream)@ == (FSEventStreamModel {
            scheduled: true,
            started: true,
            ..old(stream)@
        }),
{
    stream.schedule();
    let _started = stream.start();
}

/// The worker thread's unwind sequence after its run loop was stopped:
/// stop delivery, then invalidate the stream.  After this the stream is
/// beyond use; only the one release remains.
pub fn worker_teardown(stream: &mut FSEventStream)
    requires
        old(stream).usable(),
    ensures
        final(stream)@ == (FSEventStreamModel {
            scheduled: false,
            started: false,
            invalidated: true,
            ..old(stream)@
        }),
{
    stream.stop();
    stream.invalidate();
}

/// The registry that stands behind the opaque context pointer the native
/// layer carries: contexts are held under explicit tokens, and teardown
/// takes a token rather than trusting a raw pointer.  Releasing a token a
/// second time yields nothing instead of freeing twice.
pub struct ContextRegistry<T> {
    slots: Vec<Option<T>>,
}

impl<T> View for ContextRegistry<T> {
    type V = Seq<Option<T>>;

    closed spec fn view(&self) -> Seq<Option<T>> {
        self.slots@
    }
}

impl<T> ContextRegistry<T> {
    /// A fresh, empty registry.
    pub fn new() -> (r: ContextRegistry<T>)
        ensures
            r@ == Seq::<Option<T>>::empty(),
    {
        ContextRegistry { slots: Vec::new() }
    }

    /// Store a context; the returned token identifies it from then on.
    pub fn register(&mut self, ctx: T) -> (token: usize)
        ensures
            token == old(self)@.len(),
            final(self)@ == old(self)@.push(Some(ctx)),
    {
        let token = self.slots.len();
        self.slots.push(Some(ctx));
        token
    }

    /// Whether the token still holds a live context.
    pub fn is_live(&self, token: usize) -> (r: bool)
        requires
            token < self@.len(),
        ensures
            r == (self@[token as int] is Some),
    {
        self.slots[token].is_some()
    }

    /// Take the context out, exactly once: the first call yields it, every
    /// later call with the same token yields nothing and changes nothing.
    pub fn release(&mut self, token: usize) -> (r: Option<T>)
        requires
            token < old(self)@.len(),
        ensures
            final(self)@.len() == old(self)@.len(),
            r == old(self)@[token as int],
            final(self)@ == old(self)@.update(token as int, None),
    {
        let slot = self.slots.remove(token);
        self.slots.insert(token, None);
        proof {
            assert(self@ =~= old(self)@.update(token as int, None));
        }
        slot
    }
}

} // verus!
