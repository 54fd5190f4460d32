use fsevent_stream::channel::{EventChannel, PollOutcome, SendOutcome};
use fsevent_stream::decode::{PayloadShape, RawItem};
use fsevent_stream::flags::StreamFlags;
use fsevent_stream::lifecycle::{abort_step, AbortAction, AbortEvent, AbortPhase};
use fsevent_stream::low_level::{deliver_raw_events, raw_event_stream, RawEvent};
use fsevent_stream::observer::{
    kCFRunLoopBeforeTimers, kCFRunLoopBeforeWaiting, ObserverContextInfo,
};
use fsevent_stream::raw::{worker_startup, worker_teardown, ContextRegistry, CreateError};
use fsevent_stream::stream::{create_event_stream, deliver_batch, Event};
use fsevent_stream::sys;

fn watch_paths(paths: &[&str]) -> Vec<String> {
    paths.iter().map(|p| String::from(*p)).collect()
}

fn event(path: &str, inode: Option<i64>, raw: u32, id: u64) -> Event {
    Event {
        path: String::from(path),
        inode,
        flags: StreamFlags::from_bits(raw).unwrap(),
        raw_flags: raw,
        id,
    }
}

fn record(path: &str, file_id: Option<i64>, raw_flags: u32, id: u64) -> RawItem {
    RawItem { path: String::from(path), file_id, raw_flags, id }
}

#[test]
fn channel_is_fifo() {
    let mut chan: EventChannel<u64> = EventChannel::new(8);
    assert_eq!(chan.try_send(1), SendOutcome::Sent);
    assert_eq!(chan.try_send(2), SendOutcome::Sent);
    assert_eq!(chan.try_send(3), SendOutcome::Sent);
    assert_eq!(chan.poll_next(), PollOutcome::Ready(1));
    assert_eq!(chan.poll_next(), PollOutcome::Ready(2));
    assert_eq!(chan.poll_next(), PollOutcome::Ready(3));
    assert_eq!(chan.poll_next(), PollOutcome::Pending);
}

#[test]
fn channel_drops_when_full() {
    let mut chan: EventChannel<u64> = EventChannel::new(2);
    assert_eq!(chan.try_send(1), SendOutcome::Sent);
    assert_eq!(chan.try_send(2), SendOutcome::Sent);
    assert_eq!(chan.try_send(3), SendOutcome::Full);
    assert_eq!(chan.len(), 2);
    assert_eq!(chan.poll_next(), PollOutcome::Ready(1));
    assert_eq!(chan.try_send(4), SendOutcome::Sent);
    assert_eq!(chan.poll_next(), PollOutcome::Ready(2));
    assert_eq!(chan.poll_next(), PollOutcome::Ready(4));
}

#[test]
fn closed_channel_drains_then_ends() {
    let mut chan: EventChannel<u64> = EventChannel::new(4);
    chan.try_send(1);
    chan.try_send(2);
    chan.close();
    assert_eq!(chan.try_send(3), SendOutcome::Closed);
    assert_eq!(chan.poll_next(), PollOutcome::Ready(1));
    assert_eq!(chan.poll_next(), PollOutcome::Ready(2));
    assert_eq!(chan.poll_next(), PollOutcome::End);
    assert_eq!(chan.poll_next(), PollOutcome::End);
}

#[test]
fn cancelled_channel_ends_at_once() {
    let mut chan: EventChannel<u64> = EventChannel::new(4);
    chan.try_send(1);
    chan.cancel();
    assert_eq!(chan.poll_next(), PollOutcome::End);
    assert_eq!(chan.poll_next(), PollOutcome::End);
}

#[test]
fn create_succeeds_on_every_legal_flag_combination() {
    // Every combination of the seven creation flags except those pairing
    // extended data with missing rich objects must be accepted.
    let paths = watch_paths(&["/watch/root"]);
    for flags in 0u32..0x80 {
        let illegal = (flags & sys::kFSEventStreamCreateFlagUseExtendedData != 0)
            && (flags & sys::kFSEventStreamCreateFlagUseCFTypes == 0);
        let r = create_event_stream(&paths, sys::kFSEventStreamEventIdSinceNow, 0, flags);
        if illegal {
            assert_eq!(r.err(), Some(CreateError::IllegalFlagCombination));
        } else {
            assert!(r.is_ok());
        }
    }
}

#[test]
fn create_rejects_empty_watch_set() {
    let r = create_event_stream(&Vec::new(), 0, 0, 0);
    assert_eq!(r.err(), Some(CreateError::NoWatchRoot));
}

#[test]
fn create_rejects_invalid_path() {
    let r = create_event_stream(&watch_paths(&["/ok", ""]), 0, 0, 0);
    assert_eq!(r.err(), Some(CreateError::InvalidPath));
    let r = create_event_stream(&watch_paths(&["/with\u{0}nul"]), 0, 0, 0);
    assert_eq!(r.err(), Some(CreateError::InvalidPath));
}

#[test]
fn abort_is_idempotent() {
    let paths = watch_paths(&["/w"]);
    let (_native, mut stream, mut handler) =
        create_event_stream(&paths, 0, 0, sys::kFSEventStreamCreateFlagNone).unwrap();
    stream.try_send_batch(vec![event("/w/a", None, 0x100, 1)]);
    handler.abort(&mut stream);
    let first = stream.poll_next();
    match first {
        PollOutcome::Ready(batch) => assert_eq!(batch.len(), 1),
        other => panic!("expected the queued batch, got {:?}", other),
    }
    assert_eq!(stream.poll_next(), PollOutcome::End);
    // A second abort changes nothing: still end-of-stream.
    handler.abort(&mut stream);
    assert_eq!(stream.poll_next(), PollOutcome::End);
}

#[test]
fn raw_abort_cancels_outright() {
    let paths = watch_paths(&["/w"]);
    let (_native, mut stream, mut handler) =
        raw_event_stream(&paths, 0, 0, sys::kFSEventStreamCreateFlagNone).unwrap();
    stream.try_send(RawEvent {
        path: String::from("/w/a"),
        inode: None,
        flags: StreamFlags::empty(),
        raw_flags: 0,
        id: 1,
    });
    handler.abort(&mut stream);
    // After abort the stream yields no further items, queued or not.
    assert!(matches!(stream.poll_next(), PollOutcome::End));
    handler.abort(&mut stream);
    assert!(matches!(stream.poll_next(), PollOutcome::End));
}

#[test]
fn deliver_batch_then_poll() {
    let paths = watch_paths(&["/d"]);
    let (_native, mut stream, mut handler) = create_event_stream(
        &paths,
        0,
        0,
        sys::kFSEventStreamCreateFlagUseCFTypes | sys::kFSEventStreamCreateFlagUseExtendedData
            | sys::kFSEventStreamCreateFlagFileEvents,
    )
    .unwrap();
    let shape = PayloadShape::Records { with_file_id: true };
    let items = vec![
        record("/d/f", Some(42), 0x100 | 0x10000, 1),
        record("/d/bad", Some(43), 0x0080_0000, 2),
    ];
    let (outcome, errors) = deliver_batch(shape, &items, &mut stream);
    assert_eq!(outcome, SendOutcome::Sent);
    assert_eq!(errors.len(), 1);
    match stream.poll_next() {
        PollOutcome::Ready(batch) => {
            assert_eq!(batch.len(), 1);
            assert_eq!(batch[0].path, "/d/f");
            assert_eq!(batch[0].inode, Some(42));
        },
        other => panic!("expected a batch, got {:?}", other),
    }
    handler.abort(&mut stream);
}

#[test]
fn flatten_preserves_order_across_batches() {
    let paths = watch_paths(&["/d"]);
    let (_native, mut stream, mut handler) =
        create_event_stream(&paths, 0, 0, sys::kFSEventStreamCreateFlagNone).unwrap();
    stream.try_send_batch(vec![event("/d/a", None, 0x100, 1), event("/d/b", None, 0x200, 2)]);
    stream.try_send_batch(vec![]);
    stream.try_send_batch(vec![event("/d/c", None, 0x1000, 3)]);
    handler.abort(&mut stream);
    let mut flat = stream.into_flatten();
    let mut ids = Vec::new();
    loop {
        match flat.poll_next() {
            PollOutcome::Ready(e) => ids.push(e.id),
            PollOutcome::End => break,
            PollOutcome::Pending => panic!("closed stream must not pend"),
        }
    }
    assert_eq!(ids, vec![1, 2, 3]);
}

#[test]
fn round_trip_create_then_remove() {
    // Watching a parent directory while a file is created and then removed
    // delivers, in order, a created+is-file record and a removed+is-file
    // record, both with the file's path and inode; a leading
    // directory-metadata record is tolerated.
    let paths = watch_paths(&["/parent"]);
    let flags = sys::kFSEventStreamCreateFlagUseCFTypes
        | sys::kFSEventStreamCreateFlagUseExtendedData
        | sys::kFSEventStreamCreateFlagFileEvents
        | sys::kFSEventStreamCreateFlagNoDefer;
    let (_native, mut stream, mut handler) = create_event_stream(&paths, 0, 0, flags).unwrap();
    let shape = PayloadShape::from_create_flags(flags);
    let created = sys::kFSEventStreamEventFlagItemCreated | sys::kFSEventStreamEventFlagItemIsFile;
    let removed = sys::kFSEventStreamEventFlagItemRemoved | sys::kFSEventStreamEventFlagItemIsFile;
    let dir_meta =
        sys::kFSEventStreamEventFlagItemInodeMetaMod | sys::kFSEventStreamEventFlagItemIsDir;
    let inode = 424242;
    let items = vec![
        record("/parent", Some(7), dir_meta, 10),
        record("/parent/test_file", Some(inode), created, 11),
        record("/parent/test_file", Some(inode), removed, 12),
    ];
    let (outcome, errors) = deliver_batch(shape, &items, &mut stream);
    assert_eq!(outcome, SendOutcome::Sent);
    assert!(errors.is_empty());
    handler.abort(&mut stream);
    let mut flat = stream.into_flatten();
    let mut events = Vec::new();
    loop {
        match flat.poll_next() {
            PollOutcome::Ready(e) => events.push(e),
            PollOutcome::End => break,
            PollOutcome::Pending => panic!("closed stream must not pend"),
        }
    }
    assert!(events.len() == 2 || events.len() == 3);
    let created_flags = StreamFlags::from_bits(created).unwrap();
    let event_fst = &events[events.len() - 2];
    assert_eq!(event_fst.path, "/parent/test_file");
    assert_eq!(event_fst.inode, Some(inode));
    assert!(event_fst.flags.contains(created_flags));
    let removed_flags = StreamFlags::from_bits(removed).unwrap();
    let event_snd = events.last().unwrap();
    assert_eq!(event_snd.path, "/parent/test_file");
    assert_eq!(event_snd.inode, Some(inode));
    assert!(event_snd.flags.contains(removed_flags));
}

#[test]
fn directory_level_delivery_has_no_inode() {
    // With only directory-level (non-extended) creation flags, delivered
    // events carry correct paths and flags but never an inode.
    let paths = watch_paths(&["/parent"]);
    let flags = sys::kFSEventStreamCreateFlagNone;
    let (_native, mut stream, mut handler) = create_event_stream(&paths, 0, 0, flags).unwrap();
    let shape = PayloadShape::from_create_flags(flags);
    let items = vec![
        record("/parent", Some(7), sys::kFSEventStreamEventFlagItemModified, 5),
        record("/parent/x", Some(8), sys::kFSEventStreamEventFlagItemCreated, 6),
    ];
    let (outcome, errors) = deliver_batch(shape, &items, &mut stream);
    assert_eq!(outcome, SendOutcome::Sent);
    assert!(errors.is_empty());
    handler.abort(&mut stream);
    match stream.poll_next() {
        PollOutcome::Ready(batch) => {
            assert_eq!(batch.len(), 2);
            assert_eq!(batch[0].path, "/parent");
            assert_eq!(batch[0].inode, None);
            assert_eq!(batch[1].path, "/parent/x");
            assert_eq!(batch[1].inode, None);
        },
        other => panic!("expected a batch, got {:?}", other),
    }
}

#[test]
fn independent_watches_do_not_interact() {
    // Two watches on disjoint roots with different flag combinations each
    // observe only their own events, and each aborts independently.
    let flags_a = sys::kFSEventStreamCreateFlagNone;
    let flags_b = sys::kFSEventStreamCreateFlagUseCFTypes
        | sys::kFSEventStreamCreateFlagUseExtendedData
        | sys::kFSEventStreamCreateFlagFileEvents;
    let (_na, mut stream_a, mut handler_a) =
        create_event_stream(&watch_paths(&["/a"]), 0, 0, flags_a).unwrap();
    let (_nb, mut stream_b, mut handler_b) =
        create_event_stream(&watch_paths(&["/b"]), 0, 0, flags_b).unwrap();
    let items_a = vec![record("/a/f", None, 0x100, 1)];
    let items_b = vec![record("/b/g", Some(9), 0x200, 2)];
    deliver_batch(PayloadShape::from_create_flags(flags_a), &items_a, &mut stream_a);
    deliver_batch(PayloadShape::from_create_flags(flags_b), &items_b, &mut stream_b);
    handler_a.abort(&mut stream_a);
    // Aborting one watch leaves the other delivering.
    match stream_b.poll_next() {
        PollOutcome::Ready(batch) => {
            assert_eq!(batch[0].path, "/b/g");
            assert_eq!(batch[0].inode, Some(9));
        },
        other => panic!("expected a batch, got {:?}", other),
    }
    match stream_a.poll_next() {
        PollOutcome::Ready(batch) => assert_eq!(batch[0].path, "/a/f"),
        other => panic!("expected a batch, got {:?}", other),
    }
    assert_eq!(stream_a.poll_next(), PollOutcome::End);
    assert_eq!(stream_b.poll_next(), PollOutcome::Pending);
    handler_b.abort(&mut stream_b);
    assert_eq!(stream_b.poll_next(), PollOutcome::End);
}

#[test]
fn deliver_raw_events_drops_beyond_capacity_in_order() {
    let paths = watch_paths(&["/w"]);
    let (_native, mut stream, mut handler) =
        raw_event_stream(&paths, 0, 0, sys::kFSEventStreamCreateFlagNone).unwrap();
    let shape = PayloadShape::PlainPaths;
    let mut items = Vec::new();
    for i in 0..1030u64 {
        items.push(record("/w/f", None, 0x100, i));
    }
    let (errors, dropped) = deliver_raw_events(shape, &items, &mut stream);
    assert!(errors.is_empty());
    assert_eq!(dropped, 6);
    // The mailbox holds 1024; the overflow was dropped, order kept.
    let mut count = 0u64;
    loop {
        match stream.poll_next() {
            PollOutcome::Ready(e) => {
                assert_eq!(e.id, count);
                count += 1;
            },
            _ => break,
        }
    }
    assert_eq!(count, 1024);
    handler.abort(&mut stream);
}

#[test]
fn abort_protocol_happy_path() {
    let (p, a) = abort_step(AbortPhase::Installing, AbortEvent::ObserverInstalled);
    assert_eq!((p, a), (AbortPhase::Probing, AbortAction::QueryWaiting));
    // The loop is busy: the protocol blocks on the one-shot signal.
    let (p, a) = abort_step(p, AbortEvent::LoopWaiting(false));
    assert_eq!((p, a), (AbortPhase::Blocked, AbortAction::AwaitSignal));
    let (p, a) = abort_step(p, AbortEvent::SignalReceived);
    assert_eq!((p, a), (AbortPhase::Quiescent, AbortAction::RemoveObserverAndStop));
    let (p, a) = abort_step(p, AbortEvent::LoopStopped);
    assert_eq!((p, a), (AbortPhase::Stopped, AbortAction::JoinWorker));
    let (p, a) = abort_step(p, AbortEvent::WorkerJoined);
    assert_eq!((p, a), (AbortPhase::Joined, AbortAction::CancelStream));
    let (p, a) = abort_step(p, AbortEvent::StreamCancelled);
    assert_eq!((p, a), (AbortPhase::Finished, AbortAction::Done));
}

#[test]
fn abort_protocol_skips_wait_when_loop_idle() {
    let (p, a) = abort_step(AbortPhase::Probing, AbortEvent::LoopWaiting(true));
    assert_eq!((p, a), (AbortPhase::Quiescent, AbortAction::RemoveObserverAndStop));
}

#[test]
fn abort_protocol_ignores_mismatched_events() {
    let (p, a) = abort_step(AbortPhase::Installing, AbortEvent::WorkerJoined);
    assert_eq!((p, a), (AbortPhase::Installing, AbortAction::InstallObserver));
    let (p, a) = abort_step(AbortPhase::Finished, AbortEvent::SignalReceived);
    assert_eq!((p, a), (AbortPhase::Finished, AbortAction::Done));
}

#[test]
fn observer_forwards_only_interesting_activities() {
    let ctx = ObserverContextInfo::new(kCFRunLoopBeforeWaiting);
    assert!(ctx.should_forward(kCFRunLoopBeforeWaiting));
    assert!(!ctx.should_forward(kCFRunLoopBeforeTimers));
    assert!(!ctx.should_forward(kCFRunLoopBeforeWaiting | kCFRunLoopBeforeTimers));
}

#[test]
fn native_stream_model_lifecycle() {
    let paths = watch_paths(&["/root"]);
    let (mut native, _stream, _handler) =
        create_event_stream(&paths, sys::kFSEventStreamEventIdSinceNow, 250, 0).unwrap();
    worker_startup(&mut native);
    worker_teardown(&mut native);
    native.release();
}

#[test]
fn context_registry_releases_exactly_once() {
    let mut registry: ContextRegistry<u32> = ContextRegistry::new();
    let a = registry.register(10);
    let b = registry.register(20);
    assert!(registry.is_live(a));
    assert_eq!(registry.release(a), Some(10));
    assert!(!registry.is_live(a));
    assert_eq!(registry.release(a), None);
    assert_eq!(registry.release(b), Some(20));
    assert_eq!(registry.release(b), None);
}
