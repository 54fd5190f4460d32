use fsevent_stream::decode::{decode_batch, decode_item, CallbackError, PayloadShape, RawItem};
use fsevent_stream::sys;

fn item(path: &str, file_id: Option<i64>, raw_flags: u32, id: u64) -> RawItem {
    RawItem { path: String::from(path), file_id, raw_flags, id }
}

#[test]
fn shape_selection_follows_creation_flags() {
    assert_eq!(
        PayloadShape::from_create_flags(sys::kFSEventStreamCreateFlagNone),
        PayloadShape::PlainPaths
    );
    assert_eq!(
        PayloadShape::from_create_flags(sys::kFSEventStreamCreateFlagFileEvents),
        PayloadShape::PlainPaths
    );
    assert_eq!(
        PayloadShape::from_create_flags(sys::kFSEventStreamCreateFlagUseCFTypes),
        PayloadShape::RichPaths
    );
    assert_eq!(
        PayloadShape::from_create_flags(
            sys::kFSEventStreamCreateFlagUseCFTypes | sys::kFSEventStreamCreateFlagUseExtendedData
        ),
        PayloadShape::Records { with_file_id: false }
    );
    assert_eq!(
        PayloadShape::from_create_flags(
            sys::kFSEventStreamCreateFlagUseCFTypes
                | sys::kFSEventStreamCreateFlagUseExtendedData
                | sys::kFSEventStreamCreateFlagFileEvents
        ),
        PayloadShape::Records { with_file_id: true }
    );
}

#[test]
fn decode_item_with_extended_metadata_keeps_inode() {
    let shape = PayloadShape::Records { with_file_id: true };
    let raw = sys::kFSEventStreamEventFlagItemCreated | sys::kFSEventStreamEventFlagItemIsFile;
    let event = decode_item(shape, &item("/d/f", Some(42), raw, 9)).expect("record to decode");
    assert_eq!(event.path, "/d/f");
    assert_eq!(event.inode, Some(42));
    assert_eq!(event.raw_flags, raw);
    assert_eq!(event.flags.bits(), raw);
    assert_eq!(event.id, 9);
}

#[test]
fn decode_item_without_extended_metadata_has_no_inode() {
    // Directory-level (non-extended) shapes still carry correct path and
    // flags, but never an inode, even when the payload offers a number.
    for shape in [
        PayloadShape::PlainPaths,
        PayloadShape::RichPaths,
        PayloadShape::Records { with_file_id: false },
    ] {
        let raw = sys::kFSEventStreamEventFlagItemModified;
        let event = decode_item(shape, &item("/d/f", Some(7), raw, 3)).expect("record to decode");
        assert_eq!(event.path, "/d/f");
        assert_eq!(event.inode, None);
        assert_eq!(event.flags.bits(), raw);
        assert_eq!(event.id, 3);
    }
}

#[test]
fn decode_item_rejects_unknown_flag_bit() {
    let shape = PayloadShape::PlainPaths;
    let r = decode_item(shape, &item("/d/f", None, 0x0080_0000, 1));
    assert_eq!(r, Err(CallbackError::ParseFlags));
}

#[test]
fn decode_item_rejects_missing_file_id() {
    let shape = PayloadShape::Records { with_file_id: true };
    let r = decode_item(shape, &item("/d/f", None, sys::kFSEventStreamEventFlagItemCreated, 1));
    assert_eq!(r, Err(CallbackError::ToI64));
}

#[test]
fn decode_item_reports_file_id_failure_before_flags() {
    // The record is read identifier first: when both are bad, the numeric
    // conversion failure is the one reported.
    let shape = PayloadShape::Records { with_file_id: true };
    let r = decode_item(shape, &item("/d/f", None, 0x0080_0000, 1));
    assert_eq!(r, Err(CallbackError::ToI64));
}

#[test]
fn decode_batch_skips_only_failing_record() {
    // A raw pattern with an unrecognized bit drops that single record; the
    // rest of the batch is delivered unchanged and in order.
    let shape = PayloadShape::PlainPaths;
    let items = vec![
        item("/a", None, sys::kFSEventStreamEventFlagItemCreated, 1),
        item("/bad", None, 0x4000_0000, 2),
        item("/c", None, sys::kFSEventStreamEventFlagItemRemoved, 3),
    ];
    let (events, errors) = decode_batch(shape, &items);
    assert_eq!(events.len(), 2);
    assert_eq!(events[0].path, "/a");
    assert_eq!(events[0].id, 1);
    assert_eq!(events[1].path, "/c");
    assert_eq!(events[1].id, 3);
    assert_eq!(errors, vec![CallbackError::ParseFlags]);
}

#[test]
fn decode_batch_empty() {
    let (events, errors) = decode_batch(PayloadShape::RichPaths, &vec![]);
    assert!(events.is_empty());
    assert!(errors.is_empty());
}

#[test]
fn decode_batch_keeps_delivery_order() {
    let shape = PayloadShape::Records { with_file_id: true };
    let items = vec![
        item("/p/1", Some(10), sys::kFSEventStreamEventFlagItemCreated, 100),
        item("/p/2", Some(11), sys::kFSEventStreamEventFlagItemModified, 101),
        item("/p/3", Some(12), sys::kFSEventStreamEventFlagItemRemoved, 102),
    ];
    let (events, errors) = decode_batch(shape, &items);
    assert!(errors.is_empty());
    let ids: Vec<u64> = events.iter().map(|e| e.id).collect();
    assert_eq!(ids, vec![100, 101, 102]);
    let inodes: Vec<Option<i64>> = events.iter().map(|e| e.inode).collect();
    assert_eq!(inodes, vec![Some(10), Some(11), Some(12)]);
}
