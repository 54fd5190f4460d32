use fsevent_stream::flags::StreamFlags;
use fsevent_stream::low_level::RawEvent;
use fsevent_stream::render::{i64_to_dec, u32_to_hex, u64_to_dec};
use fsevent_stream::stream::Event;
use fsevent_stream::sys;

#[test]
fn from_bits_accepts_known_pattern() {
    let bits = sys::kFSEventStreamEventFlagItemCreated | sys::kFSEventStreamEventFlagItemIsFile;
    let flags = StreamFlags::from_bits(bits).expect("known bits to be accepted");
    assert_eq!(flags.bits(), bits);
}

#[test]
fn from_bits_rejects_unknown_bit() {
    assert!(StreamFlags::from_bits(0x0080_0000).is_none());
    assert!(StreamFlags::from_bits(0x8000_0000).is_none());
    assert!(StreamFlags::from_bits(sys::kFSEventStreamEventFlagItemCreated | 0x0080_0000).is_none());
}

#[test]
fn from_bits_accepts_empty_and_full_mask() {
    let empty = StreamFlags::from_bits(0).expect("empty set to be accepted");
    assert!(empty.is_empty());
    let full = StreamFlags::from_bits(0x007F_FFFF).expect("full known mask to be accepted");
    assert_eq!(full.bits(), 0x007F_FFFF);
}

#[test]
fn contains_and_union() {
    let created = StreamFlags::from_bits(sys::kFSEventStreamEventFlagItemCreated).unwrap();
    let is_file = StreamFlags::from_bits(sys::kFSEventStreamEventFlagItemIsFile).unwrap();
    let both = created.union(is_file);
    assert!(both.contains(created));
    assert!(both.contains(is_file));
    assert!(!created.contains(is_file));
    assert_eq!(
        both.bits(),
        sys::kFSEventStreamEventFlagItemCreated | sys::kFSEventStreamEventFlagItemIsFile
    );
}

#[test]
fn render_empty_is_empty() {
    assert_eq!(StreamFlags::empty().render(), "");
}

#[test]
fn render_single_flag() {
    let f = StreamFlags::from_bits(sys::kFSEventStreamEventFlagMustScanSubDirs).unwrap();
    assert_eq!(f.render(), "MUST_SCAN_SUBDIRS ");
}

#[test]
fn render_orders_by_fixed_flag_order() {
    let bits = sys::kFSEventStreamEventFlagItemIsFile | sys::kFSEventStreamEventFlagItemCreated;
    let f = StreamFlags::from_bits(bits).unwrap();
    assert_eq!(f.render(), "ITEM_CREATED IS_FILE ");
}

#[test]
fn render_last_hardlink_before_hardlink() {
    let bits =
        sys::kFSEventStreamEventFlagItemIsHardlink | sys::kFSEventStreamEventFlagItemIsLastHardlink;
    let f = StreamFlags::from_bits(bits).unwrap();
    assert_eq!(f.render(), "IS_LAST_HARDLINK IS_HARDLINK ");
}

#[test]
fn decimal_rendering() {
    assert_eq!(u64_to_dec(0), "0");
    assert_eq!(u64_to_dec(7), "7");
    assert_eq!(u64_to_dec(1234567890123), "1234567890123");
    assert_eq!(u64_to_dec(u64::MAX), "18446744073709551615");
}

#[test]
fn signed_decimal_rendering() {
    assert_eq!(i64_to_dec(0), "0");
    assert_eq!(i64_to_dec(-1), "-1");
    assert_eq!(i64_to_dec(42), "42");
    assert_eq!(i64_to_dec(i64::MIN), "-9223372036854775808");
}

#[test]
fn hex_rendering() {
    assert_eq!(u32_to_hex(0), "0");
    assert_eq!(u32_to_hex(255), "ff");
    assert_eq!(u32_to_hex(0x007F_FFFF), "7fffff");
    assert_eq!(u32_to_hex(0x10100), "10100");
}

#[test]
fn event_render_line() {
    let bits = sys::kFSEventStreamEventFlagItemCreated | sys::kFSEventStreamEventFlagItemIsFile;
    let event = Event {
        path: String::from("/tmp/x"),
        inode: Some(42),
        flags: StreamFlags::from_bits(bits).unwrap(),
        raw_flags: bits,
        id: 5,
    };
    assert_eq!(
        event.render(),
        "[5] path: \"/tmp/x\"(42), flags: ITEM_CREATED IS_FILE  (10100)"
    );
}

#[test]
fn raw_event_render_line_without_inode() {
    let bits = sys::kFSEventStreamEventFlagItemRemoved;
    let event = RawEvent {
        path: String::from("/watched/gone"),
        inode: None,
        flags: StreamFlags::from_bits(bits).unwrap(),
        raw_flags: bits,
        id: 77,
    };
    assert_eq!(
        event.render(),
        "[77] path: \"/watched/gone\"(-1), flags: ITEM_REMOVED  (200)"
    );
}
