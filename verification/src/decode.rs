//! The delivery-callback decoder.
//!
//! The native layer hands the callback a batch whose in-memory layout depends
//! on the flags the stream was created with.  The unverified callback shim
//! only reads the native objects into plain [`RawItem`] values; everything
//! that can go wrong per record — an unknown flag bit, a numeric item
//! identifier that does not reduce to a 64-bit integer — is decided here.
//! A failing record is skipped, never fatal to the batch or the stream.

use vstd::prelude::*;

use crate::flags::StreamFlags;
use crate::stream::{Event, EventModel};
use crate::sys;
use crate::utils::FlagsExt;

verus! {

/// Which payload layout the native layer delivers, fixed by the creation
/// flags.  The decoder branches on this value, chosen once at creation,
/// never on the payload itself.
#[derive(Clone, Copy, Debug, PartialEq, Eq, Structural)]
pub enum PayloadShape {
    /// Plain C path strings: rich objects were not requested.
    PlainPaths,
    /// An array of rich string objects: rich objects without extended data.
    RichPaths,
    /// An array of key/value records holding a path and, when file-level
    /// granularity was also requested, a numeric item identifier.
    Records { with_file_id: bool },
}

/// The payload shape selected by a creation-flags word.
pub open spec fn shape_of(create_flags: u32) -> PayloadShape {
    if create_flags & sys::kFSEventStreamCreateFlagUseCFTypes
        != sys::kFSEventStreamCreateFlagUseCFTypes {
        PayloadShape::PlainPaths
    } else if create_flags & sys::kFSEventStreamCreateFlagUseExtendedData
        != sys::kFSEventStreamCreateFlagUseExtendedData {
        PayloadShape::RichPaths
    } else {
        (PayloadShape::Records {
            with_file_id: create_flags & sys::kFSEventStreamCreateFlagFileEvents
                == sys::kFSEventStreamCreateFlagFileEvents,
        })
    }
}

impl PayloadShape {
    /// Whether this shape carries a numeric item identifier per record.
    pub open spec fn spec_wants_file_id(self) -> bool {
        self == (PayloadShape::Records { with_file_id: true })
    }

    /// Select the payload shape from the creation flags, once, at creation.
    pub fn from_create_flags(create_flags: u32) -> (r: PayloadShape)
        ensures
            r == shape_of(create_flags),
    {
        if !create_flags.contains(sys::kFSEventStreamCreateFlagUseCFTypes) {
            PayloadShape::PlainPaths
        } else if !create_flags.contains(sys::kFSEventStreamCreateFlagUseExtendedData) {
            PayloadShape::RichPaths
        } else {
            PayloadShape::Records {
                with_file_id: create_flags.contains(sys::kFSEventStreamCreateFlagFileEvents),
            }
        }
    }

    /// Whether this shape carries a numeric item identifier per record.
    pub fn wants_file_id(&self) -> (r: bool)
        ensures
            r == self.spec_wants_file_id(),
    {
        match self {
            PayloadShape::Records { with_file_id: true } => true,
            _ => false,
        }
    }
}

/// Mathematical model of one undecoded record.
pub ghost struct RawItemModel {
    pub path: Seq<char>,
    pub file_id: Option<i64>,
    pub raw_flags: u32,
    pub id: u64,
}

/// One undecoded record of a delivered batch, read off the native payload as
/// plain values.
///
/// `file_id` holds the record's numeric item identifier reduced to an `i64`,
/// or `None` when the payload carries none or the native numeric object does
/// not reduce to a 64-bit integer.  It is meaningful only under a shape that
/// wants it; the decoder never reads it otherwise.
#[derive(Debug, Clone, PartialEq, Eq, Hash)]
pub struct RawItem {
    pub path: String,
    pub file_id: Option<i64>,
    pub raw_flags: u32,
    pub id: u64,
}

impl View for RawItem {
    type V = RawItemModel;

    open spec fn view(&self) -> RawItemModel {
        RawItemModel {
            path: self.path@,
            file_id: self.file_id,
            raw_flags: self.raw_flags,
            id: self.id,
        }
    }
}

/// Why one record of a batch failed to decode.  The record is dropped and
/// the failure logged; the batch and the stream continue.
#[derive(Clone, Copy, Debug, PartialEq, Eq, Structural)]
pub enum CallbackError {
    /// The native numeric item identifier could not be reduced to an `i64`.
    ToI64,
    /// The raw flag word holds a bit outside the known set.
    ParseFlags,
}

/// What decoding one record yields, over models: the decoded event, or the
/// reason the record is dropped.  The identifier is examined first, then the
/// flag word, as the delivered record is read in that order.
pub open spec fn spec_decode_item(shape: PayloadShape, item: RawItemModel) -> Result<
    EventModel,
    CallbackError,
> {
    if shape.spec_wants_file_id() && item.file_id is None {
        Err(CallbackError::ToI64)
    } else if item.raw_flags & !crate::flags::KNOWN_FLAG_MASK != 0 {
        Err(CallbackError::ParseFlags)
    } else {
        Ok(
            (EventModel {
                path: item.path,
                inode: if shape.spec_wants_file_id() {
                    item.file_id
                } else {
                    None
                },
                flag_bits: item.raw_flags,
                raw_flags: item.raw_flags,
                id: item.id,
            }),
        )
    }
}

/// The model of a decode result.
pub open spec fn decode_result_model(r: Result<Event, CallbackError>) -> Result<
    EventModel,
    CallbackError,
> {
    match r {
        Ok(e) => Ok(e@),
        Err(e) => Err(e),
    }
}

/// Decode one record of a batch under the payload shape fixed at creation.
pub fn decode_item(shape: PayloadShape, item: &RawItem) -> (r: Result<Event, CallbackError>)
    ensures
        decode_result_model(r) == spec_decode_item(shape, item@),
{
    let inode: Option<i64> = if shape.wants_file_id() {
        match item.file_id {
            Some(n) => Some(n),
            None => {
                return Err(CallbackError::ToI64);
            },
        }
    } else {
        None
    };
    let flags = match StreamFlags::from_bits(item.raw_flags) {
        Some(f) => f,
        None => {
            return Err(CallbackError::ParseFlags);
        },
    };
    Ok(
        Event {
            path: item.path.clone(),
            inode,
            flags,
            raw_flags: item.raw_flags,
            id: item.id,
        },
    )
}


/// The decoded events of a batch, in delivery order: each record that
/// decodes is kept in place, each record that fails is skipped.
pub open spec fn spec_decode_batch(shape: PayloadShape, items: Seq<RawItemModel>) -> Seq<
    EventModel,
>
    decreases items.len(),
{
    if items.len() == 0 {
        Seq::empty()
    } else {
        let rest = spec_decode_batch(shape, items.drop_first());
        match spec_decode_item(shape, items.first()) {
            Ok(e) => seq![e] + rest,
            Err(_) => rest,
        }
    }
}

/// The decode failures of a batch, in delivery order.
pub open spec fn spec_decode_errors(shape: PayloadShape, items: Seq<RawItemModel>) -> Seq<
    CallbackError,
>
    decreases items.len(),
{
    if items.len() == 0 {
        Seq::empty()
    } else {
        let rest = spec_decode_errors(shape, items.drop_first());
        match spec_decode_item(shape, items.first()) {
            Ok(_) => rest,
            Err(e) => seq![e] + rest,
        }
    }
}

/// The models of a sequence of undecoded records.
pub open spec fn items_models(s: Seq<RawItem>) -> Seq<RawItemModel> {
    s.map_values(|i: RawItem| i@)
}

/// The models of a sequence of decoded events.
pub open spec fn events_models(s: Seq<Event>) -> Seq<EventModel> {
    s.map_values(|e: Event| e@)
}

/// Decoding one more record at the end of a batch appends its outcome.
pub proof fn lemma_decode_batch_push(shape: PayloadShape, items: Seq<RawItemModel>, item: RawItemModel)
    ensures
        spec_decode_batch(shape, items.push(item)) == spec_decode_batch(shape, items) + (match spec_decode_item(shape, item) {
            Ok(e) => seq![e],
            Err(_) => Seq::<EventModel>::empty(),
        }),
        spec_decode_errors(shape, items.push(item)) == spec_decode_errors(shape, items) + (match spec_decode_item(shape, item) {
            Ok(_) => Seq::<CallbackError>::empty(),
            Err(e) => seq![e],
        }),
    decreases items.len(),
{
    broadcast use vstd::seq::Seq::add_empty_left, vstd::seq::Seq::add_empty_right;

    if items.len() == 0 {
        assert(items.push(item).drop_first() =~= items);
        assert(items.push(item).first() == item);
    } else {
        assert(items.push(item).first() == items.first());
        assert(items.push(item).drop_first() =~= items.drop_first().push(item));
        lemma_decode_batch_push(shape, items.drop_first(), item);
        match spec_decode_item(shape, items.first()) {
            Ok(e) => {
                vstd::seq_lib::lemma_concat_associative(
                    seq![e],
                    spec_decode_batch(shape, items.drop_first()),
                    match spec_decode_item(shape, item) {
                        Ok(e2) => seq![e2],
                        Err(_) => Seq::<EventModel>::empty(),
                    },
                );
            },
            Err(e) => {
                vstd::seq_lib::lemma_concat_associative(
                    seq![e],
                    spec_decode_errors(shape, items.drop_first()),
                    match spec_decode_item(shape, item) {
                        Ok(_) => Seq::<CallbackError>::empty(),
                        Err(e2) => seq![e2],
                    },
                );
            },
        }
    }
}

/// Decode a whole delivered batch under the payload shape fixed at creation.
///
/// Returns the decoded events in delivery order together with the failures,
/// one per dropped record, in order.  A failing record never aborts the
/// batch.
pub fn decode_batch(shape: PayloadShape, items: &Vec<RawItem>) -> (r: (Vec<Event>, Vec<
    CallbackError,
>))
    ensures
        events_models(r.0@) == spec_decode_batch(shape, items_models(items@)),
        r.1@ == spec_decode_errors(shape, items_models(items@)),
{
    let ghost ms = items_models(items@);
    let mut events: Vec<Event> = Vec::new();
    let mut errors: Vec<CallbackError> = Vec::new();
    assert(events_models(events@) =~= spec_decode_batch(shape, ms.take(0)));
    assert(errors@ =~= spec_decode_errors(shape, ms.take(0)));
    let n = items.len();
    for i in 0..n
        invariant
            n == items@.len(),
            ms == items_models(items@),
            events_models(events@) == spec_decode_batch(shape, ms.take(i as int)),
            errors@ == spec_decode_errors(shape, ms.take(i as int)),
    {
        proof {
            assert(ms.take(i + 1) =~= ms.take(i as int).push(ms[i as int]));
            assert(ms[i as int] == items@[i as int]@);
            lemma_decode_batch_push(shape, ms.take(i as int), ms[i as int]);
        }
        match decode_item(shape, &items[i]) {
            Ok(e) => {
                events.push(e);
                proof {
                    assert(events_models(events@) =~= events_models(events@.drop_last()).push(
                        events@.last()@,
                    ));
                }
            },
            Err(e) => {
                errors.push(e);
            },
        }
        assert(events_models(events@) == spec_decode_batch(shape, ms.take(i + 1)));
        assert(errors@ == spec_decode_errors(shape, ms.take(i + 1)));
    }
    proof {
        assert(ms.take(n as int) =~= ms);
    }
    (events, errors)
}


/// Decoding distributes over batch concatenation: delivery order is kept
/// within and across batches, and no record influences another's decoding.
pub proof fn lemma_decode_batch_add(shape: PayloadShape, a: Seq<RawItemModel>, b: Seq<RawItemModel>)
    ensures
        spec_decode_batch(shape, a + b) == spec_decode_batch(shape, a) + spec_decode_batch(
            shape,
            b,
        ),
    decreases a.len(),
{
    broadcast use vstd::seq::Seq::add_empty_left, vstd::seq::Seq::add_empty_right;

    if a.len() == 0 {
        assert(a + b =~= b);
    } else {
        assert((a + b).first() == a.first());
        assert((a + b).drop_first() =~= a.drop_first() + b);
        lemma_decode_batch_add(shape, a.drop_first(), b);
        match spec_decode_item(shape, a.first()) {
            Ok(e) => {
                vstd::seq_lib::lemma_concat_associative(
                    seq![e],
                    spec_decode_batch(shape, a.drop_first()),
                    spec_decode_batch(shape, b),
                );
            },
            Err(_) => {},
        }
    }
}

/// A record that fails to decode — for an unknown flag bit, or a missing
/// numeric identifier under a shape that wants one — is skipped by itself:
/// the batch decodes exactly as if the record were absent, and every other
/// record is delivered unchanged and in order.
pub proof fn lemma_failing_record_skipped(
    shape: PayloadShape,
    before: Seq<RawItemModel>,
    bad: RawItemModel,
    after: Seq<RawItemModel>,
)
    requires
        spec_decode_item(shape, bad) is Err,
    ensures
        spec_decode_batch(shape, before + seq![bad] + after) == spec_decode_batch(shape, before)
            + spec_decode_batch(shape, after),
{
    broadcast use vstd::seq::Seq::add_empty_left, vstd::seq::Seq::add_empty_right;

    lemma_decode_batch_add(shape, before + seq![bad], after);
    lemma_decode_batch_add(shape, before, seq![bad]);
    assert(seq![bad].first() == bad);
    assert(seq![bad].drop_first() =~= Seq::<RawItemModel>::empty());
    assert(spec_decode_batch(shape, Seq::<RawItemModel>::empty()) =~= Seq::<EventModel>::empty());
    assert(spec_decode_batch(shape, seq![bad]) =~= Seq::<EventModel>::empty());
}

/// Under a shape without per-item identifiers — directory-level watching, or
/// any shape short of extended records with file-level granularity — every
/// decoded event carries no inode, while path, flags and id are delivered
/// unchanged by [`spec_decode_item`].
pub proof fn lemma_no_file_id_means_no_inode(shape: PayloadShape, items: Seq<RawItemModel>)
    requires
        !shape.spec_wants_file_id(),
    ensures
        forall|i: int|
            0 <= i < spec_decode_batch(shape, items).len() ==> (#[trigger] spec_decode_batch(
                shape,
                items,
            )[i]).inode is None,
    decreases items.len(),
{
    if items.len() == 0 {
    } else {
        lemma_no_file_id_means_no_inode(shape, items.drop_first());
        match spec_decode_item(shape, items.first()) {
            Ok(e) => {
                assert(e.inode is None);
                let rest = spec_decode_batch(shape, items.drop_first());
                assert(forall|i: int|
                    0 <= i < (seq![e] + rest).len() ==> (#[trigger] (seq![e] + rest)[i]) == if i
                        == 0 {
                        e
                    } else {
                        rest[i - 1]
                    });
            },
            Err(_) => {},
        }
    }
}

} // verus!
