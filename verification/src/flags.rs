//! The event-flag bitset attached to each delivered change record.

use vstd::prelude::*;
use vstd::seq_lib::lemma_concat_associative;
use vstd::string::StringExecFns;

use crate::sys;

verus! {

/// Every flag bit the native subsystem is known to deliver.
pub const KNOWN_FLAG_MASK: u32 = 0x007F_FFFF;

/// Known event flags of one change record.
///
/// A value is a union of zero or more independent flag bits; the empty set is
/// the defined "no flags" state, not an error.
#[derive(Clone, Copy, Debug, PartialEq, Eq, Hash, Structural)]
pub struct StreamFlags {
    bits: u32,
}

impl StreamFlags {
    /// The raw bit pattern held by this set.
    pub closed spec fn spec_bits(self) -> u32 {
        self.bits
    }

    /// Every bit of the set is one the native subsystem defines.
    pub open spec fn wf(self) -> bool {
        self.spec_bits() & !KNOWN_FLAG_MASK == 0
    }

    /// What containment means: every bit of `other` is set in `self`.
    pub open spec fn spec_contains(self, other: StreamFlags) -> bool {
        self.spec_bits() & other.spec_bits() == other.spec_bits()
    }

    /// The empty flag set.
    pub fn empty() -> (r: StreamFlags)
        ensures
            r.spec_bits() == 0u32,
            r.wf(),
    {
        proof {
            assert(0u32 & !KNOWN_FLAG_MASK == 0) by (bit_vector);
        }
        StreamFlags { bits: 0 }
    }

    /// Accept a raw bit pattern, rejecting it if it holds a bit outside the
    /// known set.  The caller decides whether an unknown bit is fatal.
    pub fn from_bits(bits: u32) -> (r: Option<StreamFlags>)
        ensures
            r is Some <==> bits & !KNOWN_FLAG_MASK == 0,
            r matches Some(f) ==> f.spec_bits() == bits && f.wf(),
    {
        if bits & !KNOWN_FLAG_MASK == 0 {
            Some(StreamFlags { bits })
        } else {
            None
        }
    }

    /// The raw bit pattern held by this set.
    pub fn bits(&self) -> (r: u32)
        ensures
            r == self.spec_bits(),
    {
        self.bits
    }

    /// True when no bit is set.
    pub fn is_empty(&self) -> (r: bool)
        ensures
            r == (self.spec_bits() == 0u32),
    {
        self.bits == 0
    }

    /// True exactly when every bit of `other` is set in `self`.
    pub fn contains(&self, other: StreamFlags) -> (r: bool)
        ensures
            r == self.spec_contains(other),
    {
        self.bits & other.bits == other.bits
    }

    /// The union of the two sets.
    pub fn union(self, other: StreamFlags) -> (r: StreamFlags)
        ensures
            r.spec_bits() == self.spec_bits() | other.spec_bits(),
            self.wf() && other.wf() ==> r.wf(),
    {
        proof {
            let a = self.bits;
            let b = other.bits;
            assert(a & !KNOWN_FLAG_MASK == 0 && b & !KNOWN_FLAG_MASK == 0 ==> (a | b)
                & !KNOWN_FLAG_MASK == 0) by (bit_vector);
        }
        StreamFlags { bits: self.bits | other.bits }
    }
}



/// One conditional segment of the textual rendering: the flag's name when the
/// bit is present, nothing otherwise.
pub open spec fn seg(bits: u32, mask: u32, name: Seq<char>) -> Seq<char> {
    if bits & mask == mask {
        name
    } else {
        Seq::empty()
    }
}

/// The rendering of the stream-level flags, in their fixed order.
pub open spec fn spec_render_stream(bits: u32) -> Seq<char> {
    seg(bits, sys::kFSEventStreamEventFlagMustScanSubDirs, "MUST_SCAN_SUBDIRS "@)
        + seg(bits, sys::kFSEventStreamEventFlagUserDropped, "USER_DROPPED "@)
        + seg(bits, sys::kFSEventStreamEventFlagKernelDropped, "KERNEL_DROPPED "@)
        + seg(bits, sys::kFSEventStreamEventFlagEventIdsWrapped, "IDS_WRAPPED "@)
        + seg(bits, sys::kFSEventStreamEventFlagHistoryDone, "HISTORY_DONE "@)
        + seg(bits, sys::kFSEventStreamEventFlagRootChanged, "ROOT_CHANGED "@)
        + seg(bits, sys::kFSEventStreamEventFlagMount, "MOUNT "@)
        + seg(bits, sys::kFSEventStreamEventFlagUnmount, "UNMOUNT "@)
}

/// The rendering of the per-item change flags, in their fixed order.
pub open spec fn spec_render_item_change(bits: u32) -> Seq<char> {
    seg(bits, sys::kFSEventStreamEventFlagItemCreated, "ITEM_CREATED "@)
        + seg(bits, sys::kFSEventStreamEventFlagItemRemoved, "ITEM_REMOVED "@)
        + seg(bits, sys::kFSEventStreamEventFlagItemInodeMetaMod, "INODE_META_MOD "@)
        + seg(bits, sys::kFSEventStreamEventFlagItemRenamed, "ITEM_RENAMED "@)
        + seg(bits, sys::kFSEventStreamEventFlagItemModified, "ITEM_MODIFIED "@)
        + seg(bits, sys::kFSEventStreamEventFlagItemFinderInfoMod, "FINDER_INFO_MOD "@)
        + seg(bits, sys::kFSEventStreamEventFlagItemChangeOwner, "ITEM_CHANGE_OWNER "@)
        + seg(bits, sys::kFSEventStreamEventFlagItemXattrMod, "ITEM_XATTR_MOD "@)
}

/// The rendering of the per-item kind and origin flags, in their fixed order.
pub open spec fn spec_render_item_kind(bits: u32) -> Seq<char> {
    seg(bits, sys::kFSEventStreamEventFlagItemIsFile, "IS_FILE "@)
        + seg(bits, sys::kFSEventStreamEventFlagItemIsDir, "IS_DIR "@)
        + seg(bits, sys::kFSEventStreamEventFlagItemIsSymlink, "IS_SYMLINK "@)
        + seg(bits, sys::kFSEventStreamEventFlagOwnEvent, "OWN_EVENT "@)
        + seg(bits, sys::kFSEventStreamEventFlagItemIsLastHardlink, "IS_LAST_HARDLINK "@)
        + seg(bits, sys::kFSEventStreamEventFlagItemIsHardlink, "IS_HARDLINK "@)
        + seg(bits, sys::kFSEventStreamEventFlagItemCloned, "ITEM_CLONED "@)
}

/// The deterministic, flag-name-ordered textual rendering of a flag word:
/// the name of each present flag followed by one space, in a fixed order.
pub open spec fn spec_render(bits: u32) -> Seq<char> {
    spec_render_stream(bits) + spec_render_item_change(bits) + spec_render_item_kind(bits)
}

fn render_stream(s: &mut String, bits: u32)
    ensures
        final(s)@ == old(s)@ + spec_render_stream(bits),
{
    broadcast use vstd::seq::Seq::add_empty_left, vstd::seq::Seq::add_empty_right;

    let ghost mut t: Seq<char> = Seq::empty();
    assert(s@ == old(s)@ + t);
    if bits & sys::kFSEventStreamEventFlagMustScanSubDirs == sys::kFSEventStreamEventFlagMustScanSubDirs {
        proof {
            lemma_concat_associative(old(s)@, t, "MUST_SCAN_SUBDIRS "@);
        }
        s.append("MUST_SCAN_SUBDIRS ");
    }
    proof {
        t = t + seg(bits, sys::kFSEventStreamEventFlagMustScanSubDirs, "MUST_SCAN_SUBDIRS "@);
    }
    assert(s@ == old(s)@ + t);
    if bits & sys::kFSEventStreamEventFlagUserDropped == sys::kFSEventStreamEventFlagUserDropped {
        proof {
            lemma_concat_associative(old(s)@, t, "USER_DROPPED "@);
        }
        s.append("USER_DROPPED ");
    }
    proof {
        t = t + seg(bits, sys::kFSEventStreamEventFlagUserDropped, "USER_DROPPED "@);
    }
    assert(s@ == old(s)@ + t);
    if bits & sys::kFSEventStreamEventFlagKernelDropped == sys::kFSEventStreamEventFlagKernelDropped {
        proof {
            lemma_concat_associative(old(s)@, t, "KERNEL_DROPPED "@);
        }
        s.append("KERNEL_DROPPED ");
    }
    proof {
        t = t + seg(bits, sys::kFSEventStreamEventFlagKernelDropped, "KERNEL_DROPPED "@);
    }
    assert(s@ == old(s)@ + t);
    if bits & sys::kFSEventStreamEventFlagEventIdsWrapped == sys::kFSEventStreamEventFlagEventIdsWrapped {
        proof {
            lemma_concat_associative(old(s)@, t, "IDS_WRAPPED "@);
        }
        s.append("IDS_WRAPPED ");
    }
    proof {
        t = t + seg(bits, sys::kFSEventStreamEventFlagEventIdsWrapped, "IDS_WRAPPED "@);
    }
    assert(s@ == old(s)@ + t);
    if bits & sys::kFSEventStreamEventFlagHistoryDone == sys::kFSEventStreamEventFlagHistoryDone {
        proof {
            lemma_concat_associative(old(s)@, t, "HISTORY_DONE "@);
        }
        s.append("HISTORY_DONE ");
    }
    proof {
        t = t + seg(bits, sys::kFSEventStreamEventFlagHistoryDone, "HISTORY_DONE "@);
    }
    assert(s@ == old(s)@ + t);
    if bits & sys::kFSEventStreamEventFlagRootChanged == sys::kFSEventStreamEventFlagRootChanged {
        proof {
            lemma_concat_associative(old(s)@, t, "ROOT_CHANGED "@);
        }
        s.append("ROOT_CHANGED ");
    }
    proof {
        t = t + seg(bits, sys::kFSEventStreamEventFlagRootChanged, "ROOT_CHANGED "@);
    }
    assert(s@ == old(s)@ + t);
    if bits & sys::kFSEventStreamEventFlagMount == sys::kFSEventStreamEventFlagMount {
        proof {
            lemma_concat_associative(old(s)@, t, "MOUNT "@);
        }
        s.append("MOUNT ");
    }
    proof {
        t = t + seg(bits, sys::kFSEventStreamEventFlagMount, "MOUNT "@);
    }
    assert(s@ == old(s)@ + t);
    if bits & sys::kFSEventStreamEventFlagUnmount == sys::kFSEventStreamEventFlagUnmount {
        proof {
            lemma_concat_associative(old(s)@, t, "UNMOUNT "@);
        }
        s.append("UNMOUNT ");
    }
    proof {
        t = t + seg(bits, sys::kFSEventStreamEventFlagUnmount, "UNMOUNT "@);
    }
    assert(s@ == old(s)@ + t);
}

fn render_item_change(s: &mut String, bits: u32)
    ensures
        final(s)@ == old(s)@ + spec_render_item_change(bits),
{
    broadcast use vstd::seq::Seq::add_empty_left, vstd::seq::Seq::add_empty_right;

    let ghost mut t: Seq<char> = Seq::empty();
    assert(s@ == old(s)@ + t);
    if bits & sys::kFSEventStreamEventFlagItemCreated == sys::kFSEventStreamEventFlagItemCreated {
        proof {
            lemma_concat_associative(old(s)@, t, "ITEM_CREATED "@);
        }
        s.append("ITEM_CREATED ");
    }
    proof {
        t = t + seg(bits, sys::kFSEventStreamEventFlagItemCreated, "ITEM_CREATED "@);
    }
    assert(s@ == old(s)@ + t);
    if bits & sys::kFSEventStreamEventFlagItemRemoved == sys::kFSEventStreamEventFlagItemRemoved {
        proof {
            lemma_concat_associative(old(s)@, t, "ITEM_REMOVED "@);
        }
        s.append("ITEM_REMOVED ");
    }
    proof {
        t = t + seg(bits, sys::kFSEventStreamEventFlagItemRemoved, "ITEM_REMOVED "@);
    }
    assert(s@ == old(s)@ + t);
    if bits & sys::kFSEventStreamEventFlagItemInodeMetaMod == sys::kFSEventStreamEventFlagItemInodeMetaMod {
        proof {
            lemma_concat_associative(old(s)@, t, "INODE_META_MOD "@);
        }
        s.append("INODE_META_MOD ");
    }
    proof {
        t = t + seg(bits, sys::kFSEventStreamEventFlagItemInodeMetaMod, "INODE_META_MOD "@);
    }
    assert(s@ == old(s)@ + t);
    if bits & sys::kFSEventStreamEventFlagItemRenamed == sys::kFSEventStreamEventFlagItemRenamed {
        proof {
            lemma_concat_associative(old(s)@, t, "ITEM_RENAMED "@);
        }
        s.append("ITEM_RENAMED ");
    }
    proof {
        t = t + seg(bits, sys::kFSEventStreamEventFlagItemRenamed, "ITEM_RENAMED "@);
    }
    assert(s@ == old(s)@ + t);
    if bits & sys::kFSEventStreamEventFlagItemModified == sys::kFSEventStreamEventFlagItemModified {
        proof {
            lemma_concat_associative(old(s)@, t, "ITEM_MODIFIED "@);
        }
        s.append("ITEM_MODIFIED ");
    }
    proof {
        t = t + seg(bits, sys::kFSEventStreamEventFlagItemModified, "ITEM_MODIFIED "@);
    }
    assert(s@ == old(s)@ + t);
    if bits & sys::kFSEventStreamEventFlagItemFinderInfoMod == sys::kFSEventStreamEventFlagItemFinderInfoMod {
        proof {
            lemma_concat_associative(old(s)@, t, "FINDER_INFO_MOD "@);
        }
        s.append("FINDER_INFO_MOD ");
    }
    proof {
        t = t + seg(bits, sys::kFSEventStreamEventFlagItemFinderInfoMod, "FINDER_INFO_MOD "@);
    }
    assert(s@ == old(s)@ + t);
    if bits & sys::kFSEventStreamEventFlagItemChangeOwner == sys::kFSEventStreamEventFlagItemChangeOwner {
        proof {
            lemma_concat_associative(old(s)@, t, "ITEM_CHANGE_OWNER "@);
        }
        s.append("ITEM_CHANGE_OWNER ");
    }
    proof {
        t = t + seg(bits, sys::kFSEventStreamEventFlagItemChangeOwner, "ITEM_CHANGE_OWNER "@);
    }
    assert(s@ == old(s)@ + t);
    if bits & sys::kFSEventStreamEventFlagItemXattrMod == sys::kFSEventStreamEventFlagItemXattrMod {
        proof {
            lemma_concat_associative(old(s)@, t, "ITEM_XATTR_MOD "@);
        }
        s.append("ITEM_XATTR_MOD ");
    }
    proof {
        t = t + seg(bits, sys::kFSEventStreamEventFlagItemXattrMod, "ITEM_XATTR_MOD "@);
    }
    assert(s@ == old(s)@ + t);
}

fn render_item_kind(s: &mut String, bits: u32)
    ensures
        final(s)@ == old(s)@ + spec_render_item_kind(bits),
{
    broadcast use vstd::seq::Seq::add_empty_left, vstd::seq::Seq::add_empty_right;

    let ghost mut t: Seq<char> = Seq::empty();
    assert(s@ == old(s)@ + t);
    if bits & sys::kFSEventStreamEventFlagItemIsFile == sys::kFSEventStreamEventFlagItemIsFile {
        proof {
            lemma_concat_associative(old(s)@, t, "IS_FILE "@);
        }
        s.append("IS_FILE ");
    }
    proof {
        t = t + seg(bits, sys::kFSEventStreamEventFlagItemIsFile, "IS_FILE "@);
    }
    assert(s@ == old(s)@ + t);
    if bits & sys::kFSEventStreamEventFlagItemIsDir == sys::kFSEventStreamEventFlagItemIsDir {
        proof {
            lemma_concat_associative(old(s)@, t, "IS_DIR "@);
        }
        s.append("IS_DIR ");
    }
    proof {
        t = t + seg(bits, sys::kFSEventStreamEventFlagItemIsDir, "IS_DIR "@);
    }
    assert(s@ == old(s)@ + t);
    if bits & sys::kFSEventStreamEventFlagItemIsSymlink == sys::kFSEventStreamEventFlagItemIsSymlink {
        proof {
            lemma_concat_associative(old(s)@, t, "IS_SYMLINK "@);
        }
        s.append("IS_SYMLINK ");
    }
    proof {
        t = t + seg(bits, sys::kFSEventStreamEventFlagItemIsSymlink, "IS_SYMLINK "@);
    }
    assert(s@ == old(s)@ + t);
    if bits & sys::kFSEventStreamEventFlagOwnEvent == sys::kFSEventStreamEventFlagOwnEvent {
        proof {
            lemma_concat_associative(old(s)@, t, "OWN_EVENT "@);
        }
        s.append("OWN_EVENT ");
    }
    proof {
        t = t + seg(bits, sys::kFSEventStreamEventFlagOwnEvent, "OWN_EVENT "@);
    }
    assert(s@ == old(s)@ + t);
    if bits & sys::kFSEventStreamEventFlagItemIsLastHardlink == sys::kFSEventStreamEventFlagItemIsLastHardlink {
        proof {
            lemma_concat_associative(old(s)@, t, "IS_LAST_HARDLINK "@);
        }
        s.append("IS_LAST_HARDLINK ");
    }
    proof {
        t = t + seg(bits, sys::kFSEventStreamEventFlagItemIsLastHardlink, "IS_LAST_HARDLINK "@);
    }
    assert(s@ == old(s)@ + t);
    if bits & sys::kFSEventStreamEventFlagItemIsHardlink == sys::kFSEventStreamEventFlagItemIsHardlink {
        proof {
            lemma_concat_associative(old(s)@, t, "IS_HARDLINK "@);
        }
        s.append("IS_HARDLINK ");
    }
    proof {
        t = t + seg(bits, sys::kFSEventStreamEventFlagItemIsHardlink, "IS_HARDLINK "@);
    }
    assert(s@ == old(s)@ + t);
    if bits & sys::kFSEventStreamEventFlagItemCloned == sys::kFSEventStreamEventFlagItemCloned {
        proof {
            lemma_concat_associative(old(s)@, t, "ITEM_CLONED "@);
        }
        s.append("ITEM_CLONED ");
    }
    proof {
        t = t + seg(bits, sys::kFSEventStreamEventFlagItemCloned, "ITEM_CLONED "@);
    }
    assert(s@ == old(s)@ + t);
}
impl StreamFlags {
    /// Render the set as text for diagnostics, one flag name and a space per
    /// present flag, in a fixed order.
    pub fn render(&self) -> (r: String)
        ensures
            r@ == spec_render(self.spec_bits()),
    {
        broadcast use vstd::seq::Seq::add_empty_left;

        let mut s = String::new();
        render_stream(&mut s, self.bits);
        render_item_change(&mut s, self.bits);
        render_item_kind(&mut s, self.bits);
        s
    }
}

/// The known mask is exactly the union of the named event-flag bits: a
/// pattern is accepted by [`StreamFlags::from_bits`] precisely when every
/// set bit is one of them.
pub proof fn lemma_known_mask_is_flag_union()
    ensures
        KNOWN_FLAG_MASK == sys::kFSEventStreamEventFlagMustScanSubDirs
            | sys::kFSEventStreamEventFlagUserDropped | sys::kFSEventStreamEventFlagKernelDropped
            | sys::kFSEventStreamEventFlagEventIdsWrapped | sys::kFSEventStreamEventFlagHistoryDone
            | sys::kFSEventStreamEventFlagRootChanged | sys::kFSEventStreamEventFlagMount
            | sys::kFSEventStreamEventFlagUnmount | sys::kFSEventStreamEventFlagItemCreated
            | sys::kFSEventStreamEventFlagItemRemoved
            | sys::kFSEventStreamEventFlagItemInodeMetaMod
            | sys::kFSEventStreamEventFlagItemRenamed | sys::kFSEventStreamEventFlagItemModified
            | sys::kFSEventStreamEventFlagItemFinderInfoMod
            | sys::kFSEventStreamEventFlagItemChangeOwner
            | sys::kFSEventStreamEventFlagItemXattrMod | sys::kFSEventStreamEventFlagItemIsFile
            | sys::kFSEventStreamEventFlagItemIsDir | sys::kFSEventStreamEventFlagItemIsSymlink
            | sys::kFSEventStreamEventFlagOwnEvent | sys::kFSEventStreamEventFlagItemIsHardlink
            | sys::kFSEventStreamEventFlagItemIsLastHardlink
            | sys::kFSEventStreamEventFlagItemCloned,
{
    assert(0x007F_FFFFu32 == 0x00000001u32 | 0x00000002 | 0x00000004 | 0x00000008 | 0x00000010
        | 0x00000020 | 0x00000040 | 0x00000080 | 0x00000100 | 0x00000200 | 0x00000400 | 0x00000800
        | 0x00001000 | 0x00002000 | 0x00004000 | 0x00008000 | 0x00010000 | 0x00020000 | 0x00040000
        | 0x00080000 | 0x00100000 | 0x00200000 | 0x00400000) by (bit_vector);
}

} // verus!
