//! Small helpers shared across the crate.

use vstd::prelude::*;

verus! {

/// Bit-mask containment for plain flag words.
pub trait FlagsExt: Sized {
    /// What containment means: every bit of `rhs` is set in `self`.
    spec fn spec_contains(&self, rhs: Self) -> bool;

    /// True exactly when every bit of `rhs` is set in `self`.
    fn contains(&self, rhs: Self) -> (r: bool)
        ensures
            r == self.spec_contains(rhs),
    ;
}

impl FlagsExt for u32 {
    open spec fn spec_contains(&self, rhs: u32) -> bool {
        (*self & rhs) == rhs
    }

    fn contains(&self, rhs: u32) -> (r: bool) {
        (*self & rhs) == rhs
    }
}

impl FlagsExt for usize {
    open spec fn spec_contains(&self, rhs: usize) -> bool {
        (*self & rhs) == rhs
    }

    fn contains(&self, rhs: usize) -> (r: bool) {
        (*self & rhs) == rhs
    }
}

impl FlagsExt for u64 {
    open spec fn spec_contains(&self, rhs: u64) -> bool {
        (*self & rhs) == rhs
    }

    fn contains(&self, rhs: u64) -> (r: bool) {
        (*self & rhs) == rhs
    }
}

} // verus!
