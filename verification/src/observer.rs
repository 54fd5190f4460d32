//! Model of the one-shot run-loop observer used by the shutdown handshake.
//!
//! The observer is installed on the worker's run loop with an interest
//! mask; whenever the loop reports an activity wholly inside that mask,
//! the observer forwards it over a one-shot channel.  The shutdown
//! handshake installs one interested in the before-waiting activity to
//! learn when the loop has drained its current callback and gone idle.
#![allow(non_upper_case_globals)]

use vstd::prelude::*;

use crate::utils::FlagsExt;

verus! {

/// A run-loop activity word.
pub type CFRunLoopActivity = u64;

pub const kCFRunLoopEntry: CFRunLoopActivity = 0x01;
pub const kCFRunLoopBeforeTimers: CFRunLoopActivity = 0x02;
pub const kCFRunLoopBeforeSources: CFRunLoopActivity = 0x04;
/// The loop is about to go to sleep: it has drained its current work.
pub const kCFRunLoopBeforeWaiting: CFRunLoopActivity = 0x20;
pub const kCFRunLoopAfterWaiting: CFRunLoopActivity = 0x40;
pub const kCFRunLoopExit: CFRunLoopActivity = 0x80;

/// What an installed observer knows: which activities it is interested in.
/// The forwarding channel it writes to lives outside the verified core.
#[derive(Clone, Copy, Debug, PartialEq, Eq, Structural)]
pub struct ObserverContextInfo {
    interest: CFRunLoopActivity,
}

impl ObserverContextInfo {
    /// The interest mask the observer was created with.
    pub closed spec fn spec_interest(self) -> CFRunLoopActivity {
        self.interest
    }

    /// An observer context interested in the given activities.
    pub fn new(interest: CFRunLoopActivity) -> (r: ObserverContextInfo)
        ensures
            r.spec_interest() == interest,
    {
        ObserverContextInfo { interest }
    }

    /// Whether a reported activity is forwarded: exactly when every bit of
    /// the activity lies inside the observer's interest mask.
    pub fn should_forward(&self, activity: CFRunLoopActivity) -> (r: bool)
        ensures
            r == (self.spec_interest() & activity == activity),
    {
        self.interest.contains(activity)
    }
}

} // verus!
