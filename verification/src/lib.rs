//! Stream-oriented bindings for a native filesystem-change notification
//! subsystem, with a verified core.
//!
//! The native subsystem delivers batches of change records to a callback that
//! runs on a dedicated worker thread owning a native run loop.  This crate
//! verifies the logic of that bridge: the event-flag bitset, the batch
//! decoder selected by creation flags, the bounded backpressured channel that
//! carries decoded events to an asynchronous consumer, the lifecycle of the
//! native stream object, and the shutdown handshake that stops the run loop
//! only once it is observably idle.
//!
//! The native calls themselves, the worker thread, and the task-scheduler
//! plumbing cannot be verified; they live outside this library and drive the
//! state machines defined here.

pub mod channel;
pub mod decode;
pub mod flags;
pub mod lifecycle;
pub mod low_level;
pub mod observer;
pub mod raw;
pub mod render;
pub mod stream;
pub mod sys;
pub mod utils;
