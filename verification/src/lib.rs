//! Graceful termination for pull-based streams.
//!
//! A stream is a cooperative producer of items: each poll yields an item,
//! a failure, a not-ready notice, or exhaustion.  This crate defines two
//! protocols for closing such a stream before it runs dry — an explicit
//! poll-driven shutdown and a signal-then-drain shutdown — together with
//! adapters that let any stream take part in either protocol.

pub mod pinned;
pub mod poll;
pub mod scripted;
pub mod start;
pub mod stream;
