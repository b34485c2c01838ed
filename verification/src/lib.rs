//! Fault isolation and crash recovery for driver domains.
//!
//! A driver runs as a domain: a unit that may fault on its own without taking
//! its callers down. This crate holds what such domains share: the error
//! values that cross a domain boundary, the once-written cell that keeps a
//! domain's state, the handles to buffers on the shared heap, the rule that
//! turns a fault into an ordinary error, and a block device proxy that
//! recovers from a crash of its target by one retry.

pub mod error;
pub mod heap;
pub mod once;
pub mod blk;
pub mod shadow;
pub mod rtc;
pub mod unwind;
