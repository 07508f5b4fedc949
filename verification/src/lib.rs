//! Windowed, cursor-paginated ingestion engine.
//!
//! The library partitions a time range into fixed-size windows, drives one
//! pagination loop per window (fetch, persist, advance the cursor, repeat
//! until an empty page signals exhaustion), dispatches windows across a
//! bounded worker pool, and observes a cooperative cancellation flag at
//! well-defined checkpoints.

use vstd::prelude::*;

pub mod models;
pub mod pagination;
pub mod scheduler;
pub mod time;
pub mod windows;

verus! {

/// Default lower bound of the backfill range, as a Unix epoch.
pub const FIRST_EPOCH: u64 = 1669882894;

/// Width of one work window, in seconds.
pub const WINDOW_SIZE: u64 = 3600;

/// Number of pagination loops that may run concurrently.
pub const POOL_SIZE: u64 = 10;

} // verus!
