//! Concurrent streaming-request execution engine: how many jobs run at
//! once, which job runs next, how requests are paced, how a partially
//! received stream is read and committed, and how failures are retried.
//!
//! The engine's decisions are deterministic state machines over plain
//! values; the surrounding I/O (reading inputs, issuing requests, sleeping,
//! writing files) is performed by the caller against the contracts stated
//! here.

use vstd::prelude::*;

pub mod classify;
pub mod clock;
pub mod estimator;
pub mod executor;
pub mod fault;
pub mod limiter;
pub mod message;
pub mod metadata;
pub mod paths;
pub mod probe;
pub mod report;
pub mod retry;
pub mod scheduler;
pub mod stream;
pub mod transaction;

verus! {

} // verus!
