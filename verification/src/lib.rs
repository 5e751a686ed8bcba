//! A bounded worker pool for a small connection-handling server.
//!
//! The pool decouples job submission from job execution: a fixed set of
//! workers drains a FIFO dispatch queue, every submitted job runs exactly
//! once, and shutdown completes only after every queued job has finished.
//! `pool` holds the pool's state and its protocol; `http` holds the pure
//! request-to-response computation that the jobs of the surrounding server
//! perform.

pub mod http;
pub mod pool;
