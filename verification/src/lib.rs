//! A restart-resilient expiring timer: the core of a dead man's switch.
//!
//! The library tracks a two-stage timer (a warning period followed by a
//! dead-man period), reconciles the in-process monotonic clock with a
//! persisted wall-clock checkpoint so that elapsed time survives restarts,
//! and coalesces persistence requests through a debounced writer so callers
//! never block on disk I/O.

pub mod clock;
pub mod config;
pub mod email;
pub mod label;
pub mod state;
pub mod timer;
pub mod worker;
