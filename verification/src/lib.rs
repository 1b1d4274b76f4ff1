//! Cooperative event loop for a capability-restricted, poll-based runtime.
//!
//! The crate models the scheduling core of a single-threaded script host:
//! a slot-indexed table of pending tasks (timers and descriptor readiness),
//! a FIFO queue of deferred "next tick" callbacks, and the decision logic
//! that turns readiness events into completion results.  The blocking wait
//! primitive and the actual read/write syscalls are supplied by the host
//! process; this crate decides what to wait for and what each event means.

pub mod event_loop;
pub mod fs;
