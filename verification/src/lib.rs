//! Core primitives of a small real-time runtime for robotics applications:
//! a monotonic timestamp type, a deadline-ordered high-resolution timer
//! queue, a periodic thread scheduler record, a latest-value message
//! channel with named publish callbacks, a named message registry, and a
//! lock-step virtual clock for deterministic testing.
//!
//! The library holds the data structures and the decision logic of these
//! components; the OS edge (thread creation, real sleeping, the monotonic
//! clock, signal delivery) lives with the embedding program, which drives
//! the state machines defined here.

pub mod channel;
pub mod module;
pub mod msg;
pub mod hrt;
pub mod lock_step;
pub mod pthread_scheduler;
