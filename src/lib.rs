//! A single-threaded cooperative driver for a kernel's network event loop.
//!
//! The library holds the decisions: when to poll the task, when to busy-advance
//! the network stack, when to park the thread in the kernel, and when to give up
//! because a deadline has passed. The host performs each command that the
//! driver hands out and reports what came of it.

pub mod drive;
pub mod notify;
pub mod pool;
pub mod time;
