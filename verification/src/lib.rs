//! Solar scheduling for a display blue-light filter.
//!
//! The crate decides, from the time of day and the day's sunrise and sunset,
//! whether the filter should be on, which command the display controller
//! must receive, and how long to wait before deciding again.  It performs no
//! input or output of its own: callers hand it plain values and carry out the
//! actions it returns.

pub mod time;
pub mod phase;
pub mod command;
pub mod client;
pub mod poll;
pub mod wait;
pub mod scheduler;
