//! A key-addressable engine for recurring timers.
//!
//! A caller registers entries, each with a key, an interval and, if it wants one, a delay
//! before the first delivery. The repeater says when each entry is due, again and again,
//! until the entry is removed.
//!
//! - `entry`: what a value must offer to be an entry.
//! - `delay`: the wait before the first delivery.
//! - `schedule`: what a repeater holds, as a map, and the laws of its operations.
//! - `repeater`: the repeater itself.
//! - `actor`: the decisions of the task that owns a repeater and serves its handles.
//! - `handle`: the error that a handle reports.
//! - `timer`: what is taken on trust of the timer queue.

pub mod actor;
pub mod delay;
pub mod entry;
pub mod handle;
pub mod repeater;
pub mod schedule;
pub mod timer;

pub use delay::Delay;
pub use entry::RepeaterEntry;
pub use handle::ConnectionLost;
pub use repeater::Repeater;
pub use schedule::InsertError;
