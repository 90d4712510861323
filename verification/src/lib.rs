//! Byte-level I/O instrumentation: a slot that holds at most one observer and
//! notifies it of every completed socket read and write.
//!
//! [`hook`] is the capability an observer provides, [`slot`] the storage for
//! the registered observer with registration and dispatch, and [`guarded`]
//! the notification of an observer that threads share behind a lock.

pub mod hook;
pub mod slot;
pub mod guarded;
