//! Synchronization primitives.

pub mod mutex;
