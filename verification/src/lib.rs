//! Verified model of the minimal execution environment a single-core machine
//! needs before any operating system exists: a mutual-exclusion primitive that
//! works without a scheduler, a synchronized byte-oriented output channel, the
//! boot-entry sequence (core selection, stack setup, zeroing of uninitialized
//! static storage), and a reentrancy-guarded fatal-error path.

pub mod cpu;
pub mod drivers;
pub mod fatal;
pub mod kernel;
pub mod sync;
