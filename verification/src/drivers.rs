//! Device drivers: currently only the fixed diagnostic output channel.

pub mod console;
