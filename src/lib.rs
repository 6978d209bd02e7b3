//! Memory-health watchdog: samples installed versus usable physical memory,
//! decides whether the machine runs degraded, and drives a cancellable
//! countdown towards a corrective restart.
//!
//! Everything here is plain computation on values handed in by the caller;
//! the operating-system queries, the clock and the process launch live with
//! the program that drives the watchdog.
pub mod memory;
pub mod watchdog;
pub mod laws;

pub use memory::{kib_to_bytes, MemoryInfo, MemoryQuery, SampleError};
pub use watchdog::{App, Action, Event, WatchdogState, DEFAULT_COUNTDOWN_MS, MS_PER_SECOND, SAMPLE_INTERVAL_MS};
