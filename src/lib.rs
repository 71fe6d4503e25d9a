//! Verified core of a latency benchmark for a simulated chain node: the
//! process-wide trace toggle, the node configuration of each trial, the shutdown
//! probe, the timed trial, the sampling loop and the summary statistics.

pub mod config;
pub mod probe;
pub mod sampling;
pub mod stats;
pub mod tracing_toggle;
pub mod trial;
