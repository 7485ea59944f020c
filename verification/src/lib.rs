//! Connectivity prober: classifies a measured TCP connect round-trip time
//! against two latency thresholds and renders a small JSON status record.

pub mod classify;
pub mod config;
pub mod decimal;
pub mod status;
