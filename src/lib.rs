//! A load generator's engine: per-worker retry with exponential backoff,
//! shared outcome statistics, ramp-up pacing and the final report figures.
pub mod stats;
pub mod config;
pub mod worker;
pub mod report;
pub mod schedule;
pub mod status;
pub mod opts;
