//! Request telemetry: per-request resource samples folded into running
//! statistics, and the text that reports them.

pub mod archive;
pub mod arith;
pub mod calendar;
pub mod config;
pub mod laws;
pub mod monitor;
pub mod pool;
pub mod report;
pub mod request;
pub mod stats;
pub mod text;
