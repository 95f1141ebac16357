//! Core logic of a terminal system monitor: severity colors for usage
//! gauges, memory-percentage computation, ranking of processes by CPU
//! usage, frame building, and the monitor loop's state machine.
//!
//! Percentages are carried as thousandths of a percent (milli-percent),
//! so `50.0%` is `50_000`.

pub mod color;
pub mod frame;
pub mod metrics;
pub mod monitor;
pub mod rank;
pub mod text;
