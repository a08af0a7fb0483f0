//! Measurement engine of a terminal benchmark tool: timed CPU, memory and
//! disk workloads, the arithmetic that turns work and elapsed time into
//! scores, and the ratings derived from those scores.
//!
//! Scores are kept as integers in thousandths of their unit (a speed of
//! `2560.5` MB/s is held as `2_560_500`), so every value is exact, finite and
//! non-negative.
pub mod metrics;
pub mod rating;
mod platform;
pub mod progress;
pub mod memory;
pub mod cpu;
pub mod disk;
pub mod results;
