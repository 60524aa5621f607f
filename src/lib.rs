//! A Monte Carlo estimator of π: samples fall onto a disk and a square of
//! known size, and the ratio of hits approximates the ratio of their areas.
//!
//! Lengths are fixed-point integers (one unit is a thousandth of a world
//! unit) and durations are milliseconds.

mod random;

pub mod region;
pub mod stats;
pub mod sample;
pub mod sim;
pub mod laws;
pub mod phase;
