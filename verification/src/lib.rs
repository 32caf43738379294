//! Core timing and capacity primitives for a frame-driven simulation.
//!
//! The library has four components:
//!
//! - [`partition`]: divides a fixed number of logical execution units among
//!   ordered workload categories under min/max/share constraints.
//! - [`clock`]: a simulation clock tracking raw and scaled per-cycle deltas
//!   and a monotonically non-decreasing elapsed total.
//! - [`timer`]: one-shot and repeating countdown timers driven by deltas the
//!   caller supplies.
//! - [`accumulator`]: a fixed-timestep accumulator that converts variable
//!   frame deltas into zero or more fixed-size simulation steps.
//!
//! All durations are integer nanosecond counts, and all scale factors and
//! shares are exact rationals, so every stated contract is exact.

pub mod accumulator;
pub mod clock;
pub mod errors;
pub mod partition;
pub mod timer;
