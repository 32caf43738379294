use vstd::prelude::*;

verus! {

/// The error kinds this library signals.
///
/// Invalid configurations are rejected at construction time, and a bad
/// per-cycle input (a negative delta from a misbehaving time source) is
/// surfaced synchronously to the caller rather than silently clamped.
#[derive(Debug, Clone, Copy, PartialEq, Eq)]
pub enum CoreError {
    /// A negative time delta was handed to the clock.
    InvalidDelta,
    /// A timer was constructed with a zero duration.
    InvalidDuration,
    /// A fixed-timestep accumulator was constructed with a zero step length.
    InvalidStepLength,
}

} // verus!
