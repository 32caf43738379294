use vstd::prelude::*;

use crate::errors::CoreError;

verus! {

/// The mathematical state of a [`FixedTimestepAccumulator`]. Durations are
/// nanosecond counts; the overstep fraction of the design is the exact
/// rational `accumulator / step_length`.
pub ghost struct AccumulatorView {
    pub step_length: int,
    pub accumulator: int,
    pub max_steps_per_cycle: int,
}

impl AccumulatorView {
    /// The accumulator invariant: a positive step length, a non-negative
    /// catch-up bound, and a remainder strictly below one step.
    pub open spec fn wf(self) -> bool {
        &&& self.step_length >= 1
        &&& 0 <= self.accumulator < self.step_length
        &&& self.max_steps_per_cycle >= 0
    }

    /// How many fixed steps one call emits: the whole steps the combined
    /// time covers, capped at the per-cycle bound.
    pub open spec fn steps_emitted(self, delta: int) -> int {
        let whole = (self.accumulator + delta) / self.step_length;
        if whole > self.max_steps_per_cycle {
            self.max_steps_per_cycle
        } else {
            whole
        }
    }

    /// The state after one call: the remainder below one step is kept, and
    /// any whole steps beyond the per-cycle bound are discarded.
    pub open spec fn accumulated(self, delta: int) -> AccumulatorView {
        AccumulatorView {
            step_length: self.step_length,
            accumulator: (self.accumulator + delta) % self.step_length,
            max_steps_per_cycle: self.max_steps_per_cycle,
        }
    }
}

/// Law: accumulating a zero delta emits no step and never changes observable
/// state.
pub proof fn lemma_accumulate_zero_is_noop(a: AccumulatorView)
    requires
        a.wf(),
    ensures
        a.accumulated(0) == a,
        a.steps_emitted(0) == 0,
{
    assert(a.accumulator % a.step_length == a.accumulator && a.accumulator / a.step_length == 0)
        by (nonlinear_arith)
        requires
            0 <= a.accumulator < a.step_length,
    ;
}

/// A fixed-timestep accumulator. It consumes variable frame deltas and emits
/// zero or more fixed-size simulation steps plus a fractional remainder,
/// decoupling the simulation rate from the frame rate. Durations are
/// nanosecond counts.
pub struct FixedTimestepAccumulator {
    step_length: u64,
    accumulator: u64,
    max_steps_per_cycle: u64,
}

impl View for FixedTimestepAccumulator {
    type V = AccumulatorView;

    closed spec fn view(&self) -> AccumulatorView {
        AccumulatorView {
            step_length: self.step_length as int,
            accumulator: self.accumulator as int,
            max_steps_per_cycle: self.max_steps_per_cycle as int,
        }
    }
}

impl FixedTimestepAccumulator {
    pub open spec fn wf(self) -> bool {
        self@.wf()
    }

    /// A fresh accumulator. A zero step length is invalid and is rejected
    /// with [`CoreError::InvalidStepLength`]. `max_steps_per_cycle` bounds
    /// the worst-case per-cycle work after a long stall: whole steps beyond
    /// it are discarded rather than executed.
    pub fn new(step_length: u64, max_steps_per_cycle: u64) -> (r: Result<
        FixedTimestepAccumulator,
        CoreError,
    >)
        ensures
            step_length == 0 <==> r == Err::<FixedTimestepAccumulator, CoreError>(
                CoreError::InvalidStepLength,
            ),
            step_length >= 1 ==> (r matches Ok(a) && a.wf() && a@ == (AccumulatorView {
                step_length: step_length as int,
                accumulator: 0,
                max_steps_per_cycle: max_steps_per_cycle as int,
            })),
    {
        if step_length == 0 {
            return Err(CoreError::InvalidStepLength);
        }
        Ok(
            FixedTimestepAccumulator {
                step_length,
                accumulator: 0,
                max_steps_per_cycle,
            },
        )
    }

    /// Adds `delta` to the accumulated time and returns how many fixed steps
    /// the caller must run this cycle: the whole steps the accumulated time
    /// covers, capped at the per-cycle bound. The remainder below one step
    /// stays accumulated; time covered by steps beyond the bound is
    /// discarded.
    pub fn accumulate(&mut self, delta: u64) -> (steps: u64)
        requires
            old(self).wf(),
            old(self)@.accumulator + delta <= u64::MAX,
        ensures
            final(self).wf(),
            final(self)@ == old(self)@.accumulated(delta as int),
            steps as int == old(self)@.steps_emitted(delta as int),
    {
        let total: u64 = self.accumulator + delta;
        let whole: u64 = total / self.step_length;
        let steps: u64 = if whole > self.max_steps_per_cycle {
            self.max_steps_per_cycle
        } else {
            whole
        };
        self.accumulator = total % self.step_length;
        steps
    }

    /// Clears the accumulated remainder (for example on resume from pause,
    /// to avoid a burst of catch-up steps). The configuration is kept.
    pub fn reset(&mut self)
        requires
            old(self).wf(),
        ensures
            final(self).wf(),
            final(self)@ == (AccumulatorView { accumulator: 0, ..old(self)@ }),
    {
        self.accumulator = 0;
    }

    /// The fixed step length, in nanoseconds.
    pub fn step_length(&self) -> (r: u64)
        ensures
            r as int == self@.step_length,
    {
        self.step_length
    }

    /// The accumulated remainder, in nanoseconds: always below one step. The
    /// overstep fraction is this value divided by the step length.
    pub fn accumulator(&self) -> (r: u64)
        ensures
            r as int == self@.accumulator,
    {
        self.accumulator
    }

    /// The most whole steps one call may emit.
    pub fn max_steps_per_cycle(&self) -> (r: u64)
        ensures
            r as int == self@.max_steps_per_cycle,
    {
        self.max_steps_per_cycle
    }
}

} // verus!
