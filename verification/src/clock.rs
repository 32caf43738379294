use vstd::prelude::*;

use crate::errors::CoreError;

verus! {

/// A time-scale factor stored as an exact rational `num / den`.
///
/// `num == 0` pauses the clock; `num == den` is real time; `num > den`
/// runs the simulation faster than wall time.
#[derive(Debug, Clone, Copy)]
pub struct Scale {
    pub num: u32,
    pub den: u32,
}

impl Scale {
    /// A scale is well formed when its denominator is positive. The value
    /// `num / den` is non-negative by construction.
    pub open spec fn wf(self) -> bool {
        self.den >= 1
    }

    pub fn new(num: u32, den: u32) -> (r: Scale)
        requires
            den >= 1,
        ensures
            r.num == num,
            r.den == den,
            r.wf(),
    {
        Scale { num, den }
    }
}

impl Default for Scale {
    /// The default scale is one: simulation time tracks raw time exactly.
    fn default() -> (r: Scale)
        ensures
            r.num == 1,
            r.den == 1,
            r.wf(),
    {
        Scale { num: 1, den: 1 }
    }
}

/// The mathematical state of a [`Clock`]: every duration is a nanosecond
/// count, and the scale is the exact rational `scale_num / scale_den`.
pub ghost struct ClockView {
    pub delta: int,
    pub elapsed_total: int,
    pub raw_delta: int,
    pub raw_elapsed_total: int,
    pub scale_num: int,
    pub scale_den: int,
    pub updated: bool,
}

/// One advance of the clock model: a raw delta together with the scale in
/// force for that call.
pub ghost struct ClockStep {
    pub raw: int,
    pub num: int,
    pub den: int,
}

/// A raw delta scaled by the rational `num / den`, rounded toward zero.
pub open spec fn scaled_delta(raw: int, num: int, den: int) -> int {
    (raw * num) / den
}

/// A step the clock accepts: a non-negative raw delta and a well-formed,
/// non-negative scale.
pub open spec fn step_ok(s: ClockStep) -> bool {
    s.raw >= 0 && s.num >= 0 && s.den >= 1
}

/// The sum of each step's raw delta scaled by the scale in force at that step.
pub open spec fn scaled_sum(steps: Seq<ClockStep>) -> int
    decreases steps.len(),
{
    if steps.len() == 0 {
        0
    } else {
        scaled_sum(steps.drop_last()) + scaled_delta(steps.last().raw, steps.last().num, steps.last().den)
    }
}

impl ClockView {
    pub open spec fn wf(self) -> bool {
        &&& self.delta >= 0
        &&& self.elapsed_total >= 0
        &&& self.raw_delta >= 0
        &&& self.raw_elapsed_total >= 0
        &&& self.scale_num >= 0
        &&& self.scale_den >= 1
    }

    /// The state after one accepted advance.
    pub open spec fn advanced(self, s: ClockStep) -> ClockView {
        ClockView {
            delta: scaled_delta(s.raw, s.num, s.den),
            elapsed_total: self.elapsed_total + scaled_delta(s.raw, s.num, s.den),
            raw_delta: s.raw,
            raw_elapsed_total: self.raw_elapsed_total + s.raw,
            scale_num: s.num,
            scale_den: s.den,
            updated: true,
        }
    }

    /// The state after a whole sequence of accepted advances.
    pub open spec fn advanced_by(self, steps: Seq<ClockStep>) -> ClockView
        decreases steps.len(),
    {
        if steps.len() == 0 {
            self
        } else {
            self.advanced_by(steps.drop_last()).advanced(steps.last())
        }
    }
}

proof fn lemma_scaled_delta_nonneg(raw: int, num: int, den: int)
    requires
        raw >= 0,
        num >= 0,
        den >= 1,
    ensures
        scaled_delta(raw, num, den) >= 0,
{
    assert((raw * num) / den >= 0) by (nonlinear_arith)
        requires
            raw >= 0,
            num >= 0,
            den >= 1,
    ;
}

/// Law: over any sequence of advances with non-negative raw deltas and
/// well-formed scales, the clock's elapsed total equals its starting total
/// plus the sum of each raw delta scaled by the scale in force at that call,
/// and is therefore monotonically non-decreasing.
pub proof fn lemma_clock_elapsed_is_scaled_sum(v: ClockView, steps: Seq<ClockStep>)
    requires
        forall|i: int| 0 <= i < steps.len() ==> step_ok(#[trigger] steps[i]),
    ensures
        v.advanced_by(steps).elapsed_total == v.elapsed_total + scaled_sum(steps),
        scaled_sum(steps) >= 0,
        v.advanced_by(steps).elapsed_total >= v.elapsed_total,
    decreases steps.len(),
{
    if steps.len() == 0 {
    } else {
        let prefix = steps.drop_last();
        assert forall|i: int| 0 <= i < prefix.len() implies step_ok(#[trigger] prefix[i]) by {
            assert(prefix[i] == steps[i]);
        }
        lemma_clock_elapsed_is_scaled_sum(v, prefix);
        let s = steps.last();
        assert(step_ok(s));
        lemma_scaled_delta_nonneg(s.raw, s.num, s.den);
    }
}

/// A simulation clock. It tracks the raw (unscaled) and scaled delta of the
/// most recent advance, the running totals of both, and the time-scale
/// factor. All durations are nanosecond counts.
///
/// The clock is meant to be advanced exactly once per scheduling cycle,
/// before anything else in that cycle reads it.
pub struct Clock {
    delta: u64,
    elapsed_total: u64,
    raw_delta: u64,
    raw_elapsed_total: u64,
    scale: Scale,
    updated: bool,
}

impl View for Clock {
    type V = ClockView;

    closed spec fn view(&self) -> ClockView {
        ClockView {
            delta: self.delta as int,
            elapsed_total: self.elapsed_total as int,
            raw_delta: self.raw_delta as int,
            raw_elapsed_total: self.raw_elapsed_total as int,
            scale_num: self.scale.num as int,
            scale_den: self.scale.den as int,
            updated: self.updated,
        }
    }
}

impl Clock {
    pub open spec fn wf(self) -> bool {
        self@.wf()
    }

    /// The scale an advance will use: the override when one is supplied,
    /// the stored scale otherwise.
    pub open spec fn effective_num(self, scale_override: Option<Scale>) -> int {
        match scale_override {
            Some(s) => s.num as int,
            None => self@.scale_num,
        }
    }

    pub open spec fn effective_den(self, scale_override: Option<Scale>) -> int {
        match scale_override {
            Some(s) => s.den as int,
            None => self@.scale_den,
        }
    }

    /// A fresh clock: no time elapsed, scale one, not yet advanced.
    pub fn new() -> (c: Clock)
        ensures
            c.wf(),
            c@.delta == 0,
            c@.elapsed_total == 0,
            c@.raw_delta == 0,
            c@.raw_elapsed_total == 0,
            c@.scale_num == 1,
            c@.scale_den == 1,
            !c@.updated,
    {
        Clock {
            delta: 0,
            elapsed_total: 0,
            raw_delta: 0,
            raw_elapsed_total: 0,
            scale: Scale { num: 1, den: 1 },
            updated: false,
        }
    }

    /// The scaled delta of the most recent advance, in nanoseconds.
    pub fn delta(&self) -> (r: u64)
        ensures
            r as int == self@.delta,
    {
        self.delta
    }

    /// The sum of all scaled deltas so far, in nanoseconds.
    pub fn elapsed_total(&self) -> (r: u64)
        ensures
            r as int == self@.elapsed_total,
    {
        self.elapsed_total
    }

    /// The raw (unscaled) delta of the most recent advance, in nanoseconds.
    pub fn raw_delta(&self) -> (r: u64)
        ensures
            r as int == self@.raw_delta,
    {
        self.raw_delta
    }

    /// The sum of all raw deltas so far: time since startup bookkeeping that
    /// keeps running even while the clock is paused.
    pub fn raw_elapsed_total(&self) -> (r: u64)
        ensures
            r as int == self@.raw_elapsed_total,
    {
        self.raw_elapsed_total
    }

    /// The stored time-scale factor.
    pub fn scale(&self) -> (r: Scale)
        ensures
            r.num as int == self@.scale_num,
            r.den as int == self@.scale_den,
    {
        self.scale
    }

    /// Whether the clock has been advanced at least once, so readers can
    /// tell a fresh clock from one that reported a zero delta.
    pub fn updated(&self) -> (r: bool)
        ensures
            r == self@.updated,
    {
        self.updated
    }

    /// Stores a new time-scale factor for subsequent advances. A scale with
    /// `num == 0` freezes the scaled delta at zero until changed.
    pub fn set_scale(&mut self, s: Scale)
        requires
            old(self).wf(),
            s.wf(),
        ensures
            final(self).wf(),
            final(self)@ == (ClockView {
                scale_num: s.num as int,
                scale_den: s.den as int,
                ..old(self)@
            }),
    {
        self.scale = s;
    }

    /// Advances the clock by one cycle.
    ///
    /// A negative `raw_delta` is rejected with [`CoreError::InvalidDelta`]
    /// and leaves the clock unchanged. A zero delta is valid: it leaves the
    /// totals unchanged while still marking the clock as updated, so
    /// downstream readers are not stale. When `scale_override` is supplied
    /// it is stored and used for this and subsequent advances; otherwise the
    /// stored scale applies. On success the scaled delta is
    /// `raw_delta * num / den` (rounded toward zero) and is added to the
    /// elapsed total, which therefore never decreases.
    pub fn advance(&mut self, raw_delta: i64, scale_override: Option<Scale>) -> (r: Result<
        (),
        CoreError,
    >)
        requires
            old(self).wf(),
            scale_override matches Some(s) ==> s.wf(),
            raw_delta >= 0 ==> old(self)@.elapsed_total + scaled_delta(
                raw_delta as int,
                old(self).effective_num(scale_override),
                old(self).effective_den(scale_override),
            ) <= u64::MAX,
            raw_delta >= 0 ==> old(self)@.raw_elapsed_total + raw_delta <= u64::MAX,
        ensures
            final(self).wf(),
            raw_delta < 0 ==> r == Err::<(), CoreError>(CoreError::InvalidDelta) && final(self)@
                == old(self)@,
            raw_delta >= 0 ==> r == Ok::<(), CoreError>(()) && final(self)@ == old(
                self,
            )@.advanced(
                (ClockStep {
                    raw: raw_delta as int,
                    num: old(self).effective_num(scale_override),
                    den: old(self).effective_den(scale_override),
                }),
            ),
            final(self)@.elapsed_total >= old(self)@.elapsed_total,
    {
        if raw_delta < 0 {
            return Err(CoreError::InvalidDelta);
        }
        let s: Scale = match scale_override {
            Some(s) => s,
            None => self.scale,
        };
        let raw: u64 = raw_delta as u64;
        proof {
            assert((raw as int) * (s.num as int) <= u128::MAX) by (nonlinear_arith)
                requires
                    raw <= u64::MAX,
                    s.num <= u32::MAX,
            ;
            lemma_scaled_delta_nonneg(raw as int, s.num as int, s.den as int);
        }
        let prod: u128 = (raw as u128) * (s.num as u128);
        let d128: u128 = prod / (s.den as u128);
        proof {
            assert(d128 as int == scaled_delta(raw as int, s.num as int, s.den as int));
        }
        let d: u64 = d128 as u64;
        self.delta = d;
        self.elapsed_total = self.elapsed_total + d;
        self.raw_delta = raw;
        self.raw_elapsed_total = self.raw_elapsed_total + raw;
        self.scale = s;
        self.updated = true;
        Ok(())
    }
}

} // verus!
