use vstd::prelude::*;

use crate::errors::CoreError;

verus! {

/// The mathematical state of a [`Timer`]. Durations are nanosecond counts.
pub ghost struct TimerView {
    pub duration: int,
    pub elapsed: int,
    pub repeating: bool,
    pub finished: bool,
    pub times_finished_this_tick: int,
}

impl TimerView {
    /// The timer invariant. A non-repeating timer holds `elapsed` in
    /// `[0, duration]` and is finished exactly when `elapsed` reached
    /// `duration`; a repeating timer wraps `elapsed` modulo `duration` and is
    /// finished exactly when its most recent tick completed at least once.
    pub open spec fn wf(self) -> bool {
        &&& self.duration >= 1
        &&& self.elapsed >= 0
        &&& self.times_finished_this_tick >= 0
        &&& if self.repeating {
            &&& self.elapsed < self.duration
            &&& (self.finished <==> self.times_finished_this_tick > 0)
        } else {
            &&& self.elapsed <= self.duration
            &&& (self.finished <==> self.elapsed == self.duration)
        }
    }

    /// One tick of the timer model with a non-negative delta.
    ///
    /// The per-tick completion count is recomputed on every tick, so a tick
    /// that completes nothing reports zero even right after a completing one.
    pub open spec fn ticked(self, delta: int) -> TimerView {
        let total = self.elapsed + delta;
        if self.repeating {
            TimerView {
                duration: self.duration,
                elapsed: total % self.duration,
                repeating: self.repeating,
                finished: total / self.duration > 0,
                times_finished_this_tick: total / self.duration,
            }
        } else if self.finished {
            TimerView {
                duration: self.duration,
                elapsed: self.elapsed,
                repeating: self.repeating,
                finished: self.finished,
                times_finished_this_tick: 0,
            }
        } else if total >= self.duration {
            TimerView {
                duration: self.duration,
                elapsed: self.duration,
                repeating: self.repeating,
                finished: true,
                times_finished_this_tick: 1,
            }
        } else {
            TimerView {
                duration: self.duration,
                elapsed: total,
                repeating: self.repeating,
                finished: false,
                times_finished_this_tick: 0,
            }
        }
    }

    /// The state after a whole sequence of ticks.
    pub open spec fn ticked_by(self, deltas: Seq<int>) -> TimerView
        decreases deltas.len(),
    {
        if deltas.len() == 0 {
            self
        } else {
            self.ticked_by(deltas.drop_last()).ticked(deltas.last())
        }
    }

    /// The state after a reset: progress cleared, configuration kept.
    pub open spec fn was_reset(self) -> TimerView {
        TimerView {
            duration: self.duration,
            elapsed: 0,
            repeating: self.repeating,
            finished: false,
            times_finished_this_tick: 0,
        }
    }
}

pub open spec fn all_nonneg(deltas: Seq<int>) -> bool {
    forall|i: int| 0 <= i < deltas.len() ==> #[trigger] deltas[i] >= 0
}

/// The sum of a sequence of deltas.
pub open spec fn delta_sum(deltas: Seq<int>) -> int
    decreases deltas.len(),
{
    if deltas.len() == 0 {
        0
    } else {
        delta_sum(deltas.drop_last()) + deltas.last()
    }
}

/// How a non-repeating timer moves through a whole sequence of non-negative
/// ticks: an already finished timer never moves again, and an unfinished one
/// ends at the sum of its progress and the deltas, clamped at `duration`,
/// finished exactly when that sum reached `duration`.
pub proof fn lemma_nonrepeating_run(t: TimerView, deltas: Seq<int>)
    requires
        t.wf(),
        !t.repeating,
        all_nonneg(deltas),
    ensures
        t.ticked_by(deltas).wf(),
        t.ticked_by(deltas).duration == t.duration,
        !t.ticked_by(deltas).repeating,
        t.finished ==> t.ticked_by(deltas).elapsed == t.elapsed && t.ticked_by(deltas).finished,
        !t.finished ==> t.ticked_by(deltas).elapsed == (if t.elapsed + delta_sum(deltas)
            >= t.duration {
            t.duration
        } else {
            t.elapsed + delta_sum(deltas)
        }),
        !t.finished ==> (t.ticked_by(deltas).finished <==> t.elapsed + delta_sum(deltas)
            >= t.duration),
    decreases deltas.len(),
{
    if deltas.len() == 0 {
    } else {
        let prefix = deltas.drop_last();
        assert forall|i: int| 0 <= i < prefix.len() implies #[trigger] prefix[i] >= 0 by {
            assert(prefix[i] == deltas[i]);
        }
        lemma_nonrepeating_run(t, prefix);
        assert(deltas.last() >= 0);
    }
}

/// Law: ticking a non-repeating timer from a fresh state with non-negative
/// deltas summing to exactly `duration` leaves it finished with
/// `elapsed == duration`, and any further tick is a no-op for both until a
/// reset, which restores the fresh state.
pub proof fn lemma_timer_round_trip(t: TimerView, deltas: Seq<int>, extra: int)
    requires
        t.wf(),
        !t.repeating,
        !t.finished,
        t.elapsed == 0,
        t.times_finished_this_tick == 0,
        all_nonneg(deltas),
        delta_sum(deltas) == t.duration,
        extra >= 0,
    ensures
        t.ticked_by(deltas).finished,
        t.ticked_by(deltas).elapsed == t.duration,
        t.ticked_by(deltas).ticked(extra).elapsed == t.duration,
        t.ticked_by(deltas).ticked(extra).finished,
        t.ticked_by(deltas).was_reset() == t,
{
    lemma_nonrepeating_run(t, deltas);
}

/// Law: a tick with a zero delta never changes observable state, provided the
/// most recent tick completed nothing (a completing tick is followed by a
/// recomputed per-tick count, which a zero tick sets back to zero).
pub proof fn lemma_tick_zero_is_noop(t: TimerView)
    requires
        t.wf(),
        t.times_finished_this_tick == 0,
    ensures
        t.ticked(0) == t,
{
    if t.repeating {
        assert(t.elapsed % t.duration == t.elapsed && t.elapsed / t.duration == 0)
            by (nonlinear_arith)
            requires
                0 <= t.elapsed < t.duration,
        ;
    }
}

/// A stopwatch-like countdown timer, driven by deltas the caller supplies
/// (typically the clock's scaled delta). Durations are nanosecond counts.
pub struct Timer {
    duration: u64,
    elapsed: u64,
    repeating: bool,
    finished: bool,
    times_finished_this_tick: u64,
}

impl View for Timer {
    type V = TimerView;

    closed spec fn view(&self) -> TimerView {
        TimerView {
            duration: self.duration as int,
            elapsed: self.elapsed as int,
            repeating: self.repeating,
            finished: self.finished,
            times_finished_this_tick: self.times_finished_this_tick as int,
        }
    }
}

impl Timer {
    pub open spec fn wf(self) -> bool {
        self@.wf()
    }

    /// A fresh timer. A zero duration is invalid and is rejected with
    /// [`CoreError::InvalidDuration`]; any positive duration is accepted.
    pub fn new(duration: u64, repeating: bool) -> (r: Result<Timer, CoreError>)
        ensures
            duration == 0 <==> r == Err::<Timer, CoreError>(CoreError::InvalidDuration),
            duration >= 1 ==> (r matches Ok(t) && t.wf() && t@ == (TimerView {
                duration: duration as int,
                elapsed: 0,
                repeating,
                finished: false,
                times_finished_this_tick: 0,
            })),
    {
        if duration == 0 {
            return Err(CoreError::InvalidDuration);
        }
        Ok(
            Timer {
                duration,
                elapsed: 0,
                repeating,
                finished: false,
                times_finished_this_tick: 0,
            },
        )
    }

    /// Adds `delta` to the timer's progress.
    ///
    /// A non-repeating timer clamps at `duration`, reports `finished`, and
    /// ignores further ticks until reset. A repeating timer counts every
    /// completion the combined progress covers — a single large delta can
    /// complete it several times — and wraps the remainder, so `finished`
    /// holds exactly when this tick completed at least once.
    pub fn tick(&mut self, delta: u64)
        requires
            old(self).wf(),
            old(self)@.elapsed + delta <= u64::MAX,
        ensures
            final(self).wf(),
            final(self)@ == old(self)@.ticked(delta as int),
    {
        if self.repeating {
            let total: u64 = self.elapsed + delta;
            let times: u64 = total / self.duration;
            self.elapsed = total % self.duration;
            self.times_finished_this_tick = times;
            self.finished = times > 0;
        } else if self.finished {
            self.times_finished_this_tick = 0;
        } else {
            let total: u64 = self.elapsed + delta;
            if total >= self.duration {
                self.elapsed = self.duration;
                self.finished = true;
                self.times_finished_this_tick = 1;
            } else {
                self.elapsed = total;
                self.times_finished_this_tick = 0;
            }
        }
    }

    /// Clears progress, the finished flag and the per-tick completion count,
    /// keeping the duration and the repeat flag.
    pub fn reset(&mut self)
        requires
            old(self).wf(),
        ensures
            final(self).wf(),
            final(self)@ == old(self)@.was_reset(),
    {
        self.elapsed = 0;
        self.finished = false;
        self.times_finished_this_tick = 0;
    }

    /// The configured duration, in nanoseconds.
    pub fn duration(&self) -> (r: u64)
        ensures
            r as int == self@.duration,
    {
        self.duration
    }

    /// Progress toward the next completion, in nanoseconds.
    pub fn elapsed(&self) -> (r: u64)
        ensures
            r as int == self@.elapsed,
    {
        self.elapsed
    }

    /// Whether the timer repeats after completing.
    pub fn repeating(&self) -> (r: bool)
        ensures
            r == self@.repeating,
    {
        self.repeating
    }

    /// Whether the timer completed on its most recent tick (and, for a
    /// non-repeating timer, stays completed until reset).
    pub fn finished(&self) -> (r: bool)
        ensures
            r == self@.finished,
    {
        self.finished
    }

    /// How many times the most recent tick completed the timer.
    pub fn times_finished_this_tick(&self) -> (r: u64)
        ensures
            r as int == self@.times_finished_this_tick,
    {
        self.times_finished_this_tick
    }
}

} // verus!
