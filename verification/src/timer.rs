//! A cumulative countdown clock.
//!
//! Time is carried as a number of milliseconds. Each game-loop iteration
//! hands every timer the wall-clock delta since the previous iteration;
//! the timer adds it up and reports `finished` once the accumulated time
//! reaches the configured threshold. A finished timer stays finished until
//! it is explicitly reset.

use vstd::prelude::*;

verus! {

/// Accumulates elapsed milliseconds against a fixed threshold.
#[derive(Clone, Copy, PartialEq, Eq, Structural, Debug)]
pub struct Timer {
    /// Milliseconds accumulated since creation or the last reset.
    pub total: u64,
    /// Threshold in milliseconds at which the timer finishes.
    pub max: u64,
    /// Whether the accumulated time has reached the threshold.
    pub finished: bool,
}

impl Timer {
    /// The `finished` flag is set exactly when the accumulated time has
    /// reached the threshold.
    pub open spec fn wf(self) -> bool {
        self.finished <==> self.total >= self.max
    }

    /// A fresh timer: nothing accumulated, not finished.
    pub fn new(time: u64) -> (t: Timer)
        ensures
            t.total == 0,
            t.max == time,
            !t.finished,
            time > 0 ==> t.wf(),
    {
        Timer { total: 0, max: time, finished: false }
    }

    /// Adds `time` milliseconds to the accumulated total (saturating at
    /// `u64::MAX`) and marks the timer finished once the total reaches the
    /// threshold.
    pub fn tick(&mut self, time: u64)
        ensures
            *final(self) == spec_tick(*old(self), time),
            old(self).wf() ==> final(self).wf(),
    {
        self.total = saturating_add(self.total, time);
        if self.total >= self.max {
            self.finished = true;
        }
    }

    /// Reports whether the accumulated time has reached the threshold.
    pub fn finished(&self) -> (r: bool)
        ensures
            r == self.finished,
    {
        self.finished
    }

    /// Zeroes the accumulated time and clears the finished flag.
    pub fn reset(&mut self)
        ensures
            final(self).total == 0,
            final(self).max == old(self).max,
            !final(self).finished,
    {
        self.total = 0;
        self.finished = false;
    }
}

/// The timer as it stands after `time` more milliseconds have passed.
pub open spec fn spec_tick(t: Timer, time: u64) -> Timer {
    let tot = spec_saturating_add(t.total, time);
    Timer { total: tot, max: t.max, finished: t.finished || tot >= t.max }
}

/// Ticking preserves the threshold and the finished/threshold coherence,
/// and the accumulated time never decreases.
pub proof fn lemma_spec_tick_wf(t: Timer, time: u64)
    ensures
        spec_tick(t, time).max == t.max,
        spec_tick(t, time).total >= t.total,
        t.wf() ==> spec_tick(t, time).wf(),
{
}

/// `a + b` capped at `u64::MAX`.
pub open spec fn spec_saturating_add(a: u64, b: u64) -> u64 {
    if a + b > u64::MAX {
        u64::MAX
    } else {
        (a + b) as u64
    }
}

/// Executable saturating addition, proved against [`spec_saturating_add`].
pub fn saturating_add(a: u64, b: u64) -> (r: u64)
    ensures
        r == spec_saturating_add(a, b),
{
    if a > u64::MAX - b {
        u64::MAX
    } else {
        a + b
    }
}

} // verus!
