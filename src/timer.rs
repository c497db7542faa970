use vstd::prelude::*;

verus! {

#[derive(Clone, Copy, Debug, PartialEq, Eq, Structural)]
pub enum TimerMode {
    /// Finishes once and then stays finished.
    Once,
    /// Wraps around each time its duration elapses.
    Repeating,
}

/// A countdown measured in milliseconds, advanced explicitly by `tick`.
#[derive(Clone, Copy, Debug, PartialEq, Eq, Structural)]
pub struct Timer {
    pub duration: u64,
    pub elapsed: u64,
    pub mode: TimerMode,
    pub finished: bool,
    /// How many times the duration elapsed during the last tick.
    pub times_finished_this_tick: u64,
}

impl Timer {
    /// A repeating timer needs a positive period; elapsed time never passes
    /// the duration, and stays below it while repeating.
    pub open spec fn wf(self) -> bool {
        match self.mode {
            TimerMode::Once => self.elapsed <= self.duration,
            TimerMode::Repeating => 0 < self.duration && self.elapsed < self.duration,
        }
    }

    /// The timer after `delta` more milliseconds.
    pub open spec fn ticked(self, delta: u64) -> Timer {
        if self.mode == TimerMode::Once && self.finished {
            Timer { times_finished_this_tick: 0, ..self }
        } else {
            let e = self.elapsed + delta;
            if e < self.duration {
                Timer { elapsed: e as u64, finished: false, times_finished_this_tick: 0, ..self }
            } else {
                match self.mode {
                    TimerMode::Once => Timer {
                        elapsed: self.duration,
                        finished: true,
                        times_finished_this_tick: 1,
                        ..self
                    },
                    TimerMode::Repeating => Timer {
                        elapsed: (e % (self.duration as int)) as u64,
                        finished: true,
                        times_finished_this_tick: (e / (self.duration as int)) as u64,
                        ..self
                    },
                }
            }
        }
    }

    pub open spec fn fresh(duration: u64, mode: TimerMode) -> Timer {
        Timer { duration, elapsed: 0, mode, finished: false, times_finished_this_tick: 0 }
    }

    /// A timer that has not run yet.
    pub fn from_millis(duration: u64, mode: TimerMode) -> (r: Timer)
        ensures
            r == Timer::fresh(duration, mode),
    {
        Timer { duration, elapsed: 0, mode, finished: false, times_finished_this_tick: 0 }
    }

    /// Advances the timer by `delta` milliseconds.
    pub fn tick(&mut self, delta: u64)
        requires
            old(self).wf(),
            old(self).elapsed + delta <= u64::MAX,
        ensures
            *final(self) == old(self).ticked(delta),
            final(self).wf(),
    {
        if self.mode == TimerMode::Once && self.finished {
            self.times_finished_this_tick = 0;
            return;
        }
        let e: u64 = self.elapsed + delta;
        if e < self.duration {
            self.elapsed = e;
            self.finished = false;
            self.times_finished_this_tick = 0;
        } else {
            match self.mode {
                TimerMode::Once => {
                    self.elapsed = self.duration;
                    self.finished = true;
                    self.times_finished_this_tick = 1;
                },
                TimerMode::Repeating => {
                    self.elapsed = e % self.duration;
                    self.finished = true;
                    self.times_finished_this_tick = e / self.duration;
                },
            }
        }
    }

    /// Whether the duration elapsed during the last tick.
    pub fn just_finished(&self) -> (r: bool)
        ensures
            r == (self.times_finished_this_tick > 0),
    {
        self.times_finished_this_tick > 0
    }

    /// Whether the timer has reached its duration.
    pub fn is_finished(&self) -> (r: bool)
        ensures
            r == self.finished,
    {
        self.finished
    }

    /// Starts the timer over from zero elapsed time.
    pub fn reset(&mut self)
        ensures
            *final(self) == Timer::fresh(old(self).duration, old(self).mode),
    {
        self.elapsed = 0;
        self.finished = false;
        self.times_finished_this_tick = 0;
    }

    /// Changes the duration, keeping the elapsed time.
    pub fn set_duration(&mut self, duration: u64)
        ensures
            *final(self) == (Timer { duration, ..*old(self) }),
    {
        self.duration = duration;
    }
}

/// A frame in which no time passes leaves a timer's elapsed time where it was
/// and finishes nothing: freezing the clock freezes every timer.
pub proof fn law_frozen_clock(t: Timer)
    requires
        t.wf(),
        t.elapsed < t.duration || t.finished,
    ensures
        t.ticked(0).elapsed == t.elapsed,
        t.ticked(0).times_finished_this_tick == 0,
{
}

} // verus!
