use vstd::prelude::*;

verus! {

/// A repeating frame timer, in nanoseconds.
#[derive(Clone, Copy, Debug, PartialEq, Eq, Structural)]
pub struct FrameTimer {
    /// The interval after which the timer fires.
    pub duration: u64,
    /// The time run since it last fired or was reset.
    pub elapsed: u64,
}

/// Whether a tick of `delta` makes the timer fire. A zero interval fires on
/// every tick.
pub open spec fn fires(t: FrameTimer, delta: u64) -> bool {
    t.elapsed + delta >= t.duration
}

/// The time run after a tick of `delta`. When the timer fires it keeps only
/// the remainder past the last whole interval, so that however long the tick
/// it fires once.
pub open spec fn elapsed_after(t: FrameTimer, delta: u64) -> int {
    if !fires(t, delta) {
        t.elapsed + delta
    } else if t.duration == 0 {
        0
    } else {
        (t.elapsed + delta) % (t.duration as int)
    }
}

impl FrameTimer {
    pub open spec fn new_spec(duration: u64) -> FrameTimer {
        FrameTimer { duration, elapsed: 0 }
    }

    #[verifier::when_used_as_spec(new_spec)]
    pub fn new(duration: u64) -> (r: FrameTimer)
        ensures
            r == FrameTimer::new_spec(duration),
    {
        FrameTimer { duration, elapsed: 0 }
    }

    /// Changes the interval and keeps the time run.
    pub fn set_duration(&mut self, duration: u64)
        ensures
            *final(self) == (FrameTimer { duration, elapsed: old(self).elapsed }),
    {
        self.duration = duration;
    }

    /// Starts the interval over.
    pub fn reset(&mut self)
        ensures
            *final(self) == (FrameTimer { duration: old(self).duration, elapsed: 0 }),
    {
        self.elapsed = 0;
    }

    /// Runs the timer by `delta` and says whether it fired.
    pub fn tick(&mut self, delta: u64) -> (fired: bool)
        ensures
            fired == fires(*old(self), delta),
            final(self).duration == old(self).duration,
            final(self).elapsed == elapsed_after(*old(self), delta),
    {
        let total: u128 = self.elapsed as u128 + delta as u128;
        if total < self.duration as u128 {
            self.elapsed = total as u64;
            false
        } else {
            if self.duration == 0 {
                self.elapsed = 0;
            } else {
                let rest = total % (self.duration as u128);
                self.elapsed = rest as u64;
            }
            true
        }
    }
}

} // verus!
