//! The clock that paces the snake independently of the frame rate.

use vstd::prelude::*;

verus! {

/// Accumulates elapsed time and fires once a whole period has gone by.
///
/// Time is counted in whole units of the host's choosing; the engine uses
/// nanoseconds. When the clock fires it starts again from zero: time beyond
/// the period is dropped, not carried into the next period.
pub struct TickClock {
    accumulated: u64,
}

impl View for TickClock {
    type V = nat;

    /// The time accumulated since the clock last fired.
    closed spec fn view(&self) -> nat {
        self.accumulated as nat
    }
}

impl TickClock {
    /// A clock with nothing accumulated.
    pub fn new() -> (clock: Self)
        ensures
            clock@ == 0,
    {
        TickClock { accumulated: 0 }
    }

    /// The time accumulated since the clock last fired.
    pub fn accumulated(&self) -> (t: u64)
        ensures
            t == self@,
    {
        self.accumulated
    }

    /// Adds `delta` to the accumulated time.
    pub fn accumulate(&mut self, delta: u64)
        requires
            old(self)@ + delta <= u64::MAX,
        ensures
            final(self)@ == old(self)@ + delta,
    {
        self.accumulated = self.accumulated + delta;
    }

    /// Fires if at least `period` has accumulated. A clock that fires starts
    /// again from zero; one that does not is left untouched.
    pub fn try_fire(&mut self, period: u64) -> (fired: bool)
        ensures
            fired == (old(self)@ >= period),
            final(self)@ == if fired { 0 } else { old(self)@ },
    {
        if self.accumulated >= period {
            self.accumulated = 0;
            true
        } else {
            false
        }
    }

    /// Accumulates `delta` and then tries to fire, in one step that cannot
    /// overflow whatever `delta` is.
    pub fn tick(&mut self, delta: u64, period: u64) -> (fired: bool)
        ensures
            fired == (old(self)@ + delta >= period),
            final(self)@ == if fired { 0 } else { old(self)@ + delta },
    {
        if self.accumulated >= period || delta >= period - self.accumulated {
            self.accumulated = 0;
            true
        } else {
            self.accumulated = self.accumulated + delta;
            false
        }
    }

    /// Drops whatever has accumulated.
    pub fn reset(&mut self)
        ensures
            final(self)@ == 0,
    {
        self.accumulated = 0;
    }
}

} // verus!
