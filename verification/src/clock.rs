//! The simulation clock.
//!
//! Time is counted in ticks. One tick is one sub-step of the simulation, and
//! `TICKS_PER_TIME_UNIT` ticks make up one unit of simulated time, so the
//! time increment of a sub-step is exactly `1 / TICKS_PER_TIME_UNIT`.

use vstd::prelude::*;

verus! {

/// Number of ticks in one unit of simulated time.
pub const TICKS_PER_TIME_UNIT: u64 = 100;

/// A clock that only moves forward, one tick at a time, until it is reset.
#[derive(Clone, Copy, Debug, PartialEq, Eq)]
pub struct SimulationClock {
    ticks: u64,
}

impl SimulationClock {
    /// The number of ticks since the clock was created or last reset.
    pub closed spec fn spec_ticks(&self) -> nat {
        self.ticks as nat
    }

    /// A clock at time zero.
    pub fn new() -> (clock: Self)
        ensures
            clock.spec_ticks() == 0,
    {
        SimulationClock { ticks: 0 }
    }

    /// The number of ticks since the clock was created or last reset.
    pub fn ticks(&self) -> (t: u64)
        ensures
            t == self.spec_ticks(),
    {
        self.ticks
    }

    /// Moves the clock forward by one tick.
    pub fn advance(&mut self)
        requires
            old(self).spec_ticks() < u64::MAX,
        ensures
            final(self).spec_ticks() == old(self).spec_ticks() + 1,
    {
        self.ticks = self.ticks + 1;
    }

    /// Puts the clock back to time zero.
    pub fn reset(&mut self)
        ensures
            final(self).spec_ticks() == 0,
    {
        self.ticks = 0;
    }
}

} // verus!
