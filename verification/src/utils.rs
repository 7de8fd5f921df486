//! Time keeping: the millisecond clock, the busy wait's test, and the
//! once-a-second sample of how many ticks the game has played.
//!
//! Each counter has one writer. The clock is advanced by the handler of the
//! millisecond timer alone; the tick count is advanced by the game loop and
//! sampled by the same timer handler.

use vstd::prelude::*;

verus! {

/// Whether the autopilot plays in place of the buttons, and the throughput
/// is sampled.
pub const BENCHMARK_MODE: bool = true;

/// Number of milliseconds between two samples of the throughput.
pub const SAMPLE_PERIOD_MS: u32 = 1000;

/// The millisecond clock.
#[derive(Copy, Clone, Debug, PartialEq, Eq, Structural)]
pub struct MsClock {
    ms_ticks: u32,
}

impl MsClock {
    /// Milliseconds counted so far.
    pub closed spec fn millis(&self) -> int {
        self.ms_ticks as int
    }

    /// A clock at zero.
    pub fn new() -> (clock: MsClock)
        ensures
            clock.millis() == 0,
    {
        MsClock { ms_ticks: 0 }
    }

    /// Milliseconds counted so far.
    pub fn now(&self) -> (ms: u32)
        ensures
            ms == self.millis(),
    {
        self.ms_ticks
    }

    /// Counts one millisecond and returns the new time.
    pub fn advance(&mut self) -> (ms: u32)
        requires
            old(self).millis() < u32::MAX,
        ensures
            final(self).millis() == old(self).millis() + 1,
            ms == final(self).millis(),
    {
        self.ms_ticks += 1;
        self.ms_ticks
    }
}

/// Tells whether a wait of `num_ticks` milliseconds that began at `start`
/// is over at the time `now`.
pub fn delay_elapsed(start: u32, now: u32, num_ticks: u32) -> (over: bool)
    requires
        start <= now,
    ensures
        over == (now - start >= num_ticks),
{
    !(now - start < num_ticks)
}

/// Count of the game's ticks, sampled once a second.
#[derive(Copy, Clone, Debug, PartialEq, Eq, Structural)]
pub struct Throughput {
    frame_count: u32,
    last_frame_count: u32,
}

impl Throughput {
    /// Ticks played since the last sample.
    pub closed spec fn running(&self) -> int {
        self.frame_count as int
    }

    /// Ticks played in the second before the last sample.
    pub closed spec fn sampled(&self) -> int {
        self.last_frame_count as int
    }

    /// Counters at zero.
    pub fn new() -> (stats: Throughput)
        ensures
            stats.running() == 0,
            stats.sampled() == 0,
    {
        Throughput { frame_count: 0, last_frame_count: 0 }
    }

    /// Ticks played since the last sample.
    pub fn frame_count(&self) -> (n: u32)
        ensures
            n == self.running(),
    {
        self.frame_count
    }

    /// Ticks played in the second before the last sample.
    pub fn last_frame_count(&self) -> (n: u32)
        ensures
            n == self.sampled(),
    {
        self.last_frame_count
    }

    /// Counts one tick of the game.
    pub fn count_tick(&mut self)
        requires
            old(self).running() < u32::MAX,
        ensures
            final(self).running() == old(self).running() + 1,
            final(self).sampled() == old(self).sampled(),
    {
        self.frame_count += 1;
    }

    /// Handles the millisecond timer at the time `ms_ticks`: on every full
    /// second of a benchmark the running count becomes the sample and
    /// starts again at zero.
    pub fn on_systick(&mut self, ms_ticks: u32)
        ensures
            BENCHMARK_MODE && ms_ticks % SAMPLE_PERIOD_MS == 0 ==> final(self).sampled() == old(
                self,
            ).running() && final(self).running() == 0,
            !(BENCHMARK_MODE && ms_ticks % SAMPLE_PERIOD_MS == 0) ==> *final(self) == *old(self),
    {
        if BENCHMARK_MODE {
            if ms_ticks % SAMPLE_PERIOD_MS == 0 {
                self.last_frame_count = self.frame_count;
                self.frame_count = 0;
            }
        }
    }
}

} // verus!
