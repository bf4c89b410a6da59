//! The clock gating that ties instruction execution to the audio
//! sample clock: one instruction every `sample_rate / clock_speed`
//! output samples.
//!
//! The host calls `tick` once per output sample; the result says
//! whether the CPU executes an instruction this sample. The stall
//! counter is kept exactly, scaled by `clock_speed`, so no drift ever
//! accumulates. A clock is built for one (sample rate, clock speed)
//! pair; when the host changes either, it builds a new one.

use vstd::prelude::*;

verus! {

/// The per-sample instruction governor.
#[derive(Clone, Copy, Debug, PartialEq, Eq, Structural)]
pub struct SampleClock {
    /// Output samples per second, at least 1.
    pub sample_rate: u32,
    /// Target instructions per second, 1..=1_000_000.
    pub clock_speed: u32,
    /// The stall counter, scaled by `clock_speed`: the number of
    /// output samples until the next instruction is
    /// `counter / clock_speed`.
    pub counter: i64,
}

/// An integer clamped into the i64 range.
pub open spec fn spec_sat_i64(x: int) -> i64 {
    if x < i64::MIN {
        i64::MIN
    } else if x > i64::MAX {
        i64::MAX
    } else {
        x as i64
    }
}

/// Whether this sample executes an instruction: the clock runs and
/// the stall counter has reached zero.
pub open spec fn spec_clock_fire(c: SampleClock, clock_running: bool) -> bool {
    clock_running && c.counter <= 0
}

/// The governor state after one sample: a stopped clock rests at zero; a
/// firing tick adds one instruction interval (`sample_rate` in
/// counter units) before the one-sample countdown of `clock_speed`
/// units.
pub open spec fn spec_clock_next(c: SampleClock, clock_running: bool) -> SampleClock {
    if !clock_running {
        SampleClock { counter: 0, ..c }
    } else {
        let after = if c.counter <= 0 {
            c.counter + c.sample_rate
        } else {
            c.counter as int
        };
        SampleClock { counter: spec_sat_i64(after - c.clock_speed), ..c }
    }
}

impl SampleClock {
    pub open spec fn wf(&self) -> bool {
        &&& 1 <= self.sample_rate
        &&& 1 <= self.clock_speed <= 1_000_000
        &&& self.counter <= self.sample_rate
    }

    /// A fresh governor that fires on its first running tick.
    pub fn new(sample_rate: u32, clock_speed: u32) -> (c: SampleClock)
        requires
            1 <= sample_rate,
            1 <= clock_speed <= 1_000_000,
        ensures
            c.wf(),
            c == (SampleClock { sample_rate, clock_speed, counter: 0 }),
    {
        SampleClock { sample_rate, clock_speed, counter: 0 }
    }

    /// One output sample passes; the result says whether the CPU
    /// executes an instruction on this sample.
    pub fn tick(&mut self, clock_running: bool) -> (fire: bool)
        requires
            old(self).wf(),
        ensures
            final(self).wf(),
            fire == spec_clock_fire(*old(self), clock_running),
            *final(self) == spec_clock_next(*old(self), clock_running),
    {
        if !clock_running {
            self.counter = 0;
            return false;
        }
        let fire = self.counter <= 0;
        if fire {
            self.counter = self.counter + (self.sample_rate as i64);
        }
        let step = self.clock_speed as i64;
        self.counter = if self.counter >= i64::MIN + step {
            self.counter - step
        } else {
            i64::MIN
        };
        fire
    }
}

} // verus!
