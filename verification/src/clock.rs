use vstd::prelude::*;

verus! {

pub const CLOCK_HZ: u32 = 4_194_304;

pub const MAX_FPS: u32 = 60;

/// Clock cycles in one frame: `CLOCK_HZ / MAX_FPS`.
pub const MAX_CYCLES_PER_FRAME: u32 = 69_905;

/// The clock runs at 4.194304 MHz. This means that each clock cycle
/// takes 1/4.194304 MHz = 0.238 μs = 238 ns. The CPU clock is also
/// referred to as the “T-cycle”. This can be divided by 4 to get the
/// machine cycle (M-cycle) which is 1.048576 MHz.
#[derive(Debug, Clone, Copy, PartialEq, Eq, Structural)]
pub struct Clock {
    pub t: u32,
    pub m: u32,
}

/// The frame budget is the clock rate divided by the frame rate.
pub proof fn lemma_frame_budget()
    ensures
        MAX_CYCLES_PER_FRAME == CLOCK_HZ / MAX_FPS,
{
}

impl Clock {
    /// Whether a step of `t_cycles` keeps both counters inside `u32`.
    pub open spec fn step_ok(self, t_cycles: u32) -> bool {
        self.t + t_cycles <= u32::MAX && self.m + t_cycles / 4 <= u32::MAX
    }

    pub fn new() -> (r: Self)
        ensures
            r.t == 0 && r.m == 0,
    {
        Self { t: 0, m: 0 }
    }

    pub fn reset(&mut self)
        ensures
            final(self).t == 0 && final(self).m == 0,
    {
        self.t = 0;
        self.m = 0;
    }

    /// Counts `t_cycles` clock cycles, and a machine cycle for every four of them.
    pub fn step(&mut self, t_cycles: u32)
        requires
            old(self).step_ok(t_cycles),
        ensures
            final(self).t == old(self).t + t_cycles,
            final(self).m == old(self).m + t_cycles / 4,
    {
        self.t = self.t + t_cycles;
        self.m = self.m + t_cycles / 4;
    }
}

/// Nanoseconds between two frames at `MAX_FPS` frames per second.
pub const FRAME_INTERVAL_NANOS: u64 = 16_666_666;

/// The longest gap, in nanoseconds, that counts towards frames (250 ms): after a longer pause
/// the emulation does not try to catch up beyond it.
pub const MAX_ACCUMULATED_NANOS: u64 = 250_000_000;

/// The nanoseconds that count towards frames: those left over before, and those elapsed since,
/// cut to `MAX_ACCUMULATED_NANOS`.
pub open spec fn counted_nanos(accumulated: u64, elapsed: u64) -> int {
    accumulated + if elapsed < MAX_ACCUMULATED_NANOS { elapsed as int } else { MAX_ACCUMULATED_NANOS as int }
}

/// The frame interval is a second divided by the frame rate.
pub proof fn lemma_frame_interval()
    ensures
        FRAME_INTERVAL_NANOS == 1_000_000_000u64 / (MAX_FPS as u64),
{
    assert(1_000_000_000u64 / 60u64 == 16_666_666u64) by (nonlinear_arith);
}

/// Frame pacing: with `accumulated` nanoseconds left over from before and `elapsed`
/// nanoseconds since the last call, the number of frames to run now and the nanoseconds left
/// over after them. Every whole frame interval of the counted time is one frame.
pub fn frames_due(accumulated: u64, elapsed: u64) -> (r: (u64, u64))
    requires
        counted_nanos(accumulated, elapsed) <= u64::MAX,
    ensures
        r.0 == counted_nanos(accumulated, elapsed) / (FRAME_INTERVAL_NANOS as int),
        r.1 == counted_nanos(accumulated, elapsed) % (FRAME_INTERVAL_NANOS as int),
        r.1 < FRAME_INTERVAL_NANOS,
{
    let counted = if elapsed < MAX_ACCUMULATED_NANOS { elapsed } else { MAX_ACCUMULATED_NANOS };
    let total = accumulated + counted;
    (total / FRAME_INTERVAL_NANOS, total % FRAME_INTERVAL_NANOS)
}

} // verus!
