//! The per-frame profiler: a `FrameClock` driven by the real monotonic
//! clock, one `update` per rendered frame.

use vstd::prelude::*;
use crate::clock::{millis_elapsed, monotonic_now};
use crate::frame_clock::{sample_step, FrameClock};

verus! {

/// Frame-rate profiler over the platform clock. The timeline handed to the
/// embedded `FrameClock` is milliseconds since `started`, clamped to `u64`.
pub struct Profiler {
    /// Clock reading taken at construction; origin of the timeline.
    pub started: instant::Instant,
    /// The verified estimator state.
    pub clock: FrameClock,
}

impl Profiler {
    /// A fresh profiler: no frames counted, rate zero, timeline starting now.
    pub fn new() -> (p: Profiler)
        ensures
            p.clock.last_sample_time == 0,
            p.clock.frame_count == 0,
            p.clock.current_fps_milli == 0,
    {
        Profiler { started: monotonic_now(), clock: FrameClock::new(0) }
    }

    /// Count one rendered frame and report the current rate in millihertz.
    ///
    /// The timestamp comes from the platform clock, so which branch of the
    /// estimator runs is not known here; whatever the clock read, the state
    /// advances by exactly one estimator step at that reading.
    pub fn update(&mut self) -> (fps_milli: u64)
        ensures
            exists|now_ms: u64| final(self).clock == sample_step(old(self).clock, now_ms),
            fps_milli == final(self).clock.current_fps_milli,
    {
        let elapsed: u128 = millis_elapsed(&self.started);
        let now_ms: u64 = if elapsed > u64::MAX as u128 {
            u64::MAX
        } else {
            elapsed as u64
        };
        let fps: u64 = self.clock.sample(now_ms);
        proof {
            assert(self.clock == sample_step(old(self).clock, now_ms));
        }
        fps
    }
}

impl Default for Profiler {
    /// Same as `Profiler::new`.
    fn default() -> (p: Profiler)
        ensures
            p.clock.last_sample_time == 0,
            p.clock.frame_count == 0,
            p.clock.current_fps_milli == 0,
    {
        Profiler::new()
    }
}

} // verus!
