//! Frame-rate estimation over an integer millisecond timeline.
//!
//! A `FrameClock` counts rendered frames and, once at least a second has
//! elapsed since the last window boundary, recomputes the rate for the
//! completed window. The rate is reported in millihertz (frames per second
//! scaled by 1000) so that the whole computation stays in integers. Within
//! a window the reported rate is deliberately stale: it is the rate of the
//! last completed window, not an instantaneous one.

use vstd::prelude::*;

verus! {

/// Milliseconds in one rate window.
pub const WINDOW_MILLIS: u64 = 1000;

/// Scale factor from frames-per-millisecond to millihertz.
pub const MILLI_SCALE: u64 = 1000000;

/// State of the frame-rate estimator, over a caller-supplied monotonic
/// millisecond timeline.
#[derive(Clone, Copy, PartialEq, Eq, Structural, Debug)]
pub struct FrameClock {
    /// Timestamp (milliseconds) of the last rate-window boundary.
    pub last_sample_time: u64,
    /// Frames counted since `last_sample_time`.
    pub frame_count: u32,
    /// Rate computed at the last boundary, in millihertz.
    pub current_fps_milli: u64,
}

/// A sample at `now_ms` crosses a window boundary when at least a full
/// window has elapsed since the last boundary. A timestamp that sits before
/// the last boundary (a clock anomaly) never crosses.
pub open spec fn boundary_reached(c: FrameClock, now_ms: u64) -> bool {
    now_ms >= c.last_sample_time && now_ms - c.last_sample_time >= WINDOW_MILLIS
}

/// A sample at `now_ms` falls inside the current window.
pub open spec fn in_window(c: FrameClock, now_ms: u64) -> bool {
    !boundary_reached(c, now_ms)
}

/// Frames counted once the present frame is included; the counter
/// saturates rather than wraps.
pub open spec fn counted_frames(c: FrameClock) -> u32 {
    if c.frame_count == u32::MAX {
        u32::MAX
    } else {
        (c.frame_count + 1) as u32
    }
}

/// The rate for a completed window, in millihertz: frames divided by the
/// window length in seconds, scaled by 1000, rounded toward zero.
pub open spec fn rate_milli(frames: int, elapsed_ms: int) -> int
    recommends
        elapsed_ms > 0,
{
    frames * MILLI_SCALE / elapsed_ms
}

/// What one call of `sample` does to the estimator state.
pub open spec fn sample_step(c: FrameClock, now_ms: u64) -> FrameClock {
    if boundary_reached(c, now_ms) {
        FrameClock {
            last_sample_time: now_ms,
            frame_count: 0,
            current_fps_milli: rate_milli(counted_frames(c) as int, now_ms - c.last_sample_time) as u64,
        }
    } else {
        FrameClock {
            last_sample_time: c.last_sample_time,
            frame_count: counted_frames(c),
            current_fps_milli: c.current_fps_milli,
        }
    }
}

/// The estimator state after a whole run of samples, earliest first.
pub open spec fn sample_run(c: FrameClock, times: Seq<u64>) -> FrameClock
    decreases times.len(),
{
    if times.len() == 0 {
        c
    } else {
        sample_run(sample_step(c, times[0]), times.drop_first())
    }
}

impl FrameClock {
    /// A fresh clock: no frames counted, rate zero, window starting at `now_ms`.
    pub fn new(now_ms: u64) -> (c: FrameClock)
        ensures
            c.last_sample_time == now_ms,
            c.frame_count == 0,
            c.current_fps_milli == 0,
    {
        FrameClock { last_sample_time: now_ms, frame_count: 0, current_fps_milli: 0 }
    }

    /// Count one rendered frame at time `now_ms` and report the current rate.
    ///
    /// Inside the current window only the frame counter moves; at a boundary
    /// the rate is recomputed from the frames of the completed window
    /// (including this one), the counter resets to zero, and the boundary
    /// advances to `now_ms`.
    pub fn sample(&mut self, now_ms: u64) -> (fps_milli: u64)
        ensures
            *final(self) == sample_step(*old(self), now_ms),
            fps_milli == final(self).current_fps_milli,
            in_window(*old(self), now_ms) ==> {
                &&& final(self).current_fps_milli == old(self).current_fps_milli
                &&& final(self).last_sample_time == old(self).last_sample_time
                &&& final(self).frame_count == counted_frames(*old(self))
            },
            boundary_reached(*old(self), now_ms) ==> {
                &&& final(self).frame_count == 0
                &&& final(self).last_sample_time == now_ms
                &&& final(self).current_fps_milli == rate_milli(
                    counted_frames(*old(self)) as int,
                    now_ms - old(self).last_sample_time,
                )
            },
    {
        let counted: u32 = if self.frame_count == u32::MAX {
            u32::MAX
        } else {
            self.frame_count + 1
        };
        if now_ms >= self.last_sample_time && now_ms - self.last_sample_time >= WINDOW_MILLIS {
            let elapsed_ms: u64 = now_ms - self.last_sample_time;
            assert((counted as u64) * MILLI_SCALE <= (u32::MAX as u64) * MILLI_SCALE)
                by (nonlinear_arith)
                requires counted <= u32::MAX,
            ;
            let scaled: u64 = (counted as u64) * MILLI_SCALE;
            let rate: u64 = scaled / elapsed_ms;
            self.last_sample_time = now_ms;
            self.frame_count = 0;
            self.current_fps_milli = rate;
        } else {
            self.frame_count = counted;
        }
        self.current_fps_milli
    }
}

/// Law: over a run of samples that all fall inside the current window, the
/// reported rate never changes, and the window boundary stays where it was.
pub proof fn lemma_fps_stable_within_window(c: FrameClock, times: Seq<u64>)
    requires
        forall|i: int| 0 <= i < times.len() ==> in_window(c, #[trigger] times[i]),
    ensures
        sample_run(c, times).current_fps_milli == c.current_fps_milli,
        sample_run(c, times).last_sample_time == c.last_sample_time,
    decreases times.len(),
{
    if times.len() > 0 {
        let c1 = sample_step(c, times[0]);
        assert(c1.last_sample_time == c.last_sample_time);
        assert(c1.current_fps_milli == c.current_fps_milli);
        assert forall|i: int| 0 <= i < times.drop_first().len() implies in_window(
            c1,
            #[trigger] times.drop_first()[i],
        ) by {
            assert(times.drop_first()[i] == times[i + 1]);
        }
        lemma_fps_stable_within_window(c1, times.drop_first());
    }
}

} // verus!
