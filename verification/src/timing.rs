//! Frame-rate gating.
//!
//! The loop advances a frame only when at least one target frame interval has
//! elapsed since the last accepted frame. On advance the clock is set to the
//! current instant rather than incremented by the interval, so a slow frame
//! does not accumulate debt: the frame gate is a floor, not a fixed-step
//! accumulator. Time is carried as whole nanoseconds on a monotonic clock.

use vstd::prelude::*;
use crate::config::spec_effective_fps;

verus! {

pub const NANOS_PER_SECOND: u64 = 1_000_000_000;

/// The minimum number of nanoseconds between accepted frames for a requested
/// frame rate: one second divided by the rate, the rate clamped up to 1.
pub open spec fn spec_target_frame_nanos(target_fps: u32) -> u64 {
    (NANOS_PER_SECOND / spec_effective_fps(target_fps) as u64) as u64
}

/// A requested rate of zero gates exactly as a rate of one does.
pub proof fn lemma_zero_fps_gates_as_one()
    ensures
        spec_target_frame_nanos(0) == spec_target_frame_nanos(1),
        spec_target_frame_nanos(0) == NANOS_PER_SECOND,
{
    assert(spec_effective_fps(0) == 1);
    assert(spec_effective_fps(1) == 1);
    assert(NANOS_PER_SECOND as int / 1int == NANOS_PER_SECOND as int);
}

/// Mutable clock state of the frame loop: the instant of the last accepted
/// frame and the minimum interval between accepted frames.
#[derive(Debug, Clone, Copy, PartialEq, Eq, Structural)]
pub struct FrameTiming {
    pub last_frame_nanos: u64,
    pub target_frame_nanos: u64,
}

impl FrameTiming {
    /// Clock state at startup: no interval has elapsed yet, and the interval
    /// is derived from the configured rate, zero clamped to one.
    pub fn new(target_fps: u32, start_nanos: u64) -> (t: FrameTiming)
        ensures
            t.last_frame_nanos == start_nanos,
            t.target_frame_nanos == spec_target_frame_nanos(target_fps),
    {
        let fps: u32 = if target_fps == 0 {
            1
        } else {
            target_fps
        };
        FrameTiming {
            last_frame_nanos: start_nanos,
            target_frame_nanos: NANOS_PER_SECOND / (fps as u64),
        }
    }

    /// Whether a frame arriving at `now_nanos` passes the frame gate.
    pub open spec fn spec_gate_allows(self, now_nanos: u64) -> bool {
        now_nanos - self.last_frame_nanos >= self.target_frame_nanos
    }

    /// Clock state after accepting a frame at `now_nanos`.
    pub open spec fn spec_advance(self, now_nanos: u64) -> FrameTiming {
        FrameTiming { last_frame_nanos: now_nanos, ..self }
    }

    /// Advance the frame gate if it allows a frame at `now_nanos`. Returns whether
    /// the frame was accepted; a rejected frame leaves the clock untouched,
    /// so the interval keeps running from the last accepted frame.
    pub fn try_advance(&mut self, now_nanos: u64) -> (accepted: bool)
        requires
            old(self).last_frame_nanos <= now_nanos,
        ensures
            accepted == old(self).spec_gate_allows(now_nanos),
            accepted ==> *final(self) == old(self).spec_advance(now_nanos),
            !accepted ==> *final(self) == *old(self),
            final(self).target_frame_nanos == old(self).target_frame_nanos,
            final(self).last_frame_nanos <= now_nanos,
    {
        if now_nanos - self.last_frame_nanos >= self.target_frame_nanos {
            self.last_frame_nanos = now_nanos;
            true
        } else {
            false
        }
    }
}

} // verus!
