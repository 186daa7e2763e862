//! Immutable per-run engine settings.

use vstd::prelude::*;

verus! {

/// Settings fixed at startup: window title, window size in pixels, and the
/// target frame rate in frames per second. A `target_fps` of zero is treated
/// as one everywhere the rate is consumed (see `effective_target_fps`).
#[derive(Debug, Clone)]
pub struct EngineConfig {
    pub title: String,
    pub width: u32,
    pub height: u32,
    pub target_fps: u32,
}

/// The frame rate actually used for gating: `target_fps` clamped up to 1.
pub open spec fn spec_effective_fps(target_fps: u32) -> u32 {
    if target_fps == 0 {
        1
    } else {
        target_fps
    }
}

impl EngineConfig {
    /// The clamped frame rate this configuration gates at.
    pub fn effective_target_fps(&self) -> (fps: u32)
        ensures
            fps == spec_effective_fps(self.target_fps),
            fps >= 1,
    {
        if self.target_fps == 0 {
            1
        } else {
            self.target_fps
        }
    }
}

impl Default for EngineConfig {
    /// 1280 x 720 window at 60 frames per second.
    fn default() -> (c: Self)
        ensures
            c.title@ == "Meme Engine"@,
            c.width == 1280,
            c.height == 720,
            c.target_fps == 60,
    {
        EngineConfig {
            title: "Meme Engine".to_owned(),
            width: 1280,
            height: 720,
            target_fps: 60,
        }
    }
}

} // verus!
