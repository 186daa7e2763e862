//! The engine's event-loop state machine.
//!
//! The loop owns the timing gate and a small lifecycle: `Created` (window
//! not yet built), `Running`, and the terminal `ShuttingDown` and `Failed`.
//! The platform shell pumps window-system events, hands each one here, and
//! performs the action this module decides on: resize the renderer, run a
//! frame, request another redraw, or tear down. A frame's render outcome is
//! never an input to the machine, so a failed present cannot stop the loop.

use vstd::prelude::*;
use crate::config::EngineConfig;
use crate::error::EngineError;
use crate::timing::{spec_target_frame_nanos, FrameTiming};

verus! {

/// Lifecycle of the loop. `ShuttingDown` and `Failed` are terminal: once
/// either is entered, every further event is ignored. `ShuttingDown` is the
/// orderly end after a close request; `Failed` is a startup whose window or
/// renderer could not be built, whose error the shell propagates.
#[derive(Debug, Clone, Copy, PartialEq, Eq, Structural)]
pub enum LoopState {
    Created,
    Running,
    ShuttingDown,
    Failed,
}

/// A window-system event as the loop sees it. `RedrawRequested` carries the
/// monotonic-clock reading at which the event is handled; `Idle` is the
/// window system reporting that no event is pending.
#[derive(Debug, Clone, Copy, PartialEq, Eq, Structural)]
pub enum LoopEvent {
    CloseRequested,
    Resized { width: u32, height: u32 },
    RedrawRequested { now_nanos: u64 },
    Idle,
}

/// What the shell must do next. `RunFrame` steps physics and the scene by
/// `delta_nanos` and renders; `Shutdown` tears the renderer down before the
/// window; `RequestRedraw` keeps the loop polling; `Continue` does nothing.
#[derive(Debug, Clone, Copy, PartialEq, Eq, Structural)]
pub enum LoopAction {
    Continue,
    Resize { width: u32, height: u32 },
    RunFrame { delta_nanos: u64 },
    RequestRedraw,
    Shutdown,
}

/// The frame loop's own state: where it is in its lifecycle and the clock of
/// the frame-rate gate.
#[derive(Debug, Clone, Copy, PartialEq, Eq, Structural)]
pub struct FrameLoop {
    pub state: LoopState,
    pub timing: FrameTiming,
}

impl FrameLoop {
    /// The state and action one event produces. While running: a close
    /// request enters shutdown; a resize is forwarded; a redraw runs a frame
    /// if the frame gate allows it and is otherwise ignored without any side
    /// effect; idleness requests another redraw. Outside `Running` every
    /// event is ignored.
    pub open spec fn spec_step(self, event: LoopEvent) -> (FrameLoop, LoopAction) {
        match self.state {
            LoopState::Running => match event {
                LoopEvent::CloseRequested => (
                    FrameLoop { state: LoopState::ShuttingDown, ..self },
                    LoopAction::Shutdown,
                ),
                LoopEvent::Resized { width, height } => (
                    self,
                    LoopAction::Resize { width, height },
                ),
                LoopEvent::RedrawRequested { now_nanos } => if self.timing.spec_gate_allows(
                    now_nanos,
                ) {
                    (
                        FrameLoop { timing: self.timing.spec_advance(now_nanos), ..self },
                        LoopAction::RunFrame {
                            delta_nanos: (now_nanos - self.timing.last_frame_nanos) as u64,
                        },
                    )
                } else {
                    (self, LoopAction::Continue)
                },
                LoopEvent::Idle => (self, LoopAction::RequestRedraw),
            },
            _ => (self, LoopAction::Continue),
        }
    }

    /// A loop for the given configuration, not yet running, its gate clock
    /// started at `start_nanos`.
    pub fn new(config: &EngineConfig, start_nanos: u64) -> (l: FrameLoop)
        ensures
            l.state is Created,
            l.timing.last_frame_nanos == start_nanos,
            l.timing.target_frame_nanos == spec_target_frame_nanos(config.target_fps),
    {
        FrameLoop { state: LoopState::Created, timing: FrameTiming::new(config.target_fps, start_nanos) }
    }

    /// Enter `Running` once the shell has built the window and the renderer.
    pub fn start(&mut self)
        requires
            old(self).state is Created,
        ensures
            final(self).state is Running,
            final(self).timing == old(self).timing,
    {
        self.state = LoopState::Running;
    }

    /// Abort a startup whose window or renderer construction failed: the
    /// loop goes straight to its terminal error state without ever running.
    pub fn abort_startup(&mut self)
        requires
            old(self).state is Created,
        ensures
            final(self).state is Failed,
            final(self).timing == old(self).timing,
    {
        self.state = LoopState::Failed;
    }

    /// Handle one event: step the machine and tell the shell what to do.
    /// The clock handed in with a redraw must not run backwards past the
    /// last accepted frame (the shell reads a monotonic clock).
    pub fn handle_event(&mut self, event: &LoopEvent) -> (action: LoopAction)
        requires
            old(self).state is Running ==> ((*event) matches LoopEvent::RedrawRequested {
                now_nanos,
            } ==> old(self).timing.last_frame_nanos <= now_nanos),
        ensures
            (*final(self), action) == old(self).spec_step(*event),
    {
        match self.state {
            LoopState::Running => match event {
                LoopEvent::CloseRequested => {
                    self.state = LoopState::ShuttingDown;
                    LoopAction::Shutdown
                },
                LoopEvent::Resized { width, height } => LoopAction::Resize {
                    width: *width,
                    height: *height,
                },
                LoopEvent::RedrawRequested { now_nanos } => {
                    let last = self.timing.last_frame_nanos;
                    if self.timing.try_advance(*now_nanos) {
                        LoopAction::RunFrame { delta_nanos: *now_nanos - last }
                    } else {
                        LoopAction::Continue
                    }
                },
                LoopEvent::Idle => LoopAction::RequestRedraw,
            },
            _ => LoopAction::Continue,
        }
    }

    /// The loop's result once it has wound down: a run that reached
    /// `ShuttingDown` ends in success, whatever per-frame errors were logged
    /// along the way.
    pub fn run_result(&self) -> (r: Result<(), EngineError>)
        requires
            self.state is ShuttingDown,
        ensures
            r is Ok,
    {
        Ok(())
    }
}

/// Gate correctness: a redraw arriving before a full target interval has
/// elapsed since the last accepted frame produces no action and no state
/// change — no physics step, no scene update, no render.
pub proof fn lemma_gate_blocks_early_redraw(l: FrameLoop, now_nanos: u64)
    requires
        l.state is Running,
        !l.timing.spec_gate_allows(now_nanos),
    ensures
        l.spec_step(LoopEvent::RedrawRequested { now_nanos }) == (l, LoopAction::Continue),
{
}

/// A redraw arriving once the target interval has elapsed runs a frame: the
/// loop stays in `Running`, the frame gate clock moves to the redraw's instant,
/// and the frame is stepped by the time actually elapsed.
pub proof fn lemma_due_redraw_runs_frame(l: FrameLoop, now_nanos: u64)
    requires
        l.state is Running,
        l.timing.last_frame_nanos <= now_nanos,
        l.timing.spec_gate_allows(now_nanos),
    ensures
        l.spec_step(LoopEvent::RedrawRequested { now_nanos }) == (
            FrameLoop { timing: l.timing.spec_advance(now_nanos), ..l },
            LoopAction::RunFrame {
                delta_nanos: (now_nanos - l.timing.last_frame_nanos) as u64,
            },
        ),
{
}

/// A render failure is not fatal: the render outcome is no input to the
/// machine, so after any frame — presented or not — the loop is still
/// running, and the next redraw past the frame gate runs a frame again.
pub proof fn lemma_render_failure_does_not_stop_loop(
    l: FrameLoop,
    now_nanos: u64,
    later_nanos: u64,
)
    requires
        l.state is Running,
        l.timing.last_frame_nanos <= now_nanos,
        l.timing.spec_gate_allows(now_nanos),
        now_nanos + l.timing.target_frame_nanos <= later_nanos,
    ensures
        ({
            let (after_frame, action) = l.spec_step(LoopEvent::RedrawRequested { now_nanos });
            &&& action is RunFrame
            &&& after_frame.state is Running
            &&& after_frame.spec_step(
                LoopEvent::RedrawRequested { now_nanos: later_nanos },
            ).1 is RunFrame
        }),
{
}

/// Two frames are never accepted closer together than the target interval:
/// when a redraw at `now_nanos` runs a frame and a redraw at `later_nanos`
/// runs a frame on the stepped loop, at least one target interval separates
/// them.
pub proof fn lemma_accepted_frames_keep_their_distance(
    l: FrameLoop,
    now_nanos: u64,
    later_nanos: u64,
)
    requires
        l.state is Running,
        l.spec_step(LoopEvent::RedrawRequested { now_nanos }).1 is RunFrame,
        l.spec_step(LoopEvent::RedrawRequested { now_nanos }).0.spec_step(
            LoopEvent::RedrawRequested { now_nanos: later_nanos },
        ).1 is RunFrame,
    ensures
        later_nanos - now_nanos >= l.timing.target_frame_nanos,
{
}

/// A close request while running enters the terminal state and orders the
/// teardown; the shell releases the renderer before the window and the run
/// then ends in success.
pub proof fn lemma_close_shuts_down(l: FrameLoop)
    requires
        l.state is Running,
    ensures
        l.spec_step(LoopEvent::CloseRequested) == (
            FrameLoop { state: LoopState::ShuttingDown, ..l },
            LoopAction::Shutdown,
        ),
{
}

/// `ShuttingDown` and `Failed` are terminal: no further event changes the
/// state or orders more work.
pub proof fn lemma_shutdown_is_terminal(l: FrameLoop, event: LoopEvent)
    requires
        l.state is ShuttingDown || l.state is Failed,
    ensures
        l.spec_step(event) == (l, LoopAction::Continue),
{
}

} // verus!
