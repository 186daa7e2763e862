//! Verified core of a minimal real-time rendering engine.
//!
//! The library models the engine's decision logic: run configuration,
//! frame-rate gating, the swapchain resize/view lifecycle, the per-frame
//! render command sequence, and the event-loop state machine. Platform
//! work (window system, graphics device, physics stepping) is performed
//! by an unverified shell that consults this library for every decision.

pub mod config;
pub mod error;
pub mod frame_loop;
pub mod geometry;
pub mod renderer;
pub mod timing;

pub use config::EngineConfig;
pub use error::{EngineError, EngineResult};
pub use frame_loop::{FrameLoop, LoopAction, LoopEvent, LoopState};
pub use renderer::{ClearColor, RenderCommand, RenderFrame, Renderer, ResizeCommand, ViewSet};
pub use timing::FrameTiming;
