use meme_engine::config::EngineConfig;
use meme_engine::frame_loop::{FrameLoop, LoopAction, LoopEvent, LoopState};
use meme_engine::timing::FrameTiming;

fn running_loop(target_fps: u32, start_nanos: u64) -> FrameLoop {
    let config = EngineConfig {
        title: "test".to_string(),
        width: 640,
        height: 480,
        target_fps,
    };
    let mut l = FrameLoop::new(&config, start_nanos);
    l.start();
    l
}

#[test]
fn gate_blocks_redraw_before_interval() {
    let mut l = running_loop(60, 0);
    // 60 fps -> 16_666_666 ns between frames; 1 ms is far too early.
    let action = l.handle_event(&LoopEvent::RedrawRequested { now_nanos: 1_000_000 });
    assert_eq!(action, LoopAction::Continue);
    assert_eq!(l.state, LoopState::Running);
    assert_eq!(l.timing.last_frame_nanos, 0);
}

#[test]
fn gate_allows_redraw_at_interval() {
    let mut l = running_loop(60, 0);
    let action = l.handle_event(&LoopEvent::RedrawRequested { now_nanos: 16_666_666 });
    assert_eq!(action, LoopAction::RunFrame { delta_nanos: 16_666_666 });
    assert_eq!(l.timing.last_frame_nanos, 16_666_666);
}

#[test]
fn gate_is_a_floor_not_an_accumulator() {
    let mut l = running_loop(60, 0);
    // A slow frame arrives 50 ms late; the clock jumps to now, so no debt
    // is carried into the next interval.
    let action = l.handle_event(&LoopEvent::RedrawRequested { now_nanos: 50_000_000 });
    assert_eq!(action, LoopAction::RunFrame { delta_nanos: 50_000_000 });
    assert_eq!(l.timing.last_frame_nanos, 50_000_000);
    let blocked = l.handle_event(&LoopEvent::RedrawRequested { now_nanos: 51_000_000 });
    assert_eq!(blocked, LoopAction::Continue);
}

#[test]
fn zero_target_fps_gates_as_one() {
    let t_zero = FrameTiming::new(0, 0);
    let t_one = FrameTiming::new(1, 0);
    assert_eq!(t_zero.target_frame_nanos, 1_000_000_000);
    assert_eq!(t_zero.target_frame_nanos, t_one.target_frame_nanos);
}

#[test]
fn resize_event_is_forwarded() {
    let mut l = running_loop(60, 0);
    let action = l.handle_event(&LoopEvent::Resized { width: 800, height: 600 });
    assert_eq!(action, LoopAction::Resize { width: 800, height: 600 });
    assert_eq!(l.state, LoopState::Running);
}

#[test]
fn idle_requests_redraw() {
    let mut l = running_loop(60, 0);
    let action = l.handle_event(&LoopEvent::Idle);
    assert_eq!(action, LoopAction::RequestRedraw);
}

#[test]
fn close_transitions_to_shutting_down_and_run_succeeds() {
    let mut l = running_loop(60, 0);
    let action = l.handle_event(&LoopEvent::CloseRequested);
    assert_eq!(action, LoopAction::Shutdown);
    assert_eq!(l.state, LoopState::ShuttingDown);
    assert!(l.run_result().is_ok());
}

#[test]
fn shutdown_is_terminal() {
    let mut l = running_loop(60, 0);
    l.handle_event(&LoopEvent::CloseRequested);
    let after = l.handle_event(&LoopEvent::RedrawRequested { now_nanos: u64::MAX });
    assert_eq!(after, LoopAction::Continue);
    assert_eq!(l.state, LoopState::ShuttingDown);
    let idle = l.handle_event(&LoopEvent::Idle);
    assert_eq!(idle, LoopAction::Continue);
}

#[test]
fn render_failure_does_not_stop_the_loop() {
    let mut l = running_loop(60, 0);
    // First due redraw runs a frame...
    let first = l.handle_event(&LoopEvent::RedrawRequested { now_nanos: 20_000_000 });
    assert!(matches!(first, LoopAction::RunFrame { .. }));
    // ...whose present fails. The outcome never reaches the loop, so the
    // next due redraw runs a frame again.
    let present = meme_engine::renderer::present_result(false, "device removed");
    assert!(present.is_err());
    assert_eq!(l.state, LoopState::Running);
    let second = l.handle_event(&LoopEvent::RedrawRequested { now_nanos: 40_000_000 });
    assert_eq!(second, LoopAction::RunFrame { delta_nanos: 20_000_000 });
}

#[test]
fn failed_startup_is_terminal() {
    let config = EngineConfig::default();
    let mut l = FrameLoop::new(&config, 0);
    l.abort_startup();
    assert_eq!(l.state, LoopState::Failed);
    let action = l.handle_event(&LoopEvent::Idle);
    assert_eq!(action, LoopAction::Continue);
}

#[test]
fn default_config_values() {
    let config = EngineConfig::default();
    assert_eq!(config.title, "Meme Engine");
    assert_eq!(config.width, 1280);
    assert_eq!(config.height, 720);
    assert_eq!(config.target_fps, 60);
    assert_eq!(config.effective_target_fps(), 60);
    let zero = EngineConfig { target_fps: 0, ..EngineConfig::default() };
    assert_eq!(zero.effective_target_fps(), 1);
}
