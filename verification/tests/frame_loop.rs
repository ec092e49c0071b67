use particle_scene::error::ErrorKind;
use particle_scene::frame_loop::{FrameLoop, LoopState};

#[test]
fn new_loop_is_idle() {
    assert_eq!(FrameLoop::new().state(), LoopState::Idle);
}

#[test]
fn start_arms_once() {
    let mut l = FrameLoop::new();
    assert!(l.start());
    assert_eq!(l.state(), LoopState::Armed);
    assert!(!l.start());
    assert_eq!(l.state(), LoopState::Armed);
}

#[test]
fn refresh_before_start_is_no_tick() {
    let mut l = FrameLoop::new();
    assert!(!l.refresh());
    assert_eq!(l.state(), LoopState::Idle);
}

#[test]
fn each_refresh_is_one_tick_and_one_rearm() {
    let mut l = FrameLoop::new();
    l.start();
    for _ in 0..100 {
        assert!(l.refresh());
        assert_eq!(l.state(), LoopState::Ticking);
        assert!(l.finish(Ok(())));
        assert_eq!(l.state(), LoopState::Armed);
    }
}

#[test]
fn refresh_during_a_tick_is_no_second_tick() {
    let mut l = FrameLoop::new();
    l.start();
    assert!(l.refresh());
    assert!(!l.refresh());
    assert_eq!(l.state(), LoopState::Ticking);
}

#[test]
fn finish_without_a_tick_does_not_arm() {
    let mut l = FrameLoop::new();
    assert!(!l.finish(Ok(())));
    assert_eq!(l.state(), LoopState::Idle);
    l.start();
    assert!(!l.finish(Ok(())));
    assert_eq!(l.state(), LoopState::Armed);
    assert!(!l.finish(Err(ErrorKind::BufferUploadFailed)));
    assert_eq!(l.state(), LoopState::Armed);
}

#[test]
fn failed_tick_halts_the_loop() {
    for kind in [
        ErrorKind::SurfaceUnavailable,
        ErrorKind::ContextCreationFailed,
        ErrorKind::ShaderCompileFailed,
        ErrorKind::ProgramLinkFailed,
        ErrorKind::BufferUploadFailed,
    ] {
        let mut l = FrameLoop::new();
        l.start();
        l.refresh();
        assert!(!l.finish(Err(kind)));
        assert_eq!(l.state(), LoopState::Failed(kind));
        assert!(!l.refresh());
        assert!(!l.start());
        assert!(!l.finish(Ok(())));
        assert_eq!(l.state(), LoopState::Failed(kind));
        l.stop();
        assert_eq!(l.state(), LoopState::Failed(kind));
    }
}

#[test]
fn stop_ends_the_loop_from_any_state() {
    let mut l = FrameLoop::new();
    l.stop();
    assert_eq!(l.state(), LoopState::Stopped);
    assert!(!l.start());
    assert!(!l.refresh());

    let mut l = FrameLoop::new();
    l.start();
    l.stop();
    assert_eq!(l.state(), LoopState::Stopped);
    assert!(!l.refresh());

    let mut l = FrameLoop::new();
    l.start();
    l.refresh();
    l.stop();
    assert_eq!(l.state(), LoopState::Stopped);
    assert!(!l.finish(Ok(())));
    assert_eq!(l.state(), LoopState::Stopped);
}
