use talan::frame_loop::{CallbackOutcome, FrameInput, FrameLoop, LoopCtrl, LoopState, StepExit};
use talan::init;
use talan::platform::InputEvent;

fn ctrl(callback: CallbackOutcome, now: u64) -> LoopCtrl {
    LoopCtrl { prepare_ok: true, callback, render_ok: true, present_ok: true, now }
}

fn frame(callback: CallbackOutcome, now: u64) -> FrameInput {
    FrameInput { events: Vec::new(), ctrl: ctrl(callback, now) }
}

#[test]
fn loop_renders_once_per_iteration_and_keeps_running() {
    let sys = init(&b"App"[..], 100);
    let inputs: Vec<FrameInput> =
        (1..=5).map(|k| frame(CallbackOutcome::KeepRunning, k)).collect();
    let sys = sys.main_loop(&inputs);
    assert_eq!(sys.frame.state, LoopState::Running);
    assert_eq!(sys.frame.frames_begun, 5);
    assert_eq!(sys.frame.frames_rendered, 5);
    assert_eq!(sys.frame.frames_presented, 5);
    assert_eq!(sys.frame.targets_acquired, sys.frame.targets_released);
}

#[test]
fn callback_exit_renders_one_final_frame() {
    let sys = init(&b"App"[..], 100);
    let mut inputs: Vec<FrameInput> = Vec::new();
    inputs.push(frame(CallbackOutcome::KeepRunning, 1));
    inputs.push(frame(CallbackOutcome::KeepRunning, 2));
    inputs.push(frame(CallbackOutcome::RequestExit, 3));
    // inputs past the exit frame must never be consumed
    inputs.push(frame(CallbackOutcome::KeepRunning, 4));
    inputs.push(frame(CallbackOutcome::KeepRunning, 5));
    let sys = sys.main_loop(&inputs);
    assert_eq!(sys.frame.state, LoopState::Exiting);
    assert_eq!(sys.frame.frames_begun, 3);
    assert_eq!(sys.frame.frames_rendered, 3);
    assert_eq!(sys.frame.frames_presented, 3);
    assert_eq!(sys.frame.last_frame, 3);
}

#[test]
fn close_request_finishes_the_iteration_then_exits() {
    let mut sys = init(&b"App"[..], 100);
    let input = FrameInput {
        events: vec![InputEvent::CursorMoved { x: 4, y: 5 }, InputEvent::CloseRequested],
        ctrl: ctrl(CallbackOutcome::KeepRunning, 10),
    };
    let exit = sys.step_frame(&input);
    assert_eq!(exit, StepExit::CleanExit);
    assert_eq!(sys.frame.state, LoopState::Exiting);
    // the final frame was still rendered and presented
    assert_eq!(sys.frame.frames_rendered, 1);
    assert_eq!(sys.frame.frames_presented, 1);
    // events before the close request were still translated
    assert_eq!(sys.bridge.cursor_x, 4);
    assert_eq!(sys.bridge.cursor_y, 5);
}

#[test]
fn callback_failure_never_leaks_a_render_target() {
    let mut fl = FrameLoop::new();
    let exit = fl.step(false, &ctrl(CallbackOutcome::Failed, 1));
    assert_eq!(exit, StepExit::FatalError);
    assert_eq!(fl.state, LoopState::Exiting);
    assert_eq!(fl.frames_begun, 1);
    assert_eq!(fl.frames_rendered, 0);
    assert_eq!(fl.targets_acquired, fl.targets_released);
}

#[test]
fn render_failure_discards_the_target_and_exits() {
    let mut fl = FrameLoop::new();
    let c = LoopCtrl {
        prepare_ok: true,
        callback: CallbackOutcome::KeepRunning,
        render_ok: false,
        present_ok: true,
        now: 1,
    };
    let exit = fl.step(false, &c);
    assert_eq!(exit, StepExit::FatalError);
    assert_eq!(fl.state, LoopState::Exiting);
    assert_eq!(fl.frames_rendered, 0);
    assert_eq!(fl.frames_presented, 0);
    assert_eq!(fl.targets_acquired, 1);
    assert_eq!(fl.targets_released, 1);
}

#[test]
fn swap_failure_exits_after_render() {
    let mut fl = FrameLoop::new();
    let c = LoopCtrl {
        prepare_ok: true,
        callback: CallbackOutcome::KeepRunning,
        render_ok: true,
        present_ok: false,
        now: 1,
    };
    let exit = fl.step(false, &c);
    assert_eq!(exit, StepExit::FatalError);
    assert_eq!(fl.frames_rendered, 1);
    assert_eq!(fl.frames_presented, 0);
    assert_eq!(fl.targets_acquired, fl.targets_released);
}

#[test]
fn prepare_failure_begins_no_frame() {
    let mut fl = FrameLoop::new();
    let c = LoopCtrl {
        prepare_ok: false,
        callback: CallbackOutcome::KeepRunning,
        render_ok: true,
        present_ok: true,
        now: 1,
    };
    let exit = fl.step(false, &c);
    assert_eq!(exit, StepExit::FatalError);
    assert_eq!(fl.state, LoopState::Exiting);
    assert_eq!(fl.frames_begun, 0);
    assert_eq!(fl.targets_acquired, 0);
    assert_eq!(fl.targets_released, 0);
}

#[test]
fn frame_deltas_are_exact_and_timestamps_increase() {
    let mut fl = FrameLoop::new();
    let keep = CallbackOutcome::KeepRunning;
    fl.step(false, &ctrl(keep, 5));
    assert_eq!(fl.last_frame, 5);
    assert_eq!(fl.last_delta, 5);
    fl.step(false, &ctrl(keep, 12));
    assert_eq!(fl.last_frame, 12);
    assert_eq!(fl.last_delta, 7);
    fl.step(false, &ctrl(keep, 13));
    assert_eq!(fl.last_frame, 13);
    assert_eq!(fl.last_delta, 1);
}
