//! The frame loop: the central scheduler of the runtime.
//!
//! Each iteration drains native events, prepares the frame, advances the
//! UI-context clock, runs the application callback, then renders and
//! presents — in that strict order. The outside work of one iteration
//! (event polling, frame preparation, the callback, the GPU render and the
//! buffer swap) is summarized by a [`FrameInput`]; the loop body here is the
//! decision core that consumes those outcomes and owns the loop state.

use vstd::prelude::*;
use crate::platform::{InputEvent, has_close};

verus! {

/// The loop's two states: it runs until a close request, a callback exit
/// request, or a fatal failure moves it to `Exiting`, which is terminal.
#[derive(Clone, Copy, Debug, PartialEq, Eq, Structural)]
pub enum LoopState {
    Running,
    Exiting,
}

/// What the application's per-frame callback did: left the continue flag
/// set, cleared it to request shutdown, or failed outright.
#[derive(Clone, Copy, Debug, PartialEq, Eq, Structural)]
pub enum CallbackOutcome {
    KeepRunning,
    RequestExit,
    Failed,
}

/// How one iteration ended.
#[derive(Clone, Copy, Debug, PartialEq, Eq, Structural)]
pub enum StepExit {
    /// The iteration completed and the loop keeps running.
    Continue,
    /// The iteration completed, its frame was presented, and the loop exits
    /// (close request or callback shutdown request).
    CleanExit,
    /// Frame preparation, the callback, the render or the buffer swap
    /// failed; the loop exits in an error state.
    FatalError,
}

/// The outcomes of one iteration's outside work, as plain values: whether
/// frame preparation succeeded, what the callback decided, whether the
/// render and the buffer swap succeeded, and the clock reading taken when
/// the frame's timing was advanced.
#[derive(Clone, Copy, Debug, PartialEq, Eq, Structural)]
pub struct LoopCtrl {
    /// Whether the bridge's frame-start synchronization succeeded; failure
    /// means the native window is gone, which is fatal.
    pub prepare_ok: bool,
    /// What the application's per-frame callback decided.
    pub callback: CallbackOutcome,
    /// Whether the bridge's pre-render adjustments and the renderer's
    /// translation of the frame's draw data succeeded.
    pub render_ok: bool,
    /// Whether the buffer swap presented the frame.
    pub present_ok: bool,
    /// The clock reading taken when this iteration advanced the frame
    /// timing.
    pub now: u64,
}

/// Everything one iteration consumes: the batch of native events drained at
/// its start, and the outcomes of its outside work.
#[derive(Clone, Debug, PartialEq, Eq)]
pub struct FrameInput {
    pub events: Vec<InputEvent>,
    pub ctrl: LoopCtrl,
}

/// The loop's own state: where it stands, the frame-timing state, and the
/// counters that record how much work it has performed.
#[derive(Clone, Copy, Debug, PartialEq, Eq, Structural)]
pub struct FrameLoop {
    pub state: LoopState,
    /// The clock reading of the previous iteration; monotonically updated.
    pub last_frame: u64,
    /// The elapsed time fed to the UI context at the latest iteration.
    pub last_delta: u64,
    /// UI frames constructed (the callback ran on each).
    pub frames_begun: u64,
    /// Frames whose draw data reached the renderer.
    pub frames_rendered: u64,
    /// Frames presented by a successful buffer swap.
    pub frames_presented: u64,
    /// Render targets acquired.
    pub targets_acquired: u64,
    /// Render targets released again, by a present or by a discard.
    pub targets_released: u64,
}

/// Saturating increment: the counters never wrap.
pub open spec fn sat_inc(x: u64) -> u64 {
    if x == u64::MAX {
        u64::MAX
    } else {
        (x + 1) as u64
    }
}

/// The loop state a fresh runtime starts from.
pub open spec fn initial_loop() -> FrameLoop {
    FrameLoop {
        state: LoopState::Running,
        last_frame: 0,
        last_delta: 0,
        frames_begun: 0,
        frames_rendered: 0,
        frames_presented: 0,
        targets_acquired: 0,
        targets_released: 0,
    }
}

/// One iteration of the loop, as a function of the prior state, whether the
/// drained event batch held a close request, and the iteration's outside
/// outcomes. The order is the iteration protocol: prepare, advance time and
/// begin the UI frame, run the callback, acquire the render target, render,
/// present, then honor any exit request.
pub open spec fn step_model(s: FrameLoop, close_requested: bool, c: LoopCtrl) -> FrameLoop {
    if !c.prepare_ok {
        // frame preparation failed: fatal, nothing was begun
        FrameLoop { state: LoopState::Exiting, ..s }
    } else {
        let timed = FrameLoop {
            last_delta: ((c.now - s.last_frame) as u64),
            last_frame: c.now,
            frames_begun: sat_inc(s.frames_begun),
            ..s
        };
        if c.callback == CallbackOutcome::Failed {
            // the callback failed before the render target was acquired
            FrameLoop { state: LoopState::Exiting, ..timed }
        } else {
            let acquired = FrameLoop {
                targets_acquired: sat_inc(timed.targets_acquired),
                ..timed
            };
            if !c.render_ok {
                // render failure: the target is discarded, never presented
                FrameLoop {
                    state: LoopState::Exiting,
                    targets_released: sat_inc(acquired.targets_released),
                    ..acquired
                }
            } else {
                let rendered = FrameLoop {
                    frames_rendered: sat_inc(acquired.frames_rendered),
                    ..acquired
                };
                if !c.present_ok {
                    // buffer-swap failure: the target is consumed either way
                    FrameLoop {
                        state: LoopState::Exiting,
                        targets_released: sat_inc(rendered.targets_released),
                        ..rendered
                    }
                } else {
                    let presented = FrameLoop {
                        frames_presented: sat_inc(rendered.frames_presented),
                        targets_released: sat_inc(rendered.targets_released),
                        ..rendered
                    };
                    if close_requested || c.callback == CallbackOutcome::RequestExit {
                        FrameLoop { state: LoopState::Exiting, ..presented }
                    } else {
                        presented
                    }
                }
            }
        }
    }
}

/// How the iteration reports its end.
pub open spec fn step_exit_model(close_requested: bool, c: LoopCtrl) -> StepExit {
    if !c.prepare_ok {
        StepExit::FatalError
    } else if c.callback == CallbackOutcome::Failed {
        StepExit::FatalError
    } else if !c.render_ok {
        StepExit::FatalError
    } else if !c.present_ok {
        StepExit::FatalError
    } else if close_requested || c.callback == CallbackOutcome::RequestExit {
        StepExit::CleanExit
    } else {
        StepExit::Continue
    }
}

/// One iteration applied to a whole input: the close flag comes from the
/// drained event batch.
pub open spec fn input_step(s: FrameLoop, i: FrameInput) -> FrameLoop {
    step_model(s, has_close(i.events@), i.ctrl)
}

/// The loop run over a sequence of iteration inputs, stopping as soon as
/// the state leaves `Running`.
pub open spec fn run_model(s: FrameLoop, inputs: Seq<FrameInput>) -> FrameLoop
    decreases inputs.len(),
{
    if inputs.len() == 0 || s.state != LoopState::Running {
        s
    } else {
        run_model(input_step(s, inputs[0]), inputs.drop_first())
    }
}

impl FrameLoop {
    /// The state a fresh runtime's loop starts from.
    pub fn new() -> (s: FrameLoop)
        ensures
            s == initial_loop(),
    {
        FrameLoop {
            state: LoopState::Running,
            last_frame: 0,
            last_delta: 0,
            frames_begun: 0,
            frames_rendered: 0,
            frames_presented: 0,
            targets_acquired: 0,
            targets_released: 0,
        }
    }

    /// Performs one iteration's bookkeeping and state transition, given
    /// whether the drained events held a close request and the outcomes of
    /// the iteration's outside work. The clock reading must not run
    /// backwards; the fed delta is then exact and never negative.
    pub fn step(&mut self, close_requested: bool, c: &LoopCtrl) -> (r: StepExit)
        requires
            old(self).state == LoopState::Running,
            c.now >= old(self).last_frame,
        ensures
            *final(self) == step_model(*old(self), close_requested, *c),
            r == step_exit_model(close_requested, *c),
            (r == StepExit::Continue) <==> (final(self).state == LoopState::Running),
            old(self).targets_acquired == old(self).targets_released
                ==> final(self).targets_acquired == final(self).targets_released,
    {
        if !c.prepare_ok {
            self.state = LoopState::Exiting;
            return StepExit::FatalError;
        }
        self.last_delta = c.now - self.last_frame;
        self.last_frame = c.now;
        self.frames_begun = self.frames_begun.saturating_add(1);
        if c.callback == CallbackOutcome::Failed {
            self.state = LoopState::Exiting;
            return StepExit::FatalError;
        }
        self.targets_acquired = self.targets_acquired.saturating_add(1);
        if !c.render_ok {
            self.targets_released = self.targets_released.saturating_add(1);
            self.state = LoopState::Exiting;
            return StepExit::FatalError;
        }
        self.frames_rendered = self.frames_rendered.saturating_add(1);
        if !c.present_ok {
            self.targets_released = self.targets_released.saturating_add(1);
            self.state = LoopState::Exiting;
            return StepExit::FatalError;
        }
        self.frames_presented = self.frames_presented.saturating_add(1);
        self.targets_released = self.targets_released.saturating_add(1);
        if close_requested || c.callback == CallbackOutcome::RequestExit {
            self.state = LoopState::Exiting;
            return StepExit::CleanExit;
        }
        StepExit::Continue
    }
}

/// Running over concatenated inputs equals running over the first part and
/// then the second.
pub proof fn lemma_run_model_app(s: FrameLoop, a: Seq<FrameInput>, b: Seq<FrameInput>)
    ensures
        run_model(s, a + b) == run_model(run_model(s, a), b),
    decreases a.len(),
{
    if a.len() == 0 {
        assert(a + b =~= b);
    } else if s.state != LoopState::Running {
        assert((a + b).len() > 0);
    } else {
        assert((a + b)[0] == a[0]);
        assert((a + b).drop_first() =~= a.drop_first() + b);
        lemma_run_model_app(input_step(s, a[0]), a.drop_first(), b);
    }
}

/// An iteration whose outside work all succeeded and whose callback did not
/// fail.
pub open spec fn ctrl_ok(c: LoopCtrl) -> bool {
    c.prepare_ok && c.render_ok && c.present_ok && c.callback != CallbackOutcome::Failed
}

/// An iteration in which nothing asks the loop to stop: the outside work
/// succeeds, the callback leaves the continue flag set, and no close
/// request is among the drained events.
pub open spec fn benign_continue(i: FrameInput) -> bool {
    ctrl_ok(i.ctrl) && i.ctrl.callback == CallbackOutcome::KeepRunning && !has_close(i.events@)
}

/// Over iterations in which nothing asks it to stop, the loop never leaves
/// `Running` on its own.
pub proof fn lemma_benign_stays_running(s: FrameLoop, inputs: Seq<FrameInput>)
    requires
        s.state == LoopState::Running,
        forall|k: int| 0 <= k < inputs.len() ==> benign_continue(#[trigger] inputs[k]),
    ensures
        run_model(s, inputs).state == LoopState::Running,
    decreases inputs.len(),
{
    if inputs.len() > 0 {
        assert(forall|k: int|
            0 <= k < inputs.drop_first().len() ==> #[trigger] inputs.drop_first()[k]
                == inputs[k + 1]);
        lemma_benign_stays_running(input_step(s, inputs[0]), inputs.drop_first());
    }
}

/// While the callback never clears the continue flag and no close request
/// arrives, the loop renders and presents exactly once per iteration and
/// never terminates on its own.
pub proof fn lemma_loop_runs_forever(s: FrameLoop, inputs: Seq<FrameInput>)
    requires
        s.state == LoopState::Running,
        forall|k: int| 0 <= k < inputs.len() ==> benign_continue(#[trigger] inputs[k]),
        s.frames_begun + inputs.len() <= u64::MAX,
        s.frames_rendered + inputs.len() <= u64::MAX,
        s.frames_presented + inputs.len() <= u64::MAX,
        s.targets_acquired + inputs.len() <= u64::MAX,
        s.targets_released + inputs.len() <= u64::MAX,
    ensures
        run_model(s, inputs).state == LoopState::Running,
        run_model(s, inputs).frames_begun == s.frames_begun + inputs.len(),
        run_model(s, inputs).frames_rendered == s.frames_rendered + inputs.len(),
        run_model(s, inputs).frames_presented == s.frames_presented + inputs.len(),
        run_model(s, inputs).targets_acquired == s.targets_acquired + inputs.len(),
        run_model(s, inputs).targets_released == s.targets_released + inputs.len(),
    decreases inputs.len(),
{
    if inputs.len() > 0 {
        assert(forall|k: int|
            0 <= k < inputs.drop_first().len() ==> #[trigger] inputs.drop_first()[k]
                == inputs[k + 1]);
        lemma_loop_runs_forever(input_step(s, inputs[0]), inputs.drop_first());
    }
}

/// An iteration whose callback clears the continue flag, with all outside
/// work succeeding.
pub open spec fn exit_input(i: FrameInput) -> bool {
    ctrl_ok(i.ctrl) && i.ctrl.callback == CallbackOutcome::RequestExit
}

/// When the callback clears the continue flag on iteration `n`, exactly one
/// more render and present occur — iteration `n`'s own — and the loop then
/// exits: no later iteration constructs a UI frame, whatever inputs follow.
pub proof fn lemma_exit_renders_final_frame(s: FrameLoop, inputs: Seq<FrameInput>, n: int)
    requires
        s.state == LoopState::Running,
        0 <= n < inputs.len(),
        forall|k: int| 0 <= k < n ==> benign_continue(#[trigger] inputs[k]),
        exit_input(inputs[n]),
        s.frames_begun + n + 1 <= u64::MAX,
        s.frames_rendered + n + 1 <= u64::MAX,
        s.frames_presented + n + 1 <= u64::MAX,
        s.targets_acquired + n + 1 <= u64::MAX,
        s.targets_released + n + 1 <= u64::MAX,
    ensures
        run_model(s, inputs) == run_model(s, inputs.subrange(0, n + 1)),
        run_model(s, inputs).state == LoopState::Exiting,
        run_model(s, inputs).frames_begun == s.frames_begun + n + 1,
        run_model(s, inputs).frames_rendered == s.frames_rendered + n + 1,
        run_model(s, inputs).frames_presented == s.frames_presented + n + 1,
{
    let pre = inputs.subrange(0, n);
    assert(forall|k: int| 0 <= k < pre.len() ==> #[trigger] pre[k] == inputs[k]);
    lemma_loop_runs_forever(s, pre);
    let m = run_model(s, pre);
    let last = seq![inputs[n]];
    let upto = inputs.subrange(0, n + 1);
    assert(upto =~= pre + last);
    lemma_run_model_app(s, pre, last);
    let m2 = input_step(m, inputs[n]);
    assert(last[0] == inputs[n]);
    assert(last.drop_first().len() == 0);
    assert(run_model(m, last) == run_model(m2, last.drop_first()));
    assert(run_model(m2, last.drop_first()) == m2);
    let rest = inputs.subrange(n + 1, inputs.len() as int);
    assert(inputs =~= upto + rest);
    lemma_run_model_app(s, upto, rest);
}

/// Every iteration releases exactly the render targets it acquires: on the
/// presented path, on a render or swap failure, and when the callback
/// fails, the target never leaks and is never acquired twice.
pub proof fn lemma_target_scoped(s: FrameLoop, close_requested: bool, c: LoopCtrl)
    requires
        s.targets_acquired == s.targets_released,
    ensures
        step_model(s, close_requested, c).targets_acquired
            == step_model(s, close_requested, c).targets_released,
{
}

/// Over any whole run, however each iteration ends, no render target stays
/// acquired.
pub proof fn lemma_target_scoped_run(s: FrameLoop, inputs: Seq<FrameInput>)
    requires
        s.targets_acquired == s.targets_released,
    ensures
        run_model(s, inputs).targets_acquired == run_model(s, inputs).targets_released,
    decreases inputs.len(),
{
    if inputs.len() > 0 && s.state == LoopState::Running {
        lemma_target_scoped(s, has_close(inputs[0].events@), inputs[0].ctrl);
        lemma_target_scoped_run(input_step(s, inputs[0]), inputs.drop_first());
    }
}

/// A close request among an iteration's drained events does not abort the
/// iteration: its frame is still rendered and presented, and only then does
/// the loop exit.
pub proof fn lemma_close_request_exits(s: FrameLoop, i: FrameInput)
    requires
        s.state == LoopState::Running,
        ctrl_ok(i.ctrl),
        has_close(i.events@),
    ensures
        input_step(s, i).state == LoopState::Exiting,
        input_step(s, i).frames_rendered == sat_inc(s.frames_rendered),
        input_step(s, i).frames_presented == sat_inc(s.frames_presented),
{
}

/// Clock readings that move strictly forward through the whole run.
pub open spec fn nows_increasing(s: FrameLoop, inputs: Seq<FrameInput>) -> bool {
    &&& (inputs.len() > 0 ==> inputs[0].ctrl.now > s.last_frame)
    &&& (forall|j: int, k: int|
        0 <= j < k < inputs.len() ==> #[trigger] inputs[j].ctrl.now < #[trigger] inputs[k].ctrl.now)
}

/// Frame timing: with a clock that moves strictly forward, the stored
/// source timestamp strictly increases across iterations, and the delta fed
/// to the UI context at each iteration is exactly the elapsed time — never
/// negative.
pub proof fn lemma_timing_monotone(s: FrameLoop, inputs: Seq<FrameInput>, k: int)
    requires
        s.state == LoopState::Running,
        forall|j: int| 0 <= j < inputs.len() ==> benign_continue(#[trigger] inputs[j]),
        nows_increasing(s, inputs),
        0 <= k < inputs.len(),
    ensures
        run_model(s, inputs.subrange(0, k + 1)).last_frame == inputs[k].ctrl.now,
        run_model(s, inputs.subrange(0, k + 1)).last_delta == inputs[k].ctrl.now - (if k == 0 {
            s.last_frame as int
        } else {
            inputs[k - 1].ctrl.now as int
        }),
        run_model(s, inputs.subrange(0, k + 1)).last_delta > 0,
        run_model(s, inputs.subrange(0, k + 1)).last_frame > run_model(
            s,
            inputs.subrange(0, k),
        ).last_frame,
    decreases k,
{
    let pre = inputs.subrange(0, k);
    assert(forall|j: int| 0 <= j < pre.len() ==> #[trigger] pre[j] == inputs[j]);
    lemma_benign_stays_running(s, pre);
    let m = run_model(s, pre);
    if k == 0 {
        assert(pre =~= Seq::<FrameInput>::empty());
    } else {
        lemma_timing_monotone(s, inputs, k - 1);
        assert(pre =~= inputs.subrange(0, (k - 1) + 1));
    }
    let last = seq![inputs[k]];
    assert(inputs.subrange(0, k + 1) =~= pre + last);
    lemma_run_model_app(s, pre, last);
    let m2 = input_step(m, inputs[k]);
    assert(last[0] == inputs[k]);
    assert(last.drop_first().len() == 0);
    assert(run_model(m, last) == run_model(m2, last.drop_first()));
    assert(run_model(m2, last.drop_first()) == m2);
}

} // verus!
