//! The runtime handle: owns the loop state, the platform bridge, the font
//! configuration and the theme, and drives the frame loop over iteration
//! inputs. Exactly one instance exists; the loop consumes it.

use vstd::prelude::*;
use crate::frame_loop::{
    FrameInput, FrameLoop, LoopState, StepExit, initial_loop, input_step, run_model,
    step_exit_model,
};
use crate::platform::{
    BridgeModel, FontScaling, InputEvent, PlatformBridge, bridge_wf, event_model, events_model,
    font_scaling, font_scaling_model, has_close, rounded_scale, valid_scale_hundredths,
};
use crate::style::{StyleTheme, set_talan_style, talan_theme};
use crate::title::strip_path;

verus! {

/// The runtime handle.
pub struct System {
    /// The window's display title, the bytes shown in its title bar.
    pub title: Vec<u8>,
    /// The bridge between native events and UI-context input state.
    pub bridge: PlatformBridge,
    /// The DPI-adjusted font configuration.
    pub font: FontScaling,
    /// The visual theme, written once at initialization.
    pub theme: StyleTheme,
    /// The frame loop's own state.
    pub frame: FrameLoop,
}

/// Mathematical model of the runtime handle.
pub struct SystemModel {
    pub title: Seq<u8>,
    pub bridge: BridgeModel,
    pub font: FontScaling,
    pub theme: StyleTheme,
    pub frame: FrameLoop,
}

impl View for System {
    type V = SystemModel;

    open spec fn view(&self) -> SystemModel {
        SystemModel {
            title: self.title@,
            bridge: self.bridge@,
            font: self.font,
            theme: self.theme,
            frame: self.frame,
        }
    }
}

/// A well-formed runtime: the bridge is attached and in range, and the font
/// configuration is exactly what the recorded DPI factor determines.
pub open spec fn system_wf(m: SystemModel) -> bool {
    &&& bridge_wf(m.bridge)
    &&& m.font == font_scaling_model(m.bridge.scale_factor)
}

/// One event applied to the runtime: the bridge state moves, and the font
/// configuration follows the recorded DPI factor.
pub open spec fn system_event_model(m: SystemModel, e: InputEvent) -> SystemModel {
    let b = event_model(m.bridge, e);
    SystemModel { bridge: b, font: font_scaling_model(b.scale_factor), ..m }
}

/// A whole event batch applied to the runtime, first to last.
pub open spec fn system_events_model(m: SystemModel, evs: Seq<InputEvent>) -> SystemModel
    decreases evs.len(),
{
    if evs.len() == 0 {
        m
    } else {
        system_events_model(system_event_model(m, evs[0]), evs.drop_first())
    }
}

/// One whole iteration applied to the runtime: the drained events move the
/// bridge, then the loop performs the iteration protocol.
pub open spec fn system_step_model(m: SystemModel, i: FrameInput) -> SystemModel {
    let drained = system_events_model(m, i.events@);
    SystemModel { frame: input_step(m.frame, i), ..drained }
}

/// The runtime over a sequence of iteration inputs, stopping as soon as the
/// loop leaves `Running`.
pub open spec fn system_run_model(m: SystemModel, inputs: Seq<FrameInput>) -> SystemModel
    decreases inputs.len(),
{
    if inputs.len() == 0 || m.frame.state != LoopState::Running {
        m
    } else {
        system_run_model(system_step_model(m, inputs[0]), inputs.drop_first())
    }
}

/// Draining events touches the bridge and the font, never the loop state,
/// the title or the theme.
pub proof fn lemma_system_events_keep_frame(m: SystemModel, evs: Seq<InputEvent>)
    ensures
        system_events_model(m, evs).frame == m.frame,
        system_events_model(m, evs).title == m.title,
        system_events_model(m, evs).theme == m.theme,
        system_events_model(m, evs).bridge == events_model(m.bridge, evs),
    decreases evs.len(),
{
    if evs.len() > 0 {
        lemma_system_events_keep_frame(system_event_model(m, evs[0]), evs.drop_first());
    }
}

/// The events of an iteration leave the loop's own state alone, so the
/// runtime's loop state over a run is exactly the frame loop's run: the
/// laws proved of `run_model` hold of whole runtime runs.
pub proof fn lemma_system_run_frame(m: SystemModel, inputs: Seq<FrameInput>)
    ensures
        system_run_model(m, inputs).frame == run_model(m.frame, inputs),
    decreases inputs.len(),
{
    if inputs.len() > 0 && m.frame.state == LoopState::Running {
        lemma_system_events_keep_frame(m, inputs[0].events@);
        lemma_system_run_frame(system_step_model(m, inputs[0]), inputs.drop_first());
    }
}

/// Handling events keeps the runtime well formed.
pub proof fn lemma_system_events_wf(m: SystemModel, evs: Seq<InputEvent>)
    requires
        system_wf(m),
    ensures
        system_wf(system_events_model(m, evs)),
    decreases evs.len(),
{
    if evs.len() > 0 {
        crate::platform::lemma_event_preserves_wf(m.bridge, evs[0]);
        lemma_system_events_wf(system_event_model(m, evs[0]), evs.drop_first());
    }
}

/// A whole run keeps the runtime well formed, and never touches the title
/// or the theme: the theme is immutable after initialization.
pub proof fn lemma_system_run_wf(m: SystemModel, inputs: Seq<FrameInput>)
    requires
        system_wf(m),
    ensures
        system_wf(system_run_model(m, inputs)),
        system_run_model(m, inputs).title == m.title,
        system_run_model(m, inputs).theme == m.theme,
    decreases inputs.len(),
{
    if inputs.len() > 0 && m.frame.state == LoopState::Running {
        lemma_system_events_wf(m, inputs[0].events@);
        lemma_system_events_keep_frame(m, inputs[0].events@);
        lemma_system_run_wf(system_step_model(m, inputs[0]), inputs.drop_first());
    }
}

/// Initializes the runtime: strips a path-like prefix off the title so only
/// the trailing component is shown, attaches the platform bridge under the
/// whole-factor DPI rounding policy, computes the DPI-adjusted font setup,
/// and writes the theme — all before the first frame.
pub fn init(title: &[u8], scale_hundredths: u32) -> (s: System)
    requires
        valid_scale_hundredths(scale_hundredths),
    ensures
        system_wf(s@),
        s@.title == strip_path(title@),
        s@.bridge.scale_factor == rounded_scale(scale_hundredths),
        s@.font == font_scaling_model(rounded_scale(scale_hundredths)),
        s@.theme == talan_theme(),
        s@.frame == initial_loop(),
{
    let display = crate::title::display_title(title);
    let bridge = PlatformBridge::attach(scale_hundredths);
    let font = font_scaling(bridge.scale_factor);
    let mut theme = crate::style::talan_style();
    set_talan_style(&mut theme);
    System { title: display, bridge, font, theme, frame: FrameLoop::new() }
}

impl System {
    /// Routes one native event: the bridge translates it, and the font
    /// configuration follows the recorded DPI factor.
    pub fn handle_event(&mut self, e: &InputEvent)
        requires
            system_wf(old(self)@),
        ensures
            final(self)@ == system_event_model(old(self)@, *e),
            system_wf(final(self)@),
    {
        proof {
            crate::platform::lemma_event_preserves_wf(self@.bridge, *e);
        }
        self.bridge.handle_event(e);
        self.font = font_scaling(self.bridge.scale_factor);
    }

    /// Performs one whole iteration: drains the iteration's event batch
    /// through the bridge, then runs the loop protocol on its outcomes. A
    /// close request among the events lets the iteration finish — its frame
    /// is still rendered and presented — and the loop exits afterwards.
    pub fn step_frame(&mut self, input: &FrameInput) -> (r: StepExit)
        requires
            system_wf(old(self)@),
            old(self)@.frame.state == LoopState::Running,
            input.ctrl.now >= old(self)@.frame.last_frame,
        ensures
            final(self)@ == system_step_model(old(self)@, *input),
            system_wf(final(self)@),
            r == step_exit_model(has_close(input.events@), input.ctrl),
            (r == StepExit::Continue) <==> (final(self)@.frame.state == LoopState::Running),
    {
        let ghost m0 = self@;
        let mut close = false;
        let mut k: usize = 0;
        while k < input.events.len()
            invariant
                0 <= k <= input.events@.len(),
                system_wf(self@),
                self@ == system_events_model(m0, input.events@.subrange(0, k as int)),
                close == has_close(input.events@.subrange(0, k as int)),
                self@.frame == m0.frame,
            decreases input.events@.len() - k,
        {
            let ghost pre = input.events@.subrange(0, k as int);
            let e = &input.events[k];
            self.handle_event(e);
            if matches!(e, InputEvent::CloseRequested) {
                close = true;
            }
            proof {
                let post = input.events@.subrange(0, k + 1 as int);
                assert(post =~= pre.push(input.events@[k as int]));
                lemma_system_events_snoc(m0, pre, input.events@[k as int]);
                assert(has_close(post) <==> (has_close(pre) || input.events@[k as int]
                    == InputEvent::CloseRequested)) by {
                    if has_close(pre) {
                        let i = choose|i: int|
                            0 <= i < pre.len() && pre[i] == InputEvent::CloseRequested;
                        assert(post[i] == InputEvent::CloseRequested);
                    }
                    if input.events@[k as int] == InputEvent::CloseRequested {
                        assert(post[k as int] == InputEvent::CloseRequested);
                    }
                    if has_close(post) {
                        let i = choose|i: int|
                            0 <= i < post.len() && post[i] == InputEvent::CloseRequested;
                        if i < k as int {
                            assert(pre[i] == InputEvent::CloseRequested);
                        }
                    }
                }
                lemma_system_events_keep_frame(m0, post);
            }
            k = k + 1;
        }
        proof {
            assert(input.events@.subrange(0, input.events@.len() as int) =~= input.events@);
        }
        let exit = self.frame.step(close, &input.ctrl);
        exit
    }

    /// Runs the frame loop to completion over the given iteration inputs,
    /// consuming the runtime handle: iterations follow the protocol one
    /// after another until the loop leaves `Running`; inputs past that point
    /// are never consumed, so no further UI frame is constructed.
    pub fn main_loop(self, inputs: &Vec<FrameInput>) -> (r: System)
        requires
            system_wf(self@),
            forall|k: int| 0 <= k < inputs@.len() ==> #[trigger] inputs@[k].ctrl.now
                >= self@.frame.last_frame,
            forall|j: int, k: int|
                0 <= j < k < inputs@.len() ==> #[trigger] inputs@[j].ctrl.now
                    <= #[trigger] inputs@[k].ctrl.now,
        ensures
            r@ == system_run_model(self@, inputs@),
            r@.frame == run_model(self@.frame, inputs@),
            system_wf(r@),
    {
        let ghost m0 = self@;
        let mut sys = self;
        let mut i: usize = 0;
        let mut running = matches!(sys.frame.state, LoopState::Running);
        assert(inputs@.subrange(0, 0) =~= Seq::<FrameInput>::empty());
        while running && i < inputs.len()
            invariant
                0 <= i <= inputs@.len(),
                system_wf(sys@),
                sys@ == system_run_model(m0, inputs@.subrange(0, i as int)),
                running <==> (sys@.frame.state == LoopState::Running),
                sys@.frame.last_frame == m0.frame.last_frame || (exists|j: int|
                    0 <= j < i && sys@.frame.last_frame == inputs@[j].ctrl.now),
                forall|k: int| 0 <= k < inputs@.len() ==> #[trigger] inputs@[k].ctrl.now
                    >= m0.frame.last_frame,
                forall|j: int, k: int|
                    0 <= j < k < inputs@.len() ==> #[trigger] inputs@[j].ctrl.now
                        <= #[trigger] inputs@[k].ctrl.now,
            decreases inputs@.len() - i,
        {
            let ghost pre = inputs@.subrange(0, i as int);
            assert(inputs@[i as int].ctrl.now >= sys@.frame.last_frame);
            let exit = sys.step_frame(&inputs[i]);
            running = matches!(exit, StepExit::Continue);
            proof {
                let post = inputs@.subrange(0, i + 1 as int);
                assert(post =~= pre.push(inputs@[i as int]));
                lemma_system_run_snoc(m0, pre, inputs@[i as int]);
            }
            i = i + 1;
        }
        proof {
            if i < inputs.len() {
                // the loop exited: later inputs change nothing
                lemma_system_run_stopped(sys@, inputs@.subrange(i as int, inputs@.len() as int));
                lemma_system_run_append(m0, inputs@.subrange(0, i as int), inputs@.subrange(
                    i as int,
                    inputs@.len() as int,
                ));
                assert(inputs@.subrange(0, i as int) + inputs@.subrange(
                    i as int,
                    inputs@.len() as int,
                ) =~= inputs@);
            } else {
                assert(inputs@.subrange(0, i as int) =~= inputs@);
            }
            lemma_system_run_frame(m0, inputs@);
        }
        sys
    }
}

/// Appending one iteration to a run that is still `Running` performs that
/// iteration last.
pub proof fn lemma_system_run_snoc(m: SystemModel, inputs: Seq<FrameInput>, i: FrameInput)
    requires
        system_run_model(m, inputs).frame.state == LoopState::Running,
    ensures
        system_run_model(m, inputs.push(i)) == system_step_model(
            system_run_model(m, inputs),
            i,
        ),
    decreases inputs.len(),
{
    if inputs.len() == 0 {
        assert(system_run_model(m, inputs) == m);
        assert(inputs.push(i).drop_first() =~= Seq::<FrameInput>::empty());
        assert(inputs.push(i)[0] == i);
        assert(system_run_model(system_step_model(m, i), Seq::<FrameInput>::empty())
            == system_step_model(m, i));
    } else {
        if m.frame.state != LoopState::Running {
            assert(system_run_model(m, inputs) == m);
            assert(false);
        }
        assert(inputs.push(i)[0] == inputs[0]);
        assert(inputs.push(i).drop_first() =~= inputs.drop_first().push(i));
        assert(system_run_model(m, inputs) == system_run_model(
            system_step_model(m, inputs[0]),
            inputs.drop_first(),
        ));
        lemma_system_run_snoc(system_step_model(m, inputs[0]), inputs.drop_first(), i);
    }
}

/// A run that has already left `Running` consumes nothing further.
pub proof fn lemma_system_run_stopped(m: SystemModel, inputs: Seq<FrameInput>)
    requires
        m.frame.state != LoopState::Running,
    ensures
        system_run_model(m, inputs) == m,
{
}

/// Running over concatenated inputs equals running over the first part and
/// then the second.
pub proof fn lemma_system_run_append(m: SystemModel, a: Seq<FrameInput>, b: Seq<FrameInput>)
    ensures
        system_run_model(m, a + b) == system_run_model(system_run_model(m, a), b),
    decreases a.len(),
{
    if a.len() == 0 {
        assert(a + b =~= b);
    } else if m.frame.state != LoopState::Running {
        assert((a + b).len() > 0);
    } else {
        assert((a + b)[0] == a[0]);
        assert((a + b).drop_first() =~= a.drop_first() + b);
        lemma_system_run_append(system_step_model(m, a[0]), a.drop_first(), b);
    }
}

/// One more event at the end of a batch is handled last.
pub proof fn lemma_system_events_snoc(m: SystemModel, evs: Seq<InputEvent>, e: InputEvent)
    ensures
        system_events_model(m, evs.push(e)) == system_event_model(
            system_events_model(m, evs),
            e,
        ),
    decreases evs.len(),
{
    if evs.len() == 0 {
        assert(evs.push(e).drop_first() =~= Seq::<InputEvent>::empty());
        assert(evs.push(e)[0] == e);
        assert(system_events_model(system_event_model(m, e), Seq::<InputEvent>::empty())
            == system_event_model(m, e));
    } else {
        assert(evs.push(e)[0] == evs[0]);
        assert(evs.push(e).drop_first() =~= evs.drop_first().push(e));
        assert(system_events_model(m, evs) == system_events_model(
            system_event_model(m, evs[0]),
            evs.drop_first(),
        ));
        lemma_system_events_snoc(system_event_model(m, evs[0]), evs.drop_first(), e);
    }
}

} // verus!
