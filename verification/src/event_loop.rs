//! Decisions of the engine's window event loop: what to do on each event, and
//! whether the loop goes on afterwards.

use vstd::prelude::*;

verus! {

/// Time the task runtime may spend in each frame, in nanoseconds (one
/// millisecond).
pub const FRAME_STEP_BUDGET_NANOS: u128 = 1_000_000u128;

/// A window-system event, as the loop tells them apart.
#[derive(Clone, Copy, Debug, PartialEq, Eq, Structural)]
pub enum LoopEvent {
    /// A new batch of events begins.
    NewEvents,
    /// Closing a window was requested; `this_window` says whether it is the
    /// engine's window.
    CloseRequested { this_window: bool },
    /// All events of the batch were handled.
    MainEventsCleared,
    /// A window must be redrawn; `this_window` says whether it is the engine's.
    RedrawRequested { this_window: bool },
    /// Anything else (input and the like).
    Other,
}

/// What the loop does on an event.
#[derive(Clone, Copy, Debug, PartialEq, Eq, Structural)]
pub enum LoopAction {
    /// Tick the frame clock and pass the new delta to the UI layer.
    Tick,
    /// Stop the loop.
    Exit,
    /// Update the bookkeeping and request a redraw of the window.
    RequestRedraw,
    /// Draw one frame, running its stages as `FrameProgress` orders them.
    DrawFrame,
    /// Hand the event to the UI platform layer.
    Forward,
}

/// Whether the loop keeps running after an event.
#[derive(Clone, Copy, Debug, PartialEq, Eq, Structural)]
pub enum ControlFlow {
    /// Keep running, polling for events.
    Poll,
    /// Stop.
    Exit,
}

/// How the stages of a drawn frame went: preparing the UI frame, updating the
/// renderer, and rendering.
#[derive(Clone, Copy, Debug, PartialEq, Eq, Structural)]
pub struct FrameReport {
    pub prepared: bool,
    pub updated: bool,
    pub rendered: bool,
}

/// The action for `event`.
pub open spec fn plan_spec(event: LoopEvent) -> LoopAction {
    match event {
        LoopEvent::NewEvents => LoopAction::Tick,
        LoopEvent::CloseRequested { this_window } => if this_window {
            LoopAction::Exit
        } else {
            LoopAction::Forward
        },
        LoopEvent::MainEventsCleared => LoopAction::RequestRedraw,
        LoopEvent::RedrawRequested { this_window } => if this_window {
            LoopAction::DrawFrame
        } else {
            LoopAction::Forward
        },
        LoopEvent::Other => LoopAction::Forward,
    }
}

/// Whether every stage of a drawn frame succeeded.
pub open spec fn frame_ok(report: FrameReport) -> bool {
    report.prepared && report.updated && report.rendered
}

/// The control flow after performing `action`; `report` counts only for a
/// drawn frame.
pub open spec fn control_spec(action: LoopAction, report: FrameReport) -> ControlFlow {
    match action {
        LoopAction::Exit => ControlFlow::Exit,
        LoopAction::DrawFrame => if frame_ok(report) {
            ControlFlow::Poll
        } else {
            ControlFlow::Exit
        },
        _ => ControlFlow::Poll,
    }
}

/// A stage of drawing one frame, in the order they are run.
#[derive(Clone, Copy, Debug, PartialEq, Eq, Structural)]
pub enum FrameStage {
    /// Prepare the UI platform layer for a frame (can fail).
    PrepareFrame,
    /// Begin the UI frame.
    BeginUi,
    /// Update the game.
    GameUpdate,
    /// Step the task runtime for at most `budget` nanoseconds.
    StepRuntime { budget: u128 },
    /// Update the renderer (can fail).
    RendererUpdate,
    /// Prepare the UI platform layer for rendering.
    PrepareRender,
    /// Render the frame and the UI (can fail).
    Render,
    /// The frame is drawn.
    Done,
}

/// The stages of a frame, in order.
pub open spec fn frame_stages() -> Seq<FrameStage> {
    seq![
        FrameStage::PrepareFrame,
        FrameStage::BeginUi,
        FrameStage::GameUpdate,
        FrameStage::StepRuntime { budget: FRAME_STEP_BUDGET_NANOS },
        FrameStage::RendererUpdate,
        FrameStage::PrepareRender,
        FrameStage::Render,
        FrameStage::Done,
    ]
}

impl FrameStage {
    /// Whether the stage can fail.
    pub open spec fn can_fail(self) -> bool {
        self == FrameStage::PrepareFrame || self == FrameStage::RendererUpdate || self
            == FrameStage::Render
    }
}

/// Progress of drawing one frame: the stage to run next, and how the stages
/// that can fail went so far.
#[derive(Clone, Copy, Debug, PartialEq, Eq, Structural)]
pub struct FrameProgress {
    pub stage: FrameStage,
    pub report: FrameReport,
}

impl FrameProgress {
    /// The progress after running the current stage, which went well (`ok`) or
    /// failed: the next stage in order follows, and a failure is recorded
    /// against its stage; the later stages still run.
    pub open spec fn next_spec(self, ok: bool) -> FrameProgress {
        match self.stage {
            FrameStage::PrepareFrame => FrameProgress {
                stage: FrameStage::BeginUi,
                report: FrameReport { prepared: ok, ..self.report },
            },
            FrameStage::BeginUi => FrameProgress { stage: FrameStage::GameUpdate, ..self },
            FrameStage::GameUpdate => FrameProgress {
                stage: FrameStage::StepRuntime { budget: FRAME_STEP_BUDGET_NANOS },
                ..self
            },
            FrameStage::StepRuntime { .. } => FrameProgress {
                stage: FrameStage::RendererUpdate,
                ..self
            },
            FrameStage::RendererUpdate => FrameProgress {
                stage: FrameStage::PrepareRender,
                report: FrameReport { updated: ok, ..self.report },
            },
            FrameStage::PrepareRender => FrameProgress { stage: FrameStage::Render, ..self },
            FrameStage::Render => FrameProgress {
                stage: FrameStage::Done,
                report: FrameReport { rendered: ok, ..self.report },
            },
            FrameStage::Done => self,
        }
    }

    /// The progress after the first `n` stages of a frame, the `j`-th of which
    /// went as `oks[j]` says.
    pub open spec fn after_stages(oks: Seq<bool>, n: nat) -> FrameProgress
        decreases n,
    {
        if n == 0 {
            FrameProgress {
                stage: FrameStage::PrepareFrame,
                report: FrameReport { prepared: true, updated: true, rendered: true },
            }
        } else {
            FrameProgress::after_stages(oks, (n - 1) as nat).next_spec(oks[n - 1])
        }
    }

    /// The start of a frame: its first stage is next and nothing has failed.
    pub fn start() -> (p: FrameProgress)
        ensures
            p == FrameProgress::after_stages(Seq::empty(), 0),
    {
        FrameProgress {
            stage: FrameStage::PrepareFrame,
            report: FrameReport { prepared: true, updated: true, rendered: true },
        }
    }

    /// Moves on after running the current stage; `ok` is `false` only for a
    /// stage that can fail and did.
    pub fn next(self, ok: bool) -> (p: FrameProgress)
        requires
            self.stage != FrameStage::Done,
            ok || self.stage.can_fail(),
        ensures
            p == self.next_spec(ok),
    {
        match self.stage {
            FrameStage::PrepareFrame => FrameProgress {
                stage: FrameStage::BeginUi,
                report: FrameReport { prepared: ok, ..self.report },
            },
            FrameStage::BeginUi => FrameProgress { stage: FrameStage::GameUpdate, ..self },
            FrameStage::GameUpdate => FrameProgress {
                stage: FrameStage::StepRuntime { budget: FRAME_STEP_BUDGET_NANOS },
                ..self
            },
            FrameStage::StepRuntime { .. } => FrameProgress {
                stage: FrameStage::RendererUpdate,
                ..self
            },
            FrameStage::RendererUpdate => FrameProgress {
                stage: FrameStage::PrepareRender,
                report: FrameReport { updated: ok, ..self.report },
            },
            FrameStage::PrepareRender => FrameProgress { stage: FrameStage::Render, ..self },
            FrameStage::Render => FrameProgress {
                stage: FrameStage::Done,
                report: FrameReport { rendered: ok, ..self.report },
            },
            FrameStage::Done => self,
        }
    }
}

/// A drawn frame runs its stages in the order of `frame_stages`, each once:
/// preparing the UI frame, beginning it, the game update, stepping the task
/// runtime with a budget of one millisecond, the renderer update, preparing the
/// UI render, and rendering. A failed stage does not stop the later ones; the
/// loop then stops after the frame exactly when one of the three stages that can
/// fail did.
pub proof fn lemma_frame_stages_in_order(oks: Seq<bool>, n: nat)
    requires
        n <= 7,
        n <= oks.len(),
    ensures
        FrameProgress::after_stages(oks, n).stage == frame_stages()[n as int],
        n == 7 ==> ({
            let report = FrameProgress::after_stages(oks, 7).report;
            &&& report == (FrameReport { prepared: oks[0], updated: oks[4], rendered: oks[6] })
            &&& control_spec(LoopAction::DrawFrame, report) == ControlFlow::Exit <==> (!oks[0]
                || !oks[4] || !oks[6])
        }),
    decreases n,
{
    if n > 0 {
        lemma_frame_stages_in_order(oks, (n - 1) as nat);
    }
    if n == 7 {
        reveal_with_fuel(FrameProgress::after_stages, 8);
    }
}

/// What the loop does on each kind of event: a new batch ticks the clock, the
/// end of a batch requests a redraw, a redraw of the engine's window draws a
/// frame, a close request for it stops the loop, and everything else, events
/// for other windows included, goes to the UI platform layer. Only a drawn frame
/// or a stop changes the control flow from `Poll`.
pub proof fn lemma_event_actions(this_window: bool, report: FrameReport)
    ensures
        plan_spec(LoopEvent::NewEvents) == LoopAction::Tick,
        plan_spec(LoopEvent::MainEventsCleared) == LoopAction::RequestRedraw,
        plan_spec(LoopEvent::Other) == LoopAction::Forward,
        plan_spec(LoopEvent::RedrawRequested { this_window }) == if this_window {
            LoopAction::DrawFrame
        } else {
            LoopAction::Forward
        },
        plan_spec(LoopEvent::CloseRequested { this_window }) == if this_window {
            LoopAction::Exit
        } else {
            LoopAction::Forward
        },
        control_spec(LoopAction::Tick, report) == ControlFlow::Poll,
        control_spec(LoopAction::RequestRedraw, report) == ControlFlow::Poll,
        control_spec(LoopAction::Forward, report) == ControlFlow::Poll,
        control_spec(LoopAction::Exit, report) == ControlFlow::Exit,
{
}

/// Decides what the loop does on `event`.
pub fn plan_event(event: LoopEvent) -> (a: LoopAction)
    ensures
        a == plan_spec(event),
{
    match event {
        LoopEvent::NewEvents => LoopAction::Tick,
        LoopEvent::CloseRequested { this_window } => {
            if this_window {
                LoopAction::Exit
            } else {
                LoopAction::Forward
            }
        },
        LoopEvent::MainEventsCleared => LoopAction::RequestRedraw,
        LoopEvent::RedrawRequested { this_window } => {
            if this_window {
                LoopAction::DrawFrame
            } else {
                LoopAction::Forward
            }
        },
        LoopEvent::Other => LoopAction::Forward,
    }
}

/// The control flow after an event: each event starts from `Poll`; the loop
/// stops on a close request for the engine's window, and after a drawn frame
/// in which a stage failed (the remaining stages of that frame still run).
pub fn control_after(action: LoopAction, report: FrameReport) -> (c: ControlFlow)
    ensures
        c == control_spec(action, report),
{
    let mut flow = ControlFlow::Poll;
    match action {
        LoopAction::Exit => {
            flow = ControlFlow::Exit;
        },
        LoopAction::DrawFrame => {
            if !report.prepared {
                flow = ControlFlow::Exit;
            }
            if !report.updated {
                flow = ControlFlow::Exit;
            }
            if !report.rendered {
                flow = ControlFlow::Exit;
            }
        },
        _ => {},
    }
    flow
}

/// The loop stops after an event exactly when closing the engine's window was
/// requested, or when the engine's window was redrawn and a stage of that frame
/// failed. Events that concern another window are handed to the UI platform
/// layer and never stop the loop.
pub proof fn lemma_loop_stops_only_on_close_or_failed_frame(event: LoopEvent, report: FrameReport)
    ensures
        control_spec(plan_spec(event), report) == ControlFlow::Exit <==> (event
            == LoopEvent::CloseRequested { this_window: true } || (event
            == LoopEvent::RedrawRequested { this_window: true } && !frame_ok(report))),
        (event == LoopEvent::CloseRequested { this_window: false } || event
            == LoopEvent::RedrawRequested { this_window: false }) ==> plan_spec(event)
            == LoopAction::Forward && control_spec(plan_spec(event), report) == ControlFlow::Poll,
{
}

} // verus!
