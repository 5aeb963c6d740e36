use engine::event_loop::{
    control_after, plan_event, ControlFlow, FrameProgress, FrameReport, FrameStage, LoopAction,
    LoopEvent, FRAME_STEP_BUDGET_NANOS,
};
use engine::meta::EngineMeta;
use std::time::Duration;

const OK: FrameReport = FrameReport { prepared: true, updated: true, rendered: true };

#[test]
fn plan_for_each_event() {
    assert_eq!(plan_event(LoopEvent::NewEvents), LoopAction::Tick);
    assert_eq!(plan_event(LoopEvent::CloseRequested { this_window: true }), LoopAction::Exit);
    assert_eq!(plan_event(LoopEvent::CloseRequested { this_window: false }), LoopAction::Forward);
    assert_eq!(plan_event(LoopEvent::MainEventsCleared), LoopAction::RequestRedraw);
    assert_eq!(plan_event(LoopEvent::RedrawRequested { this_window: true }), LoopAction::DrawFrame);
    assert_eq!(plan_event(LoopEvent::RedrawRequested { this_window: false }), LoopAction::Forward);
    assert_eq!(plan_event(LoopEvent::Other), LoopAction::Forward);
}

#[test]
fn loop_exits_on_close_of_own_window() {
    assert_eq!(control_after(LoopAction::Exit, OK), ControlFlow::Exit);
    let a = plan_event(LoopEvent::CloseRequested { this_window: false });
    assert_eq!(control_after(a, OK), ControlFlow::Poll);
}

#[test]
fn failed_frame_stage_stops_loop() {
    assert_eq!(control_after(LoopAction::DrawFrame, OK), ControlFlow::Poll);
    for (p, u, r) in [(false, true, true), (true, false, true), (true, true, false), (false, false, false)] {
        let rep = FrameReport { prepared: p, updated: u, rendered: r };
        assert_eq!(control_after(LoopAction::DrawFrame, rep), ControlFlow::Exit);
        assert_eq!(control_after(LoopAction::Tick, rep), ControlFlow::Poll);
    }
}

#[test]
fn frame_budget_is_one_millisecond() {
    assert_eq!(FRAME_STEP_BUDGET_NANOS, Duration::from_millis(1).as_nanos());
}

#[test]
fn meta_starts_at_zero() {
    let m = EngineMeta::new();
    assert_eq!(m.total_frames(), 0);
    assert_eq!(m.delta_nanos(), 0);
    assert_eq!(m.delta_dur(), Duration::from_nanos(0));
}

#[test]
fn meta_render_counts_frames() {
    let mut m = EngineMeta::new();
    m.render();
    m.render();
    m.update();
    m.render();
    assert_eq!(m.total_frames(), 3);
}

#[test]
fn meta_tick_delta_is_time_since_last_tick() {
    let mut m = EngineMeta::new();
    m.tick_at(1_500);
    assert_eq!(m.delta_nanos(), 1_500);
    m.tick_at(4_000);
    assert_eq!(m.delta_nanos(), 2_500);
    assert_eq!(m.delta_dur(), Duration::from_nanos(2_500));
    m.tick_at(3_000);
    assert_eq!(m.delta_nanos(), 0);
    m.tick_at(3_250);
    assert_eq!(m.delta_nanos(), 250);
}

#[test]
fn meta_delta_dur_saturates() {
    let mut m = EngineMeta::new();
    m.tick_at(u128::MAX);
    assert_eq!(m.delta_dur(), Duration::MAX);
}

#[test]
fn meta_delta_dur_keeps_long_spans() {
    let mut m = EngineMeta::new();
    m.tick_at(5_000_000_123);
    assert_eq!(m.delta_dur(), Duration::new(5, 123));
    let long: u128 = (u64::MAX as u128) * 1_000_000_000 + 7;
    m.tick_at(0);
    m.tick_at(long);
    assert_eq!(m.delta_dur(), Duration::new(u64::MAX, 7));
}

#[test]
fn meta_update_delta_reads_clock() {
    let mut m = EngineMeta::new();
    m.update_delta();
    let first = m.delta_nanos();
    m.update_delta();
    assert_eq!(m.total_frames(), 0);
    let _ = first;
}

#[test]
fn frame_stages_run_in_order() {
    let mut frame = FrameProgress::start();
    assert_eq!(frame.report, OK);
    let mut stages = Vec::new();
    while frame.stage != FrameStage::Done {
        stages.push(frame.stage);
        frame = frame.next(true);
    }
    assert_eq!(
        stages,
        vec![
            FrameStage::PrepareFrame,
            FrameStage::BeginUi,
            FrameStage::GameUpdate,
            FrameStage::StepRuntime { budget: 1_000_000 },
            FrameStage::RendererUpdate,
            FrameStage::PrepareRender,
            FrameStage::Render,
        ]
    );
    assert_eq!(frame.report, OK);
    assert_eq!(control_after(LoopAction::DrawFrame, frame.report), ControlFlow::Poll);
}

#[test]
fn failed_update_is_recorded_and_later_stages_run() {
    let mut frame = FrameProgress::start();
    let mut count = 0;
    while frame.stage != FrameStage::Done {
        let ok = frame.stage != FrameStage::RendererUpdate;
        frame = frame.next(ok);
        count += 1;
    }
    assert_eq!(count, 7);
    assert_eq!(frame.report, FrameReport { prepared: true, updated: false, rendered: true });
    assert_eq!(control_after(LoopAction::DrawFrame, frame.report), ControlFlow::Exit);
}
