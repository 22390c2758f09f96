use tauri_egui::event_loop::{
    dispatch_event, extremely_far_future, forwarded_result, frame_nr, frame_result, gl_step,
    lifecycle_result, window_event_result, ControlFlowChoice, EventDispatch, EventResult,
    FrameReport, GlEvent, GlStep, LoopEvent, LoopState, ResultAction, SurfaceSize,
    WindowEventKind, WindowResult, FAR_FUTURE_NANOS,
};
use tauri_egui::Error;

const SECOND: u128 = 1_000_000_000;

#[test]
fn far_future_is_ten_billion_seconds_ahead() {
    assert_eq!(FAR_FUTURE_NANOS, 10_000_000_000 * SECOND);
    assert_eq!(extremely_far_future(7), 7 + 10_000_000_000 * SECOND);
}

#[test]
fn dispatch_fixed_results() {
    assert_eq!(
        dispatch_event(LoopEvent::LoopDestroyed, false),
        EventDispatch::Decided(EventResult::Exit)
    );
    assert_eq!(
        dispatch_event(LoopEvent::RedrawMessage, true),
        EventDispatch::Decided(EventResult::RepaintNow)
    );
    assert_eq!(
        dispatch_event(LoopEvent::ResumeTimeReached, false),
        EventDispatch::Decided(EventResult::Wait)
    );
    assert_eq!(dispatch_event(LoopEvent::Other, true), EventDispatch::ForwardToWindow);
}

#[test]
fn dispatch_paints_on_the_platform_redraw_event() {
    assert_eq!(dispatch_event(LoopEvent::RedrawEventsCleared, true), EventDispatch::PaintFrame);
    assert_eq!(
        dispatch_event(LoopEvent::RedrawEventsCleared, false),
        EventDispatch::ForwardToWindow
    );
    assert_eq!(dispatch_event(LoopEvent::RedrawRequested, false), EventDispatch::PaintFrame);
    assert_eq!(
        dispatch_event(LoopEvent::RedrawRequested, true),
        EventDispatch::ForwardToWindow
    );
}

#[test]
fn begin_event_drops_pending_repaint_before_painting() {
    let mut s = LoopState::new(100);
    assert_eq!(s.next_repaint_time, 100);
    assert!(!s.is_focused());
    let d = s.begin_event(LoopEvent::RedrawRequested, 500, false);
    assert_eq!(d, EventDispatch::PaintFrame);
    assert_eq!(s.next_repaint_time, 500 + FAR_FUTURE_NANOS);
    let d = s.begin_event(LoopEvent::Other, 600, false);
    assert_eq!(d, EventDispatch::ForwardToWindow);
    assert_eq!(s.next_repaint_time, 500 + FAR_FUTURE_NANOS);
}

#[test]
fn forwarded_errors_close_the_window() {
    assert_eq!(forwarded_result(Ok(WindowResult::RepaintNext)), EventResult::RepaintNext);
    assert_eq!(forwarded_result(Ok(WindowResult::Wait)), EventResult::Wait);
    assert_eq!(forwarded_result(Ok(WindowResult::RepaintNow)), EventResult::RepaintNow);
    assert_eq!(forwarded_result(Ok(WindowResult::Exit)), EventResult::Exit);
    assert_eq!(
        forwarded_result(Err(Error::OpenGlContext("lost".to_string()))),
        EventResult::Exit
    );
}

#[test]
fn frame_results() {
    let now = 50 * SECOND;
    assert_eq!(frame_result(None, now), EventResult::Wait);
    let closing = FrameReport { should_close: true, repaint_after: 0, deadline_fits: true };
    assert_eq!(frame_result(Some(closing), now), EventResult::Exit);
    let asap = FrameReport { should_close: false, repaint_after: 0, deadline_fits: true };
    assert_eq!(frame_result(Some(asap), now), EventResult::RepaintNext);
    let later = FrameReport { should_close: false, repaint_after: 3 * SECOND, deadline_fits: true };
    assert_eq!(frame_result(Some(later), now), EventResult::RepaintAt(53 * SECOND));
    let never = FrameReport { should_close: false, repaint_after: u128::MAX, deadline_fits: true };
    assert_eq!(frame_result(Some(never), now), EventResult::Wait);
    let beyond_clock = FrameReport {
        should_close: false,
        repaint_after: 3 * SECOND,
        deadline_fits: false,
    };
    assert_eq!(frame_result(Some(beyond_clock), now), EventResult::Wait);
}

#[test]
fn frame_numbers() {
    assert_eq!(frame_nr(None), 0);
    assert_eq!(frame_nr(Some(42)), 42);
}

#[test]
fn apply_results() {
    let now = 10 * SECOND;
    let mut s = LoopState::new(20 * SECOND);
    assert_eq!(s.apply_event_result(EventResult::Wait, now, false), ResultAction::Nothing);
    assert_eq!(s.next_repaint_time, 20 * SECOND);
    assert_eq!(
        s.apply_event_result(EventResult::RepaintAt(30 * SECOND), now, false),
        ResultAction::Nothing
    );
    assert_eq!(s.next_repaint_time, 20 * SECOND);
    s.apply_event_result(EventResult::RepaintAt(15 * SECOND), now, false);
    assert_eq!(s.next_repaint_time, 15 * SECOND);
    s.apply_event_result(EventResult::RepaintNext, now, true);
    assert_eq!(s.next_repaint_time, now);
    assert_eq!(
        s.apply_event_result(EventResult::RepaintNow, now, true),
        ResultAction::PaintFrame
    );
    assert_eq!(s.next_repaint_time, now + FAR_FUTURE_NANOS);
    assert_eq!(
        s.apply_event_result(EventResult::RepaintNow, now, false),
        ResultAction::Nothing
    );
    assert_eq!(s.next_repaint_time, now);
    assert_eq!(
        s.apply_event_result(EventResult::Exit, now, false),
        ResultAction::SaveAndDestroy
    );
    assert_eq!(s.next_repaint_time, now);
}

#[test]
fn schedule_polls_when_due_and_then_sleeps() {
    let now = 10 * SECOND;
    let mut s = LoopState::new(now);
    assert_eq!(s.schedule(now), (ControlFlowChoice::Poll, true));
    assert_eq!(s.next_repaint_time, now + FAR_FUTURE_NANOS);
    assert_eq!(
        s.schedule(now),
        (ControlFlowChoice::WaitUntil(now + FAR_FUTURE_NANOS), false)
    );
}

#[test]
fn schedule_waits_for_a_future_deadline() {
    let mut s = LoopState::new(30 * SECOND);
    assert_eq!(s.schedule(10 * SECOND), (ControlFlowChoice::WaitUntil(30 * SECOND), false));
    assert_eq!(s.next_repaint_time, 30 * SECOND);
}

#[test]
fn repaint_next_then_schedule_polls() {
    let now = 10 * SECOND;
    let mut s = LoopState::new(99 * SECOND);
    s.apply_event_result(EventResult::RepaintNext, now, true);
    assert_eq!(s.schedule(now).0, ControlFlowChoice::Poll);
}

#[test]
fn gl_steps() {
    let w = WindowEventKind::Focused(true);
    assert_eq!(gl_step(false, GlEvent::Resumed), GlStep::Idle);
    assert_eq!(gl_step(true, GlEvent::Resumed), GlStep::Resume);
    assert_eq!(gl_step(true, GlEvent::Suspended), GlStep::Suspend);
    assert_eq!(gl_step(true, GlEvent::Window(w)), GlStep::Window(w));
    assert_eq!(gl_step(true, GlEvent::Other), GlStep::Idle);
}

#[test]
fn lifecycle_results() {
    assert_eq!(lifecycle_result(true, Ok(())), Ok(WindowResult::RepaintNow));
    assert_eq!(lifecycle_result(false, Ok(())), Ok(WindowResult::Wait));
    assert_eq!(
        lifecycle_result(true, Err(Error::NoGlutinConfigs)),
        Err(Error::NoGlutinConfigs)
    );
}

#[test]
fn window_event_plans() {
    let mut s = LoopState::new(0);
    let p = s.plan_window_event(WindowEventKind::Focused(true), false);
    assert!(s.is_focused);
    assert!(!s.throttle_after_frame());
    assert_eq!(p.resize_to, None);
    assert!(!p.repaint_asap && !p.exit_now);

    let p = s.plan_window_event(WindowEventKind::Resized { width: 0, height: 600 }, false);
    assert_eq!(p.resize_to, None);
    assert!(p.repaint_asap);

    let p = s.plan_window_event(WindowEventKind::Resized { width: 800, height: 600 }, false);
    assert_eq!(p.resize_to, Some(SurfaceSize { width: 800, height: 600 }));

    let p = s.plan_window_event(
        WindowEventKind::ScaleFactorChanged { width: 0, height: 0 },
        false,
    );
    assert_eq!(p.resize_to, Some(SurfaceSize { width: 0, height: 0 }));
    assert!(p.repaint_asap);

    let p = s.plan_window_event(WindowEventKind::CloseRequested, true);
    assert!(p.exit_now && !p.prevent_default);
    let p = s.plan_window_event(WindowEventKind::CloseRequested, false);
    assert!(!p.exit_now && p.prevent_default);
    assert!(s.plan_window_event(WindowEventKind::Other, false).prevent_default);

    s.plan_window_event(WindowEventKind::Focused(false), false);
    assert!(!s.is_focused());
    assert!(s.throttle_after_frame());
}

#[test]
fn window_event_results() {
    assert_eq!(window_event_result(true, true, true), WindowResult::Exit);
    assert_eq!(window_event_result(false, true, true), WindowResult::RepaintNow);
    assert_eq!(window_event_result(false, true, false), WindowResult::RepaintNext);
    assert_eq!(window_event_result(false, false, true), WindowResult::Wait);
}

#[test]
fn non_redraw_events_keep_the_deadline_off_windows() {
    let later = 20 * SECOND;
    for result in [EventResult::Wait, EventResult::Exit, EventResult::RepaintNow, EventResult::RepaintNext] {
        let mut s = LoopState::new(90 * SECOND);
        s.begin_event(LoopEvent::Other, 10 * SECOND, false);
        s.apply_event_result(result, 10 * SECOND, false);
        let (flow, _) = s.schedule(later);
        assert!(flow == ControlFlowChoice::Poll || flow == ControlFlowChoice::WaitUntil(90 * SECOND));
    }
}
