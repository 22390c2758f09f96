//! Scheduling of repaints for the egui window hosted in the Tauri event loop.
//!
//! Time is measured in nanoseconds since a reference instant that the event
//! loop fixes once; the loop hands the current time to every function that
//! needs it.
use vstd::prelude::*;

use crate::error::Error;

verus! {

/// Ten billion seconds, in nanoseconds: the delay the plugin treats as "never".
pub const FAR_FUTURE_NANOS: u128 = 10_000_000_000_000_000_000u128;

/// What handling one event asks of the event loop.
#[derive(Debug, Clone, Copy, PartialEq, Eq, Structural)]
pub enum EventResult {
    /// Nothing to repaint.
    Wait,
    /// Repaint synchronously, inside the event handler.
    RepaintNow,
    /// Repaint on the next redraw of the event loop.
    RepaintNext,
    /// Repaint once the given time is reached.
    RepaintAt(u128),
    /// Close the egui window.
    Exit,
}

/// What handling an event in the OpenGL window asks of the event loop: a
/// window event never asks for a timed repaint, only a painted frame does.
#[derive(Debug, Clone, Copy, PartialEq, Eq, Structural)]
pub enum WindowResult {
    /// Nothing to repaint.
    Wait,
    /// Repaint synchronously, inside the event handler.
    RepaintNow,
    /// Repaint on the next redraw of the event loop.
    RepaintNext,
    /// Close the egui window.
    Exit,
}

/// The event result that a result of the OpenGL window stands for.
pub open spec fn spec_event_result_of(r: WindowResult) -> EventResult {
    match r {
        WindowResult::Wait => EventResult::Wait,
        WindowResult::RepaintNow => EventResult::RepaintNow,
        WindowResult::RepaintNext => EventResult::RepaintNext,
        WindowResult::Exit => EventResult::Exit,
    }
}

/// The result of an event handed to the OpenGL window: an error there closes
/// the window.
pub open spec fn spec_forwarded(outcome: Result<WindowResult, Error>) -> EventResult {
    match outcome {
        Ok(r) => spec_event_result_of(r),
        Err(_) => EventResult::Exit,
    }
}

/// How the event loop should wait for the next event.
#[derive(Debug, Clone, Copy, PartialEq, Eq, Structural)]
pub enum ControlFlowChoice {
    /// Run again at once.
    Poll,
    /// Sleep until the next event.
    Wait,
    /// Sleep until the next event or the given time.
    WaitUntil(u128),
    /// Leave the event loop.
    Exit,
}

/// The events of the Tauri event loop that the plugin tells apart.
#[derive(Debug, Clone, Copy, PartialEq, Eq, Structural)]
pub enum LoopEvent {
    /// The event loop is being torn down.
    LoopDestroyed,
    /// All redraw events of one iteration were handled.
    RedrawEventsCleared,
    /// The platform asks for a redraw of a window.
    RedrawRequested,
    /// A window message asking for a redraw.
    RedrawMessage,
    /// The loop woke up because its wait deadline passed.
    ResumeTimeReached,
    /// Any other event; it is handed on to the OpenGL window.
    Other,
}

/// What the plugin does first with an event of the loop.
#[derive(Debug, Clone, Copy, PartialEq, Eq, Structural)]
pub enum EventDispatch {
    /// The result is known without further work.
    Decided(EventResult),
    /// Paint a frame; its result is the event's result.
    PaintFrame,
    /// Hand the event to the OpenGL window.
    ForwardToWindow,
}

/// What the loop performs after an event's result is known.
#[derive(Debug, Clone, Copy, PartialEq, Eq, Structural)]
pub enum ResultAction {
    /// Nothing more.
    Nothing,
    /// Paint a frame right away (its result is not used).
    PaintFrame,
    /// Save the application state and destroy the window.
    SaveAndDestroy,
}

/// What a frame reported after it was painted.
#[derive(Debug, Clone, Copy, PartialEq, Eq, Structural)]
pub struct FrameReport {
    /// The application asked to close.
    pub should_close: bool,
    /// egui's requested delay before the next repaint, in nanoseconds.
    pub repaint_after: u128,
    /// The event loop's clock can represent the time at which that delay
    /// ends (egui asks for "no repaint" with a delay beyond any clock).
    pub deadline_fits: bool,
}

/// The state the plugin keeps between events.
#[derive(Debug, Clone, Copy, PartialEq, Eq, Structural)]
pub struct LoopState {
    /// When the next repaint is due.
    pub next_repaint_time: u128,
    /// Whether the egui window has the input focus.
    pub is_focused: bool,
}

/// `now` plus ten billion seconds.
pub open spec fn far_future(now: u128) -> int {
    now + FAR_FUTURE_NANOS
}

/// Whether `far_future(now)` fits the time representation.
pub open spec fn far_future_fits(now: u128) -> bool {
    far_future(now) <= u128::MAX
}

pub open spec fn min_time(a: u128, b: u128) -> u128 {
    if a <= b {
        a
    } else {
        b
    }
}

/// The first decision taken on an event of the loop.
pub open spec fn spec_dispatch(event: LoopEvent, on_windows: bool) -> EventDispatch {
    match event {
        LoopEvent::LoopDestroyed => EventDispatch::Decided(EventResult::Exit),
        LoopEvent::RedrawEventsCleared => if on_windows {
            EventDispatch::PaintFrame
        } else {
            EventDispatch::ForwardToWindow
        },
        LoopEvent::RedrawRequested => if !on_windows {
            EventDispatch::PaintFrame
        } else {
            EventDispatch::ForwardToWindow
        },
        LoopEvent::RedrawMessage => EventDispatch::Decided(EventResult::RepaintNow),
        LoopEvent::ResumeTimeReached => EventDispatch::Decided(EventResult::Wait),
        LoopEvent::Other => EventDispatch::ForwardToWindow,
    }
}

/// The repaint deadline after an event's result is applied.
pub open spec fn spec_next_after(
    result: EventResult,
    next: u128,
    now: u128,
    on_windows: bool,
) -> int {
    match result {
        EventResult::Wait => next as int,
        EventResult::RepaintNow => if on_windows {
            far_future(now)
        } else {
            now as int
        },
        EventResult::RepaintNext => now as int,
        EventResult::RepaintAt(t) => min_time(next, t) as int,
        EventResult::Exit => next as int,
    }
}

/// The action that follows an event's result.
pub open spec fn spec_result_action(result: EventResult, on_windows: bool) -> ResultAction {
    match result {
        EventResult::RepaintNow => if on_windows {
            ResultAction::PaintFrame
        } else {
            ResultAction::Nothing
        },
        EventResult::Exit => ResultAction::SaveAndDestroy,
        _ => ResultAction::Nothing,
    }
}

/// Whether a repaint is due at `now`.
pub open spec fn repaint_due(next: u128, now: u128) -> bool {
    next <= now
}

/// The control flow chosen at the end of an event.
pub open spec fn spec_schedule_flow(next: u128, now: u128) -> ControlFlowChoice {
    if repaint_due(next, now) {
        ControlFlowChoice::Poll
    } else {
        ControlFlowChoice::WaitUntil(next)
    }
}

/// The repaint deadline kept after the end of an event.
pub open spec fn spec_schedule_next(next: u128, now: u128) -> int {
    if repaint_due(next, now) {
        far_future(now)
    } else {
        next as int
    }
}

/// The result of a painted frame, or `Wait` when no window is running.
pub open spec fn spec_frame_result(frame: Option<FrameReport>, now: u128) -> EventResult {
    match frame {
        None => EventResult::Wait,
        Some(f) => if f.should_close {
            EventResult::Exit
        } else if f.repaint_after == 0 {
            EventResult::RepaintNext
        } else if f.deadline_fits && now + f.repaint_after <= u128::MAX {
            EventResult::RepaintAt((now + f.repaint_after) as u128)
        } else {
            EventResult::Wait
        },
    }
}

/// The time ten billion seconds after `now`, which the plugin uses as "never".
pub fn extremely_far_future(now: u128) -> (t: u128)
    requires
        far_future_fits(now),
    ensures
        t == far_future(now),
{
    now + FAR_FUTURE_NANOS
}

/// The first decision on an event: some events have a fixed result, the redraw
/// event of the platform paints a frame, and the rest go to the OpenGL window.
/// Windows redraws on `RedrawEventsCleared`, the other platforms on
/// `RedrawRequested`.
pub fn dispatch_event(event: LoopEvent, on_windows: bool) -> (d: EventDispatch)
    ensures
        d == spec_dispatch(event, on_windows),
        event == LoopEvent::RedrawMessage ==> d == EventDispatch::Decided(EventResult::RepaintNow),
{
    match event {
        LoopEvent::LoopDestroyed => EventDispatch::Decided(EventResult::Exit),
        LoopEvent::RedrawEventsCleared => {
            if on_windows {
                EventDispatch::PaintFrame
            } else {
                EventDispatch::ForwardToWindow
            }
        },
        LoopEvent::RedrawRequested => {
            if !on_windows {
                EventDispatch::PaintFrame
            } else {
                EventDispatch::ForwardToWindow
            }
        },
        LoopEvent::RedrawMessage => EventDispatch::Decided(EventResult::RepaintNow),
        LoopEvent::ResumeTimeReached => EventDispatch::Decided(EventResult::Wait),
        LoopEvent::Other => EventDispatch::ForwardToWindow,
    }
}

/// The result of an event handed to the OpenGL window: an error there closes
/// the window.
pub fn forwarded_result(outcome: Result<WindowResult, Error>) -> (r: EventResult)
    ensures
        r == spec_forwarded(outcome),
{
    match outcome {
        Ok(WindowResult::Wait) => EventResult::Wait,
        Ok(WindowResult::RepaintNow) => EventResult::RepaintNow,
        Ok(WindowResult::RepaintNext) => EventResult::RepaintNext,
        Ok(WindowResult::Exit) => EventResult::Exit,
        Err(_) => EventResult::Exit,
    }
}

/// The result of the frame painted after an event: close when the
/// application asked for it, repaint on the next redraw when egui wants a
/// repaint at once, otherwise repaint once egui's delay has passed, or wait
/// when the event loop's clock cannot represent that time.
pub fn frame_result(frame: Option<FrameReport>, now: u128) -> (r: EventResult)
    ensures
        r == spec_frame_result(frame, now),
        (r == EventResult::Exit) <==> (frame matches Some(f) && f.should_close),
{
    match frame {
        None => EventResult::Wait,
        Some(f) => {
            if f.should_close {
                EventResult::Exit
            } else if f.repaint_after == 0 {
                EventResult::RepaintNext
            } else if !f.deadline_fits {
                EventResult::Wait
            } else {
                match now.checked_add(f.repaint_after) {
                    Some(t) => EventResult::RepaintAt(t),
                    None => EventResult::Wait,
                }
            }
        },
    }
}

/// The frame counter of the running window, or zero when none runs.
pub fn frame_nr(running_frame: Option<u64>) -> (n: u64)
    ensures
        n == (match running_frame {
            Some(f) => f,
            None => 0,
        }),
{
    match running_frame {
        Some(f) => f,
        None => 0,
    }
}

impl LoopState {
    /// The state of a plugin created at `now`: unfocused, with a repaint due.
    pub fn new(now: u128) -> (s: Self)
        ensures
            s.next_repaint_time == now,
            !s.is_focused,
    {
        LoopState { next_repaint_time: now, is_focused: false }
    }

    /// Whether the egui window has the input focus.
    pub fn is_focused(&self) -> (b: bool)
        ensures
            b == self.is_focused,
    {
        self.is_focused
    }

    /// Whether the loop should sleep a little after a frame: an unfocused
    /// (maybe minimized) window would otherwise use a whole core.
    pub fn throttle_after_frame(&self) -> (b: bool)
        ensures
            b == !self.is_focused,
    {
        !self.is_focused
    }

    /// The first decision on an event. When it paints a frame, the pending
    /// repaint is dropped first: the repaint deadline moves to the far future.
    pub fn begin_event(&mut self, event: LoopEvent, now: u128, on_windows: bool) -> (d:
        EventDispatch)
        requires
            far_future_fits(now),
        ensures
            d == spec_dispatch(event, on_windows),
            final(self).is_focused == old(self).is_focused,
            final(self).next_repaint_time == (if d == EventDispatch::PaintFrame {
                far_future(now)
            } else {
                old(self).next_repaint_time as int
            }),
    {
        let d = dispatch_event(event, on_windows);
        if let EventDispatch::PaintFrame = d {
            self.next_repaint_time = extremely_far_future(now);
        }
        d
    }

    /// Applies an event's result to the repaint deadline and says what the
    /// loop does next.
    pub fn apply_event_result(&mut self, result: EventResult, now: u128, on_windows: bool) -> (a:
        ResultAction)
        requires
            far_future_fits(now),
        ensures
            a == spec_result_action(result, on_windows),
            final(self).next_repaint_time == spec_next_after(
                result,
                old(self).next_repaint_time,
                now,
                on_windows,
            ),
            final(self).is_focused == old(self).is_focused,
    {
        match result {
            EventResult::Wait => ResultAction::Nothing,
            EventResult::RepaintNow => {
                if on_windows {
                    self.next_repaint_time = extremely_far_future(now);
                    ResultAction::PaintFrame
                } else {
                    self.next_repaint_time = now;
                    ResultAction::Nothing
                }
            },
            EventResult::RepaintNext => {
                self.next_repaint_time = now;
                ResultAction::Nothing
            },
            EventResult::RepaintAt(t) => {
                if t < self.next_repaint_time {
                    self.next_repaint_time = t;
                }
                ResultAction::Nothing
            },
            EventResult::Exit => ResultAction::SaveAndDestroy,
        }
    }

    /// The control flow at the end of an event. When a repaint is due, the
    /// loop runs again at once, a redraw of the window is requested (the
    /// returned flag) and the deadline moves to the far future; otherwise the
    /// loop sleeps until the deadline.
    pub fn schedule(&mut self, now: u128) -> (r: (ControlFlowChoice, bool))
        requires
            far_future_fits(now),
        ensures
            r.0 == spec_schedule_flow(old(self).next_repaint_time, now),
            r.1 == repaint_due(old(self).next_repaint_time, now),
            final(self).next_repaint_time == spec_schedule_next(old(self).next_repaint_time, now),
            final(self).is_focused == old(self).is_focused,
    {
        if self.next_repaint_time <= now {
            self.next_repaint_time = extremely_far_future(now);
            (ControlFlowChoice::Poll, true)
        } else {
            (ControlFlowChoice::WaitUntil(self.next_repaint_time), false)
        }
    }
}

/// The window events that the OpenGL window reacts to.
#[derive(Debug, Clone, Copy, PartialEq, Eq, Structural)]
pub enum WindowEventKind {
    /// The window gained (`true`) or lost (`false`) the input focus.
    Focused(bool),
    /// The window's client area was resized.
    Resized { width: u32, height: u32 },
    /// The scale factor changed; the new client-area size is given.
    ScaleFactorChanged { width: u32, height: u32 },
    /// The user asked to close the window.
    CloseRequested,
    /// Any other window event.
    Other,
}

/// The events handed to the OpenGL window.
#[derive(Debug, Clone, Copy, PartialEq, Eq, Structural)]
pub enum GlEvent {
    /// The application resumed: the surface must be (re)created.
    Resumed,
    /// The application was suspended: the surface must be dropped.
    Suspended,
    /// An event of the egui window.
    Window(WindowEventKind),
    /// Anything else.
    Other,
}

/// What the OpenGL window does with an event.
#[derive(Debug, Clone, Copy, PartialEq, Eq, Structural)]
pub enum GlStep {
    /// Nothing: the result is `Wait`.
    Idle,
    /// Create the surface and make the context current.
    Resume,
    /// Drop the surface and make the context not current.
    Suspend,
    /// Handle a window event.
    Window(WindowEventKind),
}

/// A size in physical pixels.
#[derive(Debug, Clone, Copy, PartialEq, Eq, Structural)]
pub struct SurfaceSize {
    pub width: u32,
    pub height: u32,
}

/// What the OpenGL window does with a window event before egui sees it.
#[derive(Debug, Clone, Copy, PartialEq, Eq, Structural)]
pub struct WindowEventPlan {
    /// Resize the surface to this client-area size.
    pub resize_to: Option<SurfaceSize>,
    /// A repaint that follows must happen inside the handler.
    pub repaint_asap: bool,
    /// Close at once, without showing the event to egui.
    pub exit_now: bool,
    /// egui sees the event, so Tauri skips its own handling of it.
    pub prevent_default: bool,
}

/// The step for an event handed to the OpenGL window.
pub open spec fn spec_gl_step(running: bool, event: GlEvent) -> GlStep {
    if !running {
        GlStep::Idle
    } else {
        match event {
            GlEvent::Resumed => GlStep::Resume,
            GlEvent::Suspended => GlStep::Suspend,
            GlEvent::Window(w) => GlStep::Window(w),
            GlEvent::Other => GlStep::Idle,
        }
    }
}

/// The plan for a window event, given whether the application already asked
/// to close.
pub open spec fn spec_window_event_plan(event: WindowEventKind, should_close: bool) -> WindowEventPlan {
    match event {
        WindowEventKind::Resized { width, height } => WindowEventPlan {
            resize_to: if width > 0 && height > 0 {
                Some(SurfaceSize { width, height })
            } else {
                None
            },
            repaint_asap: true,
            exit_now: false,
            prevent_default: true,
        },
        WindowEventKind::ScaleFactorChanged { width, height } => WindowEventPlan {
            resize_to: Some(SurfaceSize { width, height }),
            repaint_asap: true,
            exit_now: false,
            prevent_default: true,
        },
        WindowEventKind::CloseRequested => WindowEventPlan {
            resize_to: None,
            repaint_asap: false,
            exit_now: should_close,
            prevent_default: !should_close,
        },
        _ => WindowEventPlan {
            resize_to: None,
            repaint_asap: false,
            exit_now: false,
            prevent_default: true,
        },
    }
}

/// The result of a window event once egui has seen it.
pub open spec fn spec_window_event_result(should_close: bool, repaint: bool, repaint_asap: bool) -> WindowResult {
    if should_close {
        WindowResult::Exit
    } else if repaint {
        if repaint_asap {
            WindowResult::RepaintNow
        } else {
            WindowResult::RepaintNext
        }
    } else {
        WindowResult::Wait
    }
}

/// The step the OpenGL window takes on an event: nothing when no window runs,
/// otherwise resume, suspend or handle a window event; other events are
/// ignored.
pub fn gl_step(running: bool, event: GlEvent) -> (s: GlStep)
    ensures
        s == spec_gl_step(running, event),
{
    if !running {
        return GlStep::Idle;
    }
    match event {
        GlEvent::Resumed => GlStep::Resume,
        GlEvent::Suspended => GlStep::Suspend,
        GlEvent::Window(w) => GlStep::Window(w),
        GlEvent::Other => GlStep::Idle,
    }
}

/// The result of a resume or suspend step: a resumed window is repainted at
/// once, a suspended one waits; a failure of the OpenGL calls is passed on.
pub fn lifecycle_result(resumed: bool, outcome: Result<(), Error>) -> (r: Result<WindowResult, Error>)
    ensures
        match outcome {
            Ok(()) => r == Ok::<WindowResult, Error>(
                if resumed {
                    WindowResult::RepaintNow
                } else {
                    WindowResult::Wait
                },
            ),
            Err(e) => r == Err::<WindowResult, Error>(e),
        },
{
    match outcome {
        Ok(()) => {
            if resumed {
                Ok(WindowResult::RepaintNow)
            } else {
                Ok(WindowResult::Wait)
            }
        },
        Err(e) => Err(e),
    }
}

/// The result of a window event once egui has seen it: close when the
/// application asks for it; otherwise repaint when egui asks for it, inside
/// the handler after a resize (so that the compositor gets a frame in time),
/// on the next redraw otherwise.
pub fn window_event_result(should_close: bool, repaint: bool, repaint_asap: bool) -> (r:
    WindowResult)
    ensures
        r == spec_window_event_result(should_close, repaint, repaint_asap),
        (r == WindowResult::Exit) <==> should_close,
{
    if should_close {
        WindowResult::Exit
    } else if repaint {
        if repaint_asap {
            WindowResult::RepaintNow
        } else {
            WindowResult::RepaintNext
        }
    } else {
        WindowResult::Wait
    }
}

impl LoopState {
    /// The plan for a window event. A focus change is recorded; a resize to a
    /// zero width or height (how Windows signals a minimized window) does not
    /// resize the surface; a close request closes at once when the
    /// application already asked to close. Every event that egui then sees is
    /// kept from Tauri's own handling.
    pub fn plan_window_event(&mut self, event: WindowEventKind, should_close: bool) -> (p:
        WindowEventPlan)
        ensures
            p == spec_window_event_plan(event, should_close),
            final(self).is_focused == (match event {
                WindowEventKind::Focused(f) => f,
                _ => old(self).is_focused,
            }),
            final(self).next_repaint_time == old(self).next_repaint_time,
    {
        match event {
            WindowEventKind::Focused(f) => {
                self.is_focused = f;
                WindowEventPlan { resize_to: None, repaint_asap: false, exit_now: false, prevent_default: true }
            },
            WindowEventKind::Resized { width, height } => {
                let resize_to = if width > 0 && height > 0 {
                    Some(SurfaceSize { width, height })
                } else {
                    None
                };
                WindowEventPlan { resize_to, repaint_asap: true, exit_now: false, prevent_default: true }
            },
            WindowEventKind::ScaleFactorChanged { width, height } => {
                WindowEventPlan {
                    resize_to: Some(SurfaceSize { width, height }),
                    repaint_asap: true,
                    exit_now: false,
                    prevent_default: true,
                }
            },
            WindowEventKind::CloseRequested => {
                WindowEventPlan {
                    resize_to: None,
                    repaint_asap: false,
                    exit_now: should_close,
                    prevent_default: !should_close,
                }
            },
            WindowEventKind::Other => {
                WindowEventPlan { resize_to: None, repaint_asap: false, exit_now: false, prevent_default: true }
            },
        }
    }
}

/// The result an event gets when no frame is painted for it: a fixed one,
/// or the one the OpenGL window gives.
pub open spec fn spec_unpainted_result(
    event: LoopEvent,
    on_windows: bool,
    forwarded: Result<WindowResult, Error>,
) -> EventResult {
    match spec_dispatch(event, on_windows) {
        EventDispatch::Decided(r) => r,
        _ => spec_forwarded(forwarded),
    }
}

/// Away from Windows, an event other than the platform's redraw never
/// postpones or moves a pending repaint: whatever the OpenGL window makes of
/// it, once its result is applied at `now` and the loop is scheduled at
/// `later`, the loop either runs again at once or keeps waiting for the same
/// deadline. The clock must not run backwards between the two readings.
pub proof fn law_non_redraw_event_keeps_deadline(
    event: LoopEvent,
    forwarded: Result<WindowResult, Error>,
    next: u128,
    now: u128,
    later: u128,
)
    requires
        event != LoopEvent::RedrawRequested,
        now <= later,
        far_future_fits(now),
        far_future_fits(later),
    ensures
        spec_dispatch(event, false) != EventDispatch::PaintFrame,
        ({
            let kept = spec_next_after(
                spec_unpainted_result(event, false, forwarded),
                next,
                now,
                false,
            ) as u128;
            spec_schedule_flow(kept, later) == ControlFlowChoice::Poll || (kept == next
                && spec_schedule_flow(kept, later) == ControlFlowChoice::WaitUntil(next))
        }),
{
}

/// A resize of the window is always repainted inside the handler when egui
/// asks for a repaint, and never closes the window by itself.
pub proof fn law_resize_repaints_now(width: u32, height: u32, should_close: bool, repaint: bool)
    ensures
        ({
            let p = spec_window_event_plan(WindowEventKind::Resized { width, height }, should_close);
            !p.exit_now && (repaint && !should_close ==> spec_window_event_result(
                false,
                repaint,
                p.repaint_asap,
            ) == WindowResult::RepaintNow)
        }),
{
}

/// A repaint deadline never lies in the past once an event is done: after
/// `schedule`, the deadline is later than `now`, and a `WaitUntil` waits for
/// exactly that deadline.
pub proof fn law_schedule_deadline_in_future(next: u128, now: u128)
    requires
        far_future_fits(now),
    ensures
        spec_schedule_next(next, now) > now,
        spec_schedule_flow(next, now) matches ControlFlowChoice::WaitUntil(t) ==> t > now && t
            == spec_schedule_next(next, now),
{
}

/// Asking for a repaint on the next redraw makes the loop run again at once,
/// on every platform, as does an immediate repaint away from Windows.
pub proof fn law_repaint_next_polls(next: u128, now: u128, on_windows: bool)
    requires
        far_future_fits(now),
    ensures
        spec_schedule_flow(
            spec_next_after(EventResult::RepaintNext, next, now, on_windows) as u128,
            now,
        ) == ControlFlowChoice::Poll,
        !on_windows ==> spec_schedule_flow(
            spec_next_after(EventResult::RepaintNow, next, now, on_windows) as u128,
            now,
        ) == ControlFlowChoice::Poll,
{
}

/// A timed repaint request only ever brings the deadline forward: the new
/// deadline is the earlier of the old one and the request.
pub proof fn law_repaint_at_keeps_earliest(next: u128, t: u128, now: u128, on_windows: bool)
    ensures
        spec_next_after(EventResult::RepaintAt(t), next, now, on_windows) <= next,
        spec_next_after(EventResult::RepaintAt(t), next, now, on_windows) <= t,
        spec_next_after(EventResult::RepaintAt(t), next, now, on_windows) == next
            || spec_next_after(EventResult::RepaintAt(t), next, now, on_windows) == t,
{
}

/// The loop never polls twice in a row without a new repaint request: once a
/// due repaint was scheduled, scheduling again at the same time sleeps until
/// the far future.
pub proof fn law_no_busy_polling(next: u128, now: u128)
    requires
        far_future_fits(now),
    ensures
        spec_schedule_flow(spec_schedule_next(next, now) as u128, now)
            == ControlFlowChoice::WaitUntil(spec_schedule_next(next, now) as u128),
{
}

/// An event whose result is `Wait` leaves the schedule as it was.
pub proof fn law_wait_keeps_schedule(next: u128, now: u128, on_windows: bool)
    ensures
        spec_next_after(EventResult::Wait, next, now, on_windows) == next,
        spec_result_action(EventResult::Wait, on_windows) == ResultAction::Nothing,
{
}

/// Closing the window is the one result that saves the application state and
/// destroys the window.
pub proof fn law_exit_destroys(result: EventResult, on_windows: bool)
    ensures
        (spec_result_action(result, on_windows) == ResultAction::SaveAndDestroy) <==> (result
            == EventResult::Exit),
{
}


/// Once the application asks to close after egui saw a window event, the
/// window closes, whatever egui answers about repainting; and it closes only
/// then. Without a close, a repaint request is never dropped: it is honoured
/// inside the handler after a resize and on the next redraw otherwise.
pub proof fn law_close_request_wins(should_close: bool, repaint: bool, repaint_asap: bool)
    ensures
        should_close ==> spec_window_event_result(should_close, repaint, repaint_asap)
            == WindowResult::Exit,
        !should_close ==> spec_window_event_result(should_close, repaint, repaint_asap)
            != WindowResult::Exit,
        !should_close && repaint && repaint_asap ==> spec_window_event_result(
            should_close,
            repaint,
            repaint_asap,
        ) == WindowResult::RepaintNow,
        !should_close && repaint && !repaint_asap ==> spec_window_event_result(
            should_close,
            repaint,
            repaint_asap,
        ) == WindowResult::RepaintNext,
        !should_close && !repaint ==> spec_window_event_result(should_close, repaint, repaint_asap)
            == WindowResult::Wait,
{
}

/// A painted frame in which the application asked to close always closes
/// the window, whatever egui's repaint delay and whether the clock can
/// represent it; a frame without that request never closes it, and no frame
/// closes a window that is not running.
pub proof fn law_frame_close_wins(f: FrameReport, now: u128)
    ensures
        f.should_close ==> spec_frame_result(Some(f), now) == EventResult::Exit,
        !f.should_close ==> spec_frame_result(Some(f), now) != EventResult::Exit,
        spec_frame_result(None, now) == EventResult::Wait,
        !f.should_close && f.repaint_after == 0 ==> spec_frame_result(Some(f), now)
            == EventResult::RepaintNext,
        spec_frame_result(Some(f), now) matches EventResult::RepaintAt(t) ==> t == now
            + f.repaint_after && f.deadline_fits,
{
}

/// A redraw message (egui's repaint callback) is a request to repaint at
/// once on every platform: away from Windows the loop then runs again at
/// once and asks the window for a redraw; on Windows the frame is painted
/// inside the handler.
pub proof fn law_redraw_message_repaints(on_windows: bool, next: u128, now: u128, later: u128)
    requires
        now <= later,
        far_future_fits(now),
        far_future_fits(later),
    ensures
        spec_dispatch(LoopEvent::RedrawMessage, on_windows) == EventDispatch::Decided(
            EventResult::RepaintNow,
        ),
        !on_windows ==> spec_schedule_flow(
            spec_next_after(EventResult::RepaintNow, next, now, on_windows) as u128,
            later,
        ) == ControlFlowChoice::Poll,
        !on_windows ==> repaint_due(
            spec_next_after(EventResult::RepaintNow, next, now, on_windows) as u128,
            later,
        ),
        on_windows ==> spec_result_action(EventResult::RepaintNow, on_windows)
            == ResultAction::PaintFrame,
{
}

/// What each event of the loop leads to: the loop's teardown closes the
/// window, a wake-up at the deadline does nothing, a frame is painted on the
/// platform's redraw event (`RedrawEventsCleared` on Windows,
/// `RedrawRequested` elsewhere) and on no other event, and everything else is
/// handed to the OpenGL window.
pub proof fn law_dispatch_table(event: LoopEvent, on_windows: bool)
    ensures
        spec_dispatch(LoopEvent::LoopDestroyed, on_windows) == EventDispatch::Decided(
            EventResult::Exit,
        ),
        spec_dispatch(LoopEvent::ResumeTimeReached, on_windows) == EventDispatch::Decided(
            EventResult::Wait,
        ),
        spec_dispatch(LoopEvent::Other, on_windows) == EventDispatch::ForwardToWindow,
        (spec_dispatch(event, on_windows) == EventDispatch::PaintFrame) <==> ((event
            == LoopEvent::RedrawEventsCleared && on_windows) || (event
            == LoopEvent::RedrawRequested && !on_windows)),
{
}

/// The loop runs again at once, asking for a redraw, exactly when the
/// repaint deadline has come; otherwise it sleeps until that very deadline.
pub proof fn law_schedule_polls_exactly_when_due(next: u128, now: u128)
    ensures
        (spec_schedule_flow(next, now) == ControlFlowChoice::Poll) <==> next <= now,
        next > now ==> spec_schedule_flow(next, now) == ControlFlowChoice::WaitUntil(next),
        next > now ==> spec_schedule_next(next, now) == next,
{
}

/// An immediate repaint on Windows paints inside the handler and drops the
/// pending deadline; elsewhere it makes the repaint due at once. A close
/// keeps the deadline.
pub proof fn law_repaint_now_by_platform(next: u128, now: u128)
    requires
        far_future_fits(now),
    ensures
        spec_next_after(EventResult::RepaintNow, next, now, true) == now + FAR_FUTURE_NANOS,
        spec_result_action(EventResult::RepaintNow, true) == ResultAction::PaintFrame,
        spec_next_after(EventResult::RepaintNow, next, now, false) == now,
        spec_result_action(EventResult::RepaintNow, false) == ResultAction::Nothing,
        spec_next_after(EventResult::Exit, next, now, false) == next,
        spec_next_after(EventResult::RepaintNext, next, now, true) == now,
{
}

/// The OpenGL window ignores everything while no window runs; while one
/// runs it resumes, suspends or handles window events as they come, and
/// ignores the rest.
pub proof fn law_gl_step_table(running: bool, event: GlEvent)
    ensures
        !running ==> spec_gl_step(running, event) == GlStep::Idle,
        running && event == GlEvent::Resumed ==> spec_gl_step(running, event) == GlStep::Resume,
        running && event == GlEvent::Suspended ==> spec_gl_step(running, event) == GlStep::Suspend,
        running ==> (event matches GlEvent::Window(w) ==> spec_gl_step(running, event)
            == GlStep::Window(w)),
        running && event == GlEvent::Other ==> spec_gl_step(running, event) == GlStep::Idle,
{
}

/// A resize to a non-empty size resizes the surface to exactly that size, an
/// empty one (a minimized window) does not; a scale change always resizes; a
/// close request closes at once exactly when the application already asked
/// to close, and only then keeps the event from Tauri.
pub proof fn law_window_event_plan_table(width: u32, height: u32, should_close: bool, f: bool)
    ensures
        width > 0 && height > 0 ==> spec_window_event_plan(
            WindowEventKind::Resized { width, height },
            should_close,
        ).resize_to == Some(SurfaceSize { width, height }),
        (width == 0 || height == 0) ==> spec_window_event_plan(
            WindowEventKind::Resized { width, height },
            should_close,
        ).resize_to is None,
        spec_window_event_plan(WindowEventKind::ScaleFactorChanged { width, height }, should_close).resize_to
            == Some(SurfaceSize { width, height }),
        spec_window_event_plan(WindowEventKind::CloseRequested, should_close).exit_now == should_close,
        spec_window_event_plan(WindowEventKind::CloseRequested, should_close).prevent_default
            == !should_close,
        !spec_window_event_plan(WindowEventKind::Focused(f), should_close).exit_now,
        spec_window_event_plan(WindowEventKind::Focused(f), should_close).resize_to is None,
{
}
} // verus!
