//! The registry of OpenGL windows that the plugin keeps beside Tauri's
//! webviews, and the per-platform render-loop decisions for them.
//!
//! At most one egui window is live at a time: creating a new one closes the
//! previous one. Window ids are the webview ids of Tauri and are drawn at
//! random.
use std::collections::HashMap;
use std::cell::RefCell;
use std::rc::Rc;
use vstd::prelude::*;

use crate::event_loop::{spec_dispatch, ControlFlowChoice, EventDispatch, LoopEvent, SurfaceSize, WindowEventKind};

verus! {

broadcast use vstd::std_specs::hash::group_hash_axioms;

/// A value either owned or shared behind a reference count.
pub enum MaybeRc<T> {
    Actual(T),
    Rc(Rc<T>),
}

impl<T> MaybeRc<T> {
    /// The value this holds, wherever it lives.
    pub open spec fn value(&self) -> T {
        match self {
            MaybeRc::Actual(t) => *t,
            MaybeRc::Rc(r) => **r,
        }
    }

    /// An owned value.
    pub fn new(t: T) -> (r: Self)
        ensures
            r is Actual,
            r.value() == t,
    {
        MaybeRc::Actual(t)
    }

}

impl<T> AsRef<T> for MaybeRc<T> {
    /// A reference to the value, owned or shared.
    fn as_ref(&self) -> (r: &T)
        ensures
            *r == self.value(),
    {
        match self {
            MaybeRc::Actual(t) => t,
            MaybeRc::Rc(r) => &**r,
        }
    }
}

impl<T> std::borrow::Borrow<T> for MaybeRc<T> {
    /// The value, owned or shared.
    fn borrow(&self) -> &T
        returns
            &self.value(),
    {
        match self {
            MaybeRc::Actual(t) => t,
            MaybeRc::Rc(r) => &**r,
        }
    }
}

#[verifier::external_type_specification]
#[verifier::external_body]
#[verifier::reject_recursive_types(T)]
pub struct ExRefCell<T: ?Sized>(RefCell<T>);

/// `RefCell::new` wraps a value in a new cell; nothing is claimed of the
/// cell's contents, which verified code never reads.
pub assume_specification<T>[ RefCell::<T>::new ](value: T) -> RefCell<T>;

impl<T> std::ops::Deref for MaybeRc<T> {
    type Target = T;

    fn deref(&self) -> (r: &T)
        ensures
            *r == self.value(),
    {
        match self {
            MaybeRc::Actual(t) => t,
            MaybeRc::Rc(r) => &**r,
        }
    }
}

/// A cell either owned or shared behind a reference count.
#[verifier::reject_recursive_types(T)]
pub enum MaybeRcCell<T> {
    Actual(RefCell<T>),
    RcCell(Rc<RefCell<T>>),
}

impl<T> MaybeRcCell<T> {
    /// An owned cell holding `t`: the cell is one that `RefCell::new` makes
    /// from `t`.
    pub fn new(t: T) -> (r: Self)
        ensures
            r matches MaybeRcCell::Actual(c) && call_ensures(RefCell::<T>::new, (t,), c),
    {
        MaybeRcCell::Actual(RefCell::new(t))
    }

    /// The cell, owned or shared.
    pub fn as_cell(&self) -> (r: &RefCell<T>)
        ensures
            *r == (match self {
                MaybeRcCell::Actual(c) => *c,
                MaybeRcCell::RcCell(rc) => **rc,
            }),
    {
        match self {
            MaybeRcCell::Actual(c) => c,
            MaybeRcCell::RcCell(rc) => &**rc,
        }
    }
}

impl<T> std::ops::Deref for MaybeRcCell<T> {
    type Target = RefCell<T>;

    fn deref(&self) -> (r: &RefCell<T>)
        ensures
            *r == (match self {
                MaybeRcCell::Actual(c) => *c,
                MaybeRcCell::RcCell(rc) => **rc,
            }),
    {
        self.as_cell()
    }
}

/// What the registry records of a window.
pub struct WindowEntry {
    /// The window's label.
    pub label: String,
    /// The native window's title.
    pub title: String,
    /// The window has a menu.
    pub has_menu_items: bool,
    /// The window still has its OpenGL context.
    pub has_context: bool,
}

/// A window that must be closed before a new one is created.
#[derive(Debug, Clone, Copy, PartialEq, Eq, Structural)]
pub struct PreviousWindow {
    /// Its id; a close message is sent for it.
    pub id: u64,
    /// Its OpenGL context is still there: the application is told it exits
    /// and the painter is destroyed.
    pub tear_down: bool,
}

/// What the live egui window does once one of its window events was handled.
#[derive(Debug, Clone, Copy, PartialEq, Eq, Structural)]
pub struct WindowEventFlow {
    /// The control flow to set, if any.
    pub control_flow: Option<ControlFlowChoice>,
    /// The window is to be closed at the end of the iteration.
    pub should_quit: bool,
    /// Ask the window for another redraw.
    pub request_redraw: bool,
    /// Tauri skips its own handling of the event.
    pub prevent_default: bool,
}

/// What the end of handling a window event of the live window decided.
#[derive(Debug, Clone, Copy, PartialEq, Eq, Structural)]
pub struct WindowEventReport {
    /// The flow after the event.
    pub flow: WindowEventFlow,
    /// What closing the window did, when the application asked to quit.
    pub closed: ClosedWindow,
}

/// What closing a window did.
#[derive(Debug, Clone, Copy, PartialEq, Eq, Structural)]
pub struct ClosedWindow {
    /// The window was registered, and is now closed.
    pub registered: bool,
    /// It still had its OpenGL context: the application is told it exits and
    /// the painter is destroyed.
    pub tear_down: bool,
}

/// The OpenGL windows, the listener tables kept for them and which one is
/// the live egui window.
pub struct WindowRegistry {
    /// The live egui window.
    pub egui_id: Option<u64>,
    /// Every window created, by id.
    pub windows: HashMap<u64, WindowEntry>,
    /// The windows that have a table of window-event listeners, with the
    /// number of listeners in it.
    pub event_listeners: HashMap<u64, u64>,
    /// The windows that have a table of menu-event listeners, with the
    /// number of listeners in it.
    pub menu_listeners: HashMap<u64, u64>,
    /// The webview id of each native window, by the native window's id.
    pub native_windows: HashMap<u64, u64>,
}

/// A random window id, drawn by `rand::random::<u64>()`. Nothing is claimed of
/// the value: any `u64` may come back, also one already in use.
#[verifier::external_body]
fn random_webview_id() -> (id: u64) {
    rand::random::<u64>()
}

/// What a window event asks of the live egui window before egui sees it.
#[derive(Debug, Clone, Copy, PartialEq, Eq, Structural)]
pub struct WindowEventActions {
    /// Record the new focus.
    pub focus: Option<bool>,
    /// Resize the context to this size.
    pub resize_to: Option<SurfaceSize>,
    /// Ask the listeners whether the window may close.
    pub close_requested: bool,
}

/// What the render loop of Windows and macOS decided after a frame.
#[derive(Debug, Clone, Copy, PartialEq, Eq, Structural)]
pub struct FrameFlow {
    pub control_flow: ControlFlowChoice,
    /// The application asked to quit.
    pub should_quit: bool,
    /// Ask the window for another redraw.
    pub request_redraw: bool,
}

/// The windows after window `id` was created with `label`.
pub open spec fn spec_created_windows(
    windows: Map<u64, WindowEntry>,
    id: u64,
    label: String,
    title: String,
) -> Map<u64, WindowEntry> {
    windows.insert(id, WindowEntry { label, title, has_menu_items: false, has_context: true })
}

/// The windows after window `id` was closed: when registered, it keeps its
/// label and loses its OpenGL context.
pub open spec fn spec_closed_windows(windows: Map<u64, WindowEntry>, id: u64) -> Map<u64, WindowEntry> {
    if windows.contains_key(id) {
        windows.insert(id, WindowEntry { has_context: false, ..windows[id] })
    } else {
        windows
    }
}

/// What closing window `id` reports.
pub open spec fn spec_close_report(windows: Map<u64, WindowEntry>, id: u64) -> ClosedWindow {
    ClosedWindow {
        registered: windows.contains_key(id),
        tear_down: windows.contains_key(id) && windows[id].has_context,
    }
}

/// The live egui window after window `id` was closed: none if it was `id`.
pub open spec fn spec_live_after_close(live: Option<u64>, id: u64) -> Option<u64> {
    if live == Some(id) {
        None
    } else {
        live
    }
}

/// The flow chosen after a frame on Windows and macOS.
pub open spec fn spec_frame_flow(should_quit: bool, needs_repaint: bool) -> FrameFlow {
    if should_quit {
        FrameFlow { control_flow: ControlFlowChoice::Wait, should_quit: true, request_redraw: false }
    } else if needs_repaint {
        FrameFlow { control_flow: ControlFlowChoice::Poll, should_quit: false, request_redraw: true }
    } else {
        FrameFlow { control_flow: ControlFlowChoice::Wait, should_quit: false, request_redraw: false }
    }
}

/// The flow after a window event of the live egui window: when egui saw
/// it and the application then asked to quit, the loop waits and the window
/// is closed at the end of the iteration; when egui saw it, a redraw is
/// requested; Tauri's own handling is skipped in every case.
pub open spec fn spec_window_event_flow(egui_saw: Option<bool>, quit_before: bool) -> WindowEventFlow {
    match egui_saw {
        Some(quit) => WindowEventFlow {
            control_flow: if quit {
                Some(ControlFlowChoice::Wait)
            } else {
                None
            },
            should_quit: quit_before || quit,
            request_redraw: true,
            prevent_default: true,
        },
        None => WindowEventFlow {
            control_flow: None,
            should_quit: quit_before,
            request_redraw: false,
            prevent_default: true,
        },
    }
}

/// The render flag that the Linux render callback stores after a frame.
pub open spec fn spec_render_flow(should_quit: bool, needs_repaint: bool) -> u8 {
    if should_quit {
        1
    } else if needs_repaint {
        0
    } else {
        1
    }
}

/// The control flow for a stored render flag.
pub open spec fn spec_flow_of_flag(flag: u8) -> ControlFlowChoice {
    if flag == 0 {
        ControlFlowChoice::Poll
    } else if flag == 1 {
        ControlFlowChoice::Wait
    } else {
        ControlFlowChoice::Exit
    }
}

/// The actions a window event of the live egui window asks for.
pub open spec fn spec_window_event_actions(event: WindowEventKind) -> WindowEventActions {
    match event {
        WindowEventKind::Focused(f) => WindowEventActions {
            focus: Some(f),
            resize_to: None,
            close_requested: false,
        },
        WindowEventKind::Resized { width, height } => WindowEventActions {
            focus: None,
            resize_to: Some(SurfaceSize { width, height }),
            close_requested: false,
        },
        WindowEventKind::CloseRequested => WindowEventActions {
            focus: None,
            resize_to: None,
            close_requested: true,
        },
        _ => WindowEventActions { focus: None, resize_to: None, close_requested: false },
    }
}

/// Whether a window event of the live egui window asks for a redraw of a
/// frame on this platform: Windows redraws on `RedrawEventsCleared`, the
/// other platforms on `RedrawRequested`.
pub fn paint_due(event: LoopEvent, on_windows: bool) -> (b: bool)
    ensures
        b == ((event == LoopEvent::RedrawEventsCleared && on_windows) || (event
            == LoopEvent::RedrawRequested && !on_windows)),
{
    match event {
        LoopEvent::RedrawEventsCleared => on_windows,
        LoopEvent::RedrawRequested => !on_windows,
        _ => false,
    }
}

/// The flow after a frame on Windows and macOS: wait and remember to quit
/// when the application asked to; otherwise run again at once and request a
/// redraw when egui needs a repaint, or wait.
pub fn frame_flow(should_quit: bool, needs_repaint: bool) -> (f: FrameFlow)
    ensures
        f == spec_frame_flow(should_quit, needs_repaint),
        f.should_quit == should_quit,
{
    if should_quit {
        FrameFlow { control_flow: ControlFlowChoice::Wait, should_quit: true, request_redraw: false }
    } else if needs_repaint {
        FrameFlow { control_flow: ControlFlowChoice::Poll, should_quit: false, request_redraw: true }
    } else {
        FrameFlow { control_flow: ControlFlowChoice::Wait, should_quit: false, request_redraw: false }
    }
}

/// What the live egui window does once a window event of its own was
/// handled. `egui_saw` is `None` when the event did not reach egui (a close
/// request that closed the window), otherwise whether the application asked
/// to quit after egui saw it; `quit_before` says whether the frame painted
/// earlier in this iteration already asked to quit.
pub fn window_event_flow(egui_saw: Option<bool>, quit_before: bool) -> (f: WindowEventFlow)
    ensures
        f == spec_window_event_flow(egui_saw, quit_before),
{
    match egui_saw {
        Some(quit) => WindowEventFlow {
            control_flow: if quit {
                Some(ControlFlowChoice::Wait)
            } else {
                None
            },
            should_quit: quit_before || quit,
            request_redraw: true,
            prevent_default: true,
        },
        None => WindowEventFlow {
            control_flow: None,
            should_quit: quit_before,
            request_redraw: false,
            prevent_default: true,
        },
    }
}

/// The flag the Linux render callback stores after a frame: 0 to run again
/// at once, 1 to wait.
pub fn render_flow(should_quit: bool, needs_repaint: bool) -> (flag: u8)
    ensures
        flag == spec_render_flow(should_quit, needs_repaint),
{
    if should_quit {
        1
    } else if needs_repaint {
        0
    } else {
        1
    }
}

/// The Linux render loop: once the main events of an iteration are handled,
/// a render is queued and the stored flag chooses the control flow (0: poll,
/// 1: wait, 2: exit); other events change nothing.
pub fn linux_gl_loop(main_events_cleared: bool, flag: u8) -> (r: Option<ControlFlowChoice>)
    requires
        flag <= 2,
    ensures
        r == (if main_events_cleared {
            Some(spec_flow_of_flag(flag))
        } else {
            None::<ControlFlowChoice>
        }),
{
    if !main_events_cleared {
        return None;
    }
    if flag == 0 {
        Some(ControlFlowChoice::Poll)
    } else if flag == 1 {
        Some(ControlFlowChoice::Wait)
    } else {
        Some(ControlFlowChoice::Exit)
    }
}

/// The actions a window event of the live egui window asks for: a focus
/// change is recorded, a resize resizes the context, a close request asks
/// the listeners.
pub fn window_event_actions(event: WindowEventKind) -> (a: WindowEventActions)
    ensures
        a == spec_window_event_actions(event),
{
    match event {
        WindowEventKind::Focused(f) => WindowEventActions {
            focus: Some(f),
            resize_to: None,
            close_requested: false,
        },
        WindowEventKind::Resized { width, height } => WindowEventActions {
            focus: None,
            resize_to: Some(SurfaceSize { width, height }),
            close_requested: false,
        },
        WindowEventKind::CloseRequested => WindowEventActions {
            focus: None,
            resize_to: None,
            close_requested: true,
        },
        _ => WindowEventActions { focus: None, resize_to: None, close_requested: false },
    }
}

/// Whether a close request is carried out, given the first answer the
/// listeners sent back: only an explicit `true` keeps the window open.
pub fn close_confirmed(answer: Option<bool>) -> (b: bool)
    ensures
        b == (answer != Some(true)),
{
    match answer {
        Some(true) => false,
        _ => true,
    }
}

/// The render flag shared between the Linux render callback, which stores it
/// after each frame, and the render loop, which reads it once the main events
/// of an iteration are handled: 0 runs the loop again at once, 1 waits.
#[derive(Debug, Clone, Copy, PartialEq, Eq, Structural)]
pub struct RenderFlow {
    pub flag: u8,
}

impl RenderFlow {
    /// Only the flags the render callback stores occur.
    pub open spec fn wf(&self) -> bool {
        self.flag <= 1
    }

    /// The flag of a new window: wait until a frame asks for more.
    pub fn new() -> (r: Self)
        ensures
            r.flag == 1,
            r.wf(),
    {
        RenderFlow { flag: 1 }
    }

    /// Stores what a frame decided.
    pub fn record_frame(&mut self, should_quit: bool, needs_repaint: bool)
        ensures
            final(self).flag == spec_render_flow(should_quit, needs_repaint),
            final(self).wf(),
    {
        self.flag = render_flow(should_quit, needs_repaint);
    }

    /// The render loop's control flow for this flag.
    pub fn control_flow(&self, main_events_cleared: bool) -> (r: Option<ControlFlowChoice>)
        requires
            self.flag <= 2,
        ensures
            r == (if main_events_cleared {
                Some(spec_flow_of_flag(self.flag))
            } else {
                None::<ControlFlowChoice>
            }),
    {
        linux_gl_loop(main_events_cleared, self.flag)
    }
}

/// The Linux render flag starts at 1 and every frame stores 0 or 1, so the
/// render loop never meets a flag it cannot handle and never leaves the
/// event loop on its own.
pub proof fn law_render_flag_stays_known(r: RenderFlow, should_quit: bool, needs_repaint: bool)
    requires
        r.wf(),
    ensures
        (RenderFlow { flag: spec_render_flow(should_quit, needs_repaint) }).wf(),
        (RenderFlow { flag: 1 }).wf(),
        spec_flow_of_flag(r.flag) != ControlFlowChoice::Exit,
{
}

/// When the application asks to quit after egui saw a window event of the
/// live window, the loop waits and, at the end of the iteration, the window
/// is closed, torn down and no longer live.
pub proof fn law_quit_after_window_event_closes(windows: Map<u64, WindowEntry>, id: u64, quit_before: bool)
    requires
        windows.contains_key(id),
        windows[id].has_context,
    ensures
        spec_window_event_flow(Some(true), quit_before).control_flow == Some(ControlFlowChoice::Wait),
        spec_window_event_flow(Some(true), quit_before).should_quit,
        spec_close_report(windows, id).tear_down,
        spec_live_after_close(Some(id), id) is None,
        !spec_closed_windows(windows, id)[id].has_context,
{
}

impl WindowRegistry {
    /// The live egui window is a registered window that still has its OpenGL
    /// context.
    pub open spec fn wf(&self) -> bool {
        self.egui_id matches Some(id) ==> self.spec_has_context(id)
    }

    /// Whether the window `id` is registered and has its OpenGL context.
    pub open spec fn spec_has_context(&self, id: u64) -> bool {
        self.windows@.contains_key(id) && self.windows@[id].has_context
    }

    /// An empty registry.
    pub fn new() -> (r: Self)
        ensures
            r.egui_id is None,
            r.windows@ == Map::<u64, WindowEntry>::empty(),
            r.event_listeners@ == Map::<u64, u64>::empty(),
            r.menu_listeners@ == Map::<u64, u64>::empty(),
            r.native_windows@ == Map::<u64, u64>::empty(),
            r.wf(),
    {
        WindowRegistry {
            egui_id: None,
            windows: HashMap::new(),
            event_listeners: HashMap::new(),
            menu_listeners: HashMap::new(),
            native_windows: HashMap::new(),
        }
    }

    /// Whether the window `id` is registered and has its OpenGL context.
    pub fn has_context(&self, id: u64) -> (b: bool)
        ensures
            b == self.spec_has_context(id),
    {
        match self.windows.get(&id) {
            Some(entry) => entry.has_context,
            None => false,
        }
    }

    /// The live egui window, when it still has its OpenGL context.
    pub fn active_window(&self) -> (r: Option<u64>)
        ensures
            r == (match self.egui_id {
                Some(id) => if self.spec_has_context(id) {
                    Some(id)
                } else {
                    None::<u64>
                },
                None => None::<u64>,
            }),
    {
        match self.egui_id {
            Some(id) => {
                if self.has_context(id) {
                    Some(id)
                } else {
                    None
                }
            },
            None => None,
        }
    }

    /// Whether an event of window `id` concerns the live egui window, which
    /// must still have its OpenGL context.
    pub fn is_live_window(&self, id: u64) -> (b: bool)
        ensures
            b == (self.egui_id == Some(id) && self.spec_has_context(id)),
    {
        match self.active_window() {
            Some(live) => live == id,
            None => false,
        }
    }

    /// The label of window `id`, when it is registered.
    pub fn label(&self, id: u64) -> (r: Option<String>)
        ensures
            r is Some <==> self.windows@.contains_key(id),
            r matches Some(l) ==> l@ == self.windows@[id].label@,
    {
        match self.windows.get(&id) {
            Some(entry) => Some(entry.label.clone()),
            None => None,
        }
    }

    /// The first step of creating an egui window: the live one, if any, is
    /// torn down (the application is told it exits and its painter is
    /// destroyed), stops being live and is sent a close message. Its entry
    /// stays registered, without its OpenGL context.
    pub fn close_previous_window(&mut self) -> (p: Option<PreviousWindow>)
        requires
            old(self).wf(),
        ensures
            final(self).wf(),
            final(self).egui_id is None,
            final(self).windows@ == (match old(self).egui_id {
                Some(id) => spec_closed_windows(old(self).windows@, id),
                None => old(self).windows@,
            }),
            final(self).event_listeners@ == old(self).event_listeners@,
            final(self).menu_listeners@ == old(self).menu_listeners@,
            final(self).native_windows@ == old(self).native_windows@,
            p == (match old(self).egui_id {
                Some(id) => Some(PreviousWindow { id, tear_down: true }),
                None => None::<PreviousWindow>,
            }),
    {
        match self.egui_id {
            Some(id) => {
                let tear_down = self.has_context(id);
                self.egui_id = None;
                if let Some(entry) = self.windows.remove(&id) {
                    self.windows.insert(id, WindowEntry {
                        label: entry.label,
                        title: entry.title,
                        has_menu_items: entry.has_menu_items,
                        has_context: false,
                    });
                }
                Some(PreviousWindow { id, tear_down })
            },
            None => None,
        }
    }

    /// Registers a new egui window under a random id and makes it the live
    /// one. The previous live window must have been closed first (see
    /// [`WindowRegistry::close_previous_window`]). The new window is entered
    /// with its label, the title of its native window, no menu and its OpenGL
    /// context; it gets empty tables of window-event and menu-event
    /// listeners, and its native window `native_window` is mapped to it.
    pub fn create_gl_window(&mut self, label: String, title: String, native_window: u64) -> (id: u64)
        requires
            old(self).egui_id is None,
        ensures
            final(self).wf(),
            final(self).egui_id == Some(id),
            final(self).windows@ == spec_created_windows(old(self).windows@, id, label, title),
            final(self).event_listeners@ == old(self).event_listeners@.insert(id, 0),
            final(self).menu_listeners@ == old(self).menu_listeners@.insert(id, 0),
            final(self).native_windows@ == old(self).native_windows@.insert(native_window, id),
    {
        let id = random_webview_id();
        self.native_windows.insert(native_window, id);
        self.egui_id = Some(id);
        self.event_listeners.insert(id, 0);
        self.menu_listeners.insert(id, 0);
        self.windows.insert(
            id,
            WindowEntry { label, title, has_menu_items: false, has_context: true },
        );
        id
    }

    /// The webview id of native window `native_window`, when it is mapped.
    pub fn webview_id(&self, native_window: u64) -> (r: Option<u64>)
        ensures
            r == (if self.native_windows@.contains_key(native_window) {
                Some(self.native_windows@[native_window])
            } else {
                None::<u64>
            }),
    {
        match self.native_windows.get(&native_window) {
            Some(id) => Some(*id),
            None => None,
        }
    }

    /// The live egui window, when an event of native window `native_window`
    /// concerns it.
    pub fn route_window_event(&self, native_window: u64) -> (r: Option<u64>)
        ensures
            r == (if self.native_windows@.contains_key(native_window) && self.egui_id == Some(
                self.native_windows@[native_window],
            ) && self.spec_has_context(self.native_windows@[native_window]) {
                Some(self.native_windows@[native_window])
            } else {
                None::<u64>
            }),
    {
        match self.webview_id(native_window) {
            Some(id) => {
                if self.is_live_window(id) {
                    Some(id)
                } else {
                    None
                }
            },
            None => None,
        }
    }

    /// Closes window `id`. When it is registered, it loses its OpenGL context
    /// and its menu listeners; when it still had its context, that context is
    /// to be torn down (the application is told it exits and the painter is
    /// destroyed) and, if it was the live egui window, no window is live any
    /// more.
    pub fn on_window_close(&mut self, id: u64) -> (c: ClosedWindow)
        requires
            old(self).wf(),
        ensures
            final(self).wf(),
            c == spec_close_report(old(self).windows@, id),
            final(self).egui_id == spec_live_after_close(old(self).egui_id, id),
            final(self).windows@ == spec_closed_windows(old(self).windows@, id),
            final(self).event_listeners@ == old(self).event_listeners@,
            final(self).native_windows@ == old(self).native_windows@,
            final(self).menu_listeners@ == (if c.registered {
                old(self).menu_listeners@.remove(id)
            } else {
                old(self).menu_listeners@
            }),
    {
        match self.windows.remove(&id) {
            Some(entry) => {
                let tear_down = entry.has_context;
                self.windows.insert(id, WindowEntry {
                        label: entry.label,
                        title: entry.title,
                        has_menu_items: entry.has_menu_items,
                        has_context: false,
                    });
                self.menu_listeners.remove(&id);
                if let Some(live) = self.egui_id {
                    if live == id {
                        self.egui_id = None;
                    }
                }
                ClosedWindow { registered: true, tear_down }
            },
            None => ClosedWindow { registered: false, tear_down: false },
        }
    }

    /// The end of a close request for window `id`: unless the listeners
    /// answered `true`, the window is closed.
    pub fn finish_close_request(&mut self, id: u64, answer: Option<bool>) -> (c: ClosedWindow)
        requires
            old(self).wf(),
        ensures
            final(self).wf(),
            c == (if answer != Some(true) {
                spec_close_report(old(self).windows@, id)
            } else {
                ClosedWindow { registered: false, tear_down: false }
            }),
            final(self).egui_id == (if answer != Some(true) {
                spec_live_after_close(old(self).egui_id, id)
            } else {
                old(self).egui_id
            }),
            final(self).windows@ == (if answer != Some(true) {
                spec_closed_windows(old(self).windows@, id)
            } else {
                old(self).windows@
            }),
            final(self).event_listeners@ == old(self).event_listeners@,
            final(self).native_windows@ == old(self).native_windows@,
            final(self).menu_listeners@ == (if c.registered {
                old(self).menu_listeners@.remove(id)
            } else {
                old(self).menu_listeners@
            }),
    {
        if close_confirmed(answer) {
            self.on_window_close(id)
        } else {
            ClosedWindow { registered: false, tear_down: false }
        }
    }

    /// The end of an iteration of the render loop for the live window `id`:
    /// when the application asked to quit, the window is closed.
    pub fn finish_gl_loop(&mut self, id: u64, should_quit: bool) -> (c: ClosedWindow)
        requires
            old(self).wf(),
        ensures
            final(self).wf(),
            c == (if should_quit {
                spec_close_report(old(self).windows@, id)
            } else {
                ClosedWindow { registered: false, tear_down: false }
            }),
            final(self).egui_id == (if should_quit {
                spec_live_after_close(old(self).egui_id, id)
            } else {
                old(self).egui_id
            }),
            final(self).windows@ == (if should_quit {
                spec_closed_windows(old(self).windows@, id)
            } else {
                old(self).windows@
            }),
            final(self).event_listeners@ == old(self).event_listeners@,
            final(self).native_windows@ == old(self).native_windows@,
            final(self).menu_listeners@ == (if c.registered {
                old(self).menu_listeners@.remove(id)
            } else {
                old(self).menu_listeners@
            }),
    {
        if should_quit {
            self.on_window_close(id)
        } else {
            ClosedWindow { registered: false, tear_down: false }
        }
    }
}

impl WindowRegistry {
    /// The end of handling a window event of the live window `id`: the flow
    /// after it (see [`window_event_flow`]) and, when the application asked to
    /// quit in this iteration, the window closed.
    pub fn finish_window_event(&mut self, id: u64, egui_saw: Option<bool>, quit_before: bool) -> (r:
        WindowEventReport)
        requires
            old(self).wf(),
        ensures
            final(self).wf(),
            r.flow == spec_window_event_flow(egui_saw, quit_before),
            r.closed == (if r.flow.should_quit {
                spec_close_report(old(self).windows@, id)
            } else {
                ClosedWindow { registered: false, tear_down: false }
            }),
            final(self).egui_id == (if r.flow.should_quit {
                spec_live_after_close(old(self).egui_id, id)
            } else {
                old(self).egui_id
            }),
            final(self).windows@ == (if r.flow.should_quit {
                spec_closed_windows(old(self).windows@, id)
            } else {
                old(self).windows@
            }),
            final(self).event_listeners@ == old(self).event_listeners@,
            final(self).native_windows@ == old(self).native_windows@,
            final(self).menu_listeners@ == (if r.closed.registered {
                old(self).menu_listeners@.remove(id)
            } else {
                old(self).menu_listeners@
            }),
    {
        let flow = window_event_flow(egui_saw, quit_before);
        let closed = self.finish_gl_loop(id, flow.should_quit);
        WindowEventReport { flow, closed }
    }
}

/// Creating a window after the previous live one was closed leaves exactly
/// one window with an OpenGL context among the two: the new one.
pub proof fn law_new_window_replaces_previous(
    windows: Map<u64, WindowEntry>,
    previous: u64,
    id: u64,
    label: String,
    title: String,
)
    requires
        windows.contains_key(previous),
        id != previous,
    ensures
        ({
            let after = spec_created_windows(spec_closed_windows(windows, previous), id, label, title);
            &&& after[id].has_context
            &&& !after[previous].has_context
            &&& after.contains_key(previous)
        }),
{
}

/// Closing the live egui window leaves no window live, and it is torn down
/// exactly once: closing it again finds nothing to tear down.
pub proof fn law_closing_live_window_clears_it(windows: Map<u64, WindowEntry>, id: u64)
    requires
        windows.contains_key(id),
        windows[id].has_context,
    ensures
        spec_live_after_close(Some(id), id) is None,
        spec_close_report(windows, id).tear_down,
        !spec_close_report(spec_closed_windows(windows, id), id).tear_down,
        spec_close_report(spec_closed_windows(windows, id), id).registered,
{
}

/// Closing a window other than the live one leaves the live one live.
pub proof fn law_closing_other_window_keeps_live(live: u64, id: u64)
    requires
        live != id,
    ensures
        spec_live_after_close(Some(live), id) == Some(live),
{
}

/// Both render loops choose the same control flow after a frame: the flag
/// stored by the Linux render callback leads to the flow that Windows and
/// macOS choose directly.
pub proof fn law_platforms_agree(should_quit: bool, needs_repaint: bool)
    ensures
        spec_render_flow(should_quit, needs_repaint) <= 2,
        spec_flow_of_flag(spec_render_flow(should_quit, needs_repaint)) == spec_frame_flow(
            should_quit,
            needs_repaint,
        ).control_flow,
{
}

/// The render loop of a registered window and the plugin's event loop paint
/// on the same events.
pub proof fn law_paint_events_agree(event: LoopEvent, on_windows: bool)
    ensures
        ((event == LoopEvent::RedrawEventsCleared && on_windows) || (event
            == LoopEvent::RedrawRequested && !on_windows)) <==> (spec_dispatch(event, on_windows)
            == EventDispatch::PaintFrame),
{
}

/// Closing a window takes its OpenGL context away and leaves every other
/// window as it was; closing it again changes nothing more.
pub proof fn law_close_only_touches_its_window(windows: Map<u64, WindowEntry>, id: u64)
    ensures
        !(spec_closed_windows(windows, id).contains_key(id) && spec_closed_windows(windows, id)[id].has_context),
        spec_closed_windows(windows, id).dom() == windows.dom(),
        forall|other: u64|
            other != id && #[trigger] windows.contains_key(other) ==> spec_closed_windows(windows, id)[other]
                == windows[other],
        spec_closed_windows(spec_closed_windows(windows, id), id) == spec_closed_windows(windows, id),
{
    assert(spec_closed_windows(windows, id).dom() =~= windows.dom());
    assert(spec_closed_windows(spec_closed_windows(windows, id), id) =~= spec_closed_windows(windows, id));
}

/// A window created and then closed stays registered under its label,
/// without its OpenGL context, and no window created before is lost.
pub proof fn law_create_then_close(
    windows: Map<u64, WindowEntry>,
    id: u64,
    label: String,
    title: String,
)
    ensures
        ({
            let closed = spec_closed_windows(spec_created_windows(windows, id, label, title), id);
            &&& closed.contains_key(id)
            &&& closed[id] == (WindowEntry { label, title, has_menu_items: false, has_context: false })
            &&& forall|other: u64| #[trigger] windows.contains_key(other) ==> closed.contains_key(other)
        }),
{
}


/// The flow after a frame on Windows and macOS remembers a quit request
/// whatever egui's repaint need, and then waits; without one, it runs again
/// at once and asks for a redraw exactly when egui needs a repaint.
pub proof fn law_frame_flow_remembers_quit(should_quit: bool, needs_repaint: bool)
    ensures
        spec_frame_flow(should_quit, needs_repaint).should_quit == should_quit,
        should_quit ==> spec_frame_flow(should_quit, needs_repaint).control_flow
            == ControlFlowChoice::Wait && !spec_frame_flow(should_quit, needs_repaint).request_redraw,
        !should_quit ==> (spec_frame_flow(should_quit, needs_repaint).request_redraw
            <==> needs_repaint),
        !should_quit ==> (spec_frame_flow(should_quit, needs_repaint).control_flow
            == ControlFlowChoice::Poll <==> needs_repaint),
{
}

/// The Linux render flag asks the loop to run again at once (0) exactly when
/// the application does not quit and egui needs a repaint; otherwise it
/// waits (1). Flags 0, 1 and 2 mean poll, wait and exit.
pub proof fn law_render_flag_table(should_quit: bool, needs_repaint: bool)
    ensures
        (spec_render_flow(should_quit, needs_repaint) == 0) <==> (!should_quit && needs_repaint),
        (spec_render_flow(should_quit, needs_repaint) == 1) <==> (should_quit || !needs_repaint),
        spec_flow_of_flag(0) == ControlFlowChoice::Poll,
        spec_flow_of_flag(1) == ControlFlowChoice::Wait,
        spec_flow_of_flag(2) == ControlFlowChoice::Exit,
{
}

/// After a window event of the live window, a quit request (now or from the
/// frame painted before) is never forgotten, a redraw is asked exactly when
/// egui saw the event, and Tauri's own handling is always skipped.
pub proof fn law_window_event_flow_table(egui_saw: Option<bool>, quit_before: bool)
    ensures
        spec_window_event_flow(egui_saw, quit_before).should_quit == (quit_before || egui_saw
            == Some(true)),
        spec_window_event_flow(egui_saw, quit_before).request_redraw == (egui_saw is Some),
        spec_window_event_flow(egui_saw, quit_before).prevent_default,
        (spec_window_event_flow(egui_saw, quit_before).control_flow == Some(ControlFlowChoice::Wait))
            <==> egui_saw == Some(true),
        spec_window_event_flow(egui_saw, quit_before).control_flow is None <==> egui_saw != Some(
            true,
        ),
{
}
} // verus!
