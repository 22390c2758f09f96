//! The lifecycle of the OpenGL context, surface and native window behind the
//! egui window, and the translation of the application's native options into
//! an OpenGL configuration request.
//!
//! The context's handles themselves are held by the event loop; this module
//! tracks which of them exist and decides every step of their creation and
//! teardown.
use vstd::prelude::*;

use crate::error::Error;
use crate::event_loop::SurfaceSize;

verus! {

/// Which of the OpenGL window's parts exist.
#[derive(Debug, Clone, Copy, PartialEq, Eq, Structural)]
pub struct GlContextState {
    /// The native window exists.
    pub has_window: bool,
    /// The window surface exists.
    pub has_surface: bool,
    /// The context is current on the surface.
    pub has_current_context: bool,
    /// The context exists but is not current.
    pub has_not_current_context: bool,
}

/// The first step of a resume.
#[derive(Debug, Clone, Copy, PartialEq, Eq, Structural)]
pub enum ResumePlan {
    /// The surface exists already: nothing to do.
    AlreadyResumed,
    /// Create the surface, on a new native window when `create_window` holds,
    /// otherwise on the window that exists.
    CreateSurface { create_window: bool },
}

/// How the OpenGL calls of a resume went.
#[derive(Debug, PartialEq, Eq)]
pub enum ResumeOutcome {
    /// The surface could not be created; the message says why.
    SurfaceFailed(String),
    /// The context could not be made current; the message says why.
    MakeCurrentFailed(String),
    /// The surface exists and the context is current on it.
    Ready,
}

/// The hardware acceleration the application asks for.
#[derive(Debug, Clone, Copy, PartialEq, Eq, Structural)]
pub enum HardwareAcceleration {
    Required,
    Preferred,
    Off,
}

/// The native options that shape the OpenGL configuration.
#[derive(Debug, Clone, Copy, PartialEq, Eq, Structural)]
pub struct GlOptions {
    pub hardware_acceleration: HardwareAcceleration,
    pub vsync: bool,
    pub depth_buffer: u8,
    pub stencil_buffer: u8,
    pub transparent: bool,
    pub multisampling: u16,
}

/// How buffer swaps wait for the display.
#[derive(Debug, Clone, Copy, PartialEq, Eq, Structural)]
pub enum SwapInterval {
    /// Wait for this many vertical blanks (never zero).
    Wait(u32),
    /// Do not wait.
    DontWait,
}

/// The OpenGL configuration to ask the display for.
#[derive(Debug, Clone, Copy, PartialEq, Eq, Structural)]
pub struct GlConfigRequest {
    /// `Some(true)`: hardware acceleration required; `Some(false)`: software
    /// only; `None`: no preference.
    pub prefer_hardware_accelerated: Option<bool>,
    pub swap_interval: SwapInterval,
    pub depth_size: u8,
    pub stencil_size: u8,
    pub transparency: bool,
    /// The number of samples, when multisampling is asked for.
    pub multisampling: Option<u8>,
}

/// The kinds of OpenGL context the window tries, in order.
#[derive(Debug, Clone, Copy, PartialEq, Eq, Structural)]
pub enum ContextApi {
    /// The platform's default OpenGL API.
    Default,
    /// OpenGL ES, tried when the default fails.
    GlesFallback,
}

pub open spec fn max_u32(a: u32, b: u32) -> u32 {
    if a >= b {
        a
    } else {
        b
    }
}

/// The state right after the context was created: the context exists, not
/// current, and the display may have created the window already.
pub open spec fn spec_created(window_created: bool) -> GlContextState {
    GlContextState {
        has_window: window_created,
        has_surface: false,
        has_current_context: false,
        has_not_current_context: true,
    }
}

/// The state of a window whose context is current on its surface.
pub open spec fn spec_resumed() -> GlContextState {
    GlContextState {
        has_window: true,
        has_surface: true,
        has_current_context: true,
        has_not_current_context: false,
    }
}

/// The state of a suspended window: no window and no surface, the context
/// not current.
pub open spec fn spec_suspended() -> GlContextState {
    GlContextState {
        has_window: false,
        has_surface: false,
        has_current_context: false,
        has_not_current_context: true,
    }
}

/// The plan of a resume.
pub open spec fn spec_resume_plan(s: GlContextState) -> ResumePlan {
    if s.has_surface {
        ResumePlan::AlreadyResumed
    } else {
        ResumePlan::CreateSurface { create_window: !s.has_window }
    }
}

/// The state once the plan of a resume is taken: the window is taken out to
/// build the surface on.
pub open spec fn spec_after_resume_plan(s: GlContextState) -> GlContextState {
    if s.has_surface {
        s
    } else {
        GlContextState { has_window: false, ..s }
    }
}

/// The state after the OpenGL calls of a resume.
pub open spec fn spec_after_resume(s: GlContextState, outcome: ResumeOutcome) -> GlContextState {
    match outcome {
        ResumeOutcome::SurfaceFailed(_) => s,
        ResumeOutcome::MakeCurrentFailed(_) => GlContextState { has_not_current_context: false, ..s },
        ResumeOutcome::Ready => GlContextState {
            has_window: true,
            has_surface: true,
            has_current_context: true,
            has_not_current_context: false,
        },
    }
}

/// The result of a resume.
pub open spec fn spec_resume_result(outcome: ResumeOutcome) -> Result<(), Error> {
    match outcome {
        ResumeOutcome::SurfaceFailed(m) => Err(Error::OpenGlContext(m)),
        ResumeOutcome::MakeCurrentFailed(m) => Err(Error::OpenGlContext(m)),
        ResumeOutcome::Ready => Ok(()),
    }
}

/// The state once the window and surface of a suspend are dropped.
pub open spec fn spec_after_suspend_plan(s: GlContextState) -> GlContextState {
    GlContextState {
        has_window: false,
        has_surface: false,
        has_current_context: false,
        has_not_current_context: s.has_not_current_context,
    }
}

/// The state after the context was made not current (or failed to be).
pub open spec fn spec_after_suspend(s: GlContextState, outcome: Result<(), String>) -> GlContextState {
    match outcome {
        Ok(()) => GlContextState { has_not_current_context: true, ..s },
        Err(_) => s,
    }
}

/// The configuration request for the given native options.
pub open spec fn spec_config_request(o: GlOptions) -> GlConfigRequest {
    GlConfigRequest {
        prefer_hardware_accelerated: match o.hardware_acceleration {
            HardwareAcceleration::Required => Some(true),
            HardwareAcceleration::Preferred => None,
            HardwareAcceleration::Off => Some(false),
        },
        swap_interval: if o.vsync {
            SwapInterval::Wait(1)
        } else {
            SwapInterval::DontWait
        },
        depth_size: o.depth_buffer,
        stencil_size: o.stencil_buffer,
        transparency: o.transparent,
        multisampling: if o.multisampling > 0 {
            Some(o.multisampling as u8)
        } else {
            None
        },
    }
}

/// `value`, raised to `lower_limit` when it is below it. Calls
/// `egui::NumExt::at_least`, which emath documents and implements as
/// `value.max(lower_limit)`; that is all the contract claims.
#[verifier::external_body]
fn at_least(value: u32, lower_limit: u32) -> (r: u32)
    ensures
        r == max_u32(value, lower_limit),
{
    egui::NumExt::at_least(value, lower_limit)
}

/// The size of a surface for a window of the given client-area size: a
/// surface is never zero pixels wide or high.
pub fn surface_size(width: u32, height: u32) -> (s: SurfaceSize)
    ensures
        s.width == max_u32(width, 1),
        s.height == max_u32(height, 1),
        s.width >= 1 && s.height >= 1,
{
    SurfaceSize { width: at_least(width, 1), height: at_least(height, 1) }
}

/// The OpenGL configuration request for the application's native options.
/// The number of samples must fit a byte.
pub fn gl_config_request(options: &GlOptions) -> (r: GlConfigRequest)
    requires
        options.multisampling <= 255,
    ensures
        r == spec_config_request(*options),
        options.multisampling == 0 <==> r.multisampling is None,
        r.multisampling matches Some(n) ==> n == options.multisampling,
{
    let prefer_hardware_accelerated = match options.hardware_acceleration {
        HardwareAcceleration::Required => Some(true),
        HardwareAcceleration::Preferred => None,
        HardwareAcceleration::Off => Some(false),
    };
    let swap_interval = if options.vsync {
        SwapInterval::Wait(1)
    } else {
        SwapInterval::DontWait
    };
    let multisampling = if options.multisampling > 0 {
        Some(options.multisampling as u8)
    } else {
        None
    };
    GlConfigRequest {
        prefer_hardware_accelerated,
        swap_interval,
        depth_size: options.depth_buffer,
        stencil_size: options.stencil_buffer,
        transparency: options.transparent,
        multisampling,
    }
}

/// The kind of context to try after `failed` (or first, when nothing failed
/// yet): the default API, then OpenGL ES; `None` once both failed.
pub fn next_context_api(failed: Option<ContextApi>) -> (r: Option<ContextApi>)
    ensures
        r == (match failed {
            None => Some(ContextApi::Default),
            Some(ContextApi::Default) => Some(ContextApi::GlesFallback),
            Some(ContextApi::GlesFallback) => None::<ContextApi>,
        }),
{
    match failed {
        None => Some(ContextApi::Default),
        Some(ContextApi::Default) => Some(ContextApi::GlesFallback),
        Some(ContextApi::GlesFallback) => None,
    }
}

impl GlContextState {
    /// A surface exists exactly when the context is current on it, always on
    /// a window, and the context is never current and not current at once.
    pub open spec fn wf(self) -> bool {
        &&& !(self.has_current_context && self.has_not_current_context)
        &&& self.has_surface ==> self.has_window && self.has_current_context
        &&& self.has_current_context ==> self.has_surface
    }

    /// The state of a freshly created context; `window_created` says whether
    /// the display created the native window along with it.
    pub fn new(window_created: bool) -> (s: Self)
        ensures
            s == spec_created(window_created),
            s.wf(),
    {
        GlContextState {
            has_window: window_created,
            has_surface: false,
            has_current_context: false,
            has_not_current_context: true,
        }
    }

    /// The first step of a resume: nothing when the surface exists already;
    /// otherwise the window is taken out (to be created when missing) to build
    /// the surface on.
    pub fn begin_resume(&mut self) -> (p: ResumePlan)
        ensures
            p == spec_resume_plan(*old(self)),
            *final(self) == spec_after_resume_plan(*old(self)),
    {
        if self.has_surface {
            ResumePlan::AlreadyResumed
        } else {
            let create_window = !self.has_window;
            self.has_window = false;
            ResumePlan::CreateSurface { create_window }
        }
    }

    /// Records how the OpenGL calls of a resume went. The context that is
    /// made current must exist unless the surface already failed. On success
    /// the window, the surface and the current context are kept; on a
    /// failure the window and whatever was created are dropped and the error
    /// is returned.
    pub fn finish_resume(&mut self, outcome: ResumeOutcome) -> (r: Result<(), Error>)
        requires
            !old(self).has_surface,
            !old(self).has_window,
            !(outcome is SurfaceFailed) ==> old(self).has_not_current_context,
        ensures
            *final(self) == spec_after_resume(*old(self), outcome),
            r == spec_resume_result(outcome),
    {
        match outcome {
            ResumeOutcome::SurfaceFailed(m) => Err(Error::OpenGlContext(m)),
            ResumeOutcome::MakeCurrentFailed(m) => {
                self.has_not_current_context = false;
                Err(Error::OpenGlContext(m))
            },
            ResumeOutcome::Ready => {
                self.has_not_current_context = false;
                self.has_current_context = true;
                self.has_surface = true;
                self.has_window = true;
                Ok(())
            },
        }
    }

    /// The first step of a suspend: the surface and the window are dropped;
    /// the result says whether a current context must be made not current.
    pub fn begin_suspend(&mut self) -> (make_not_current: bool)
        ensures
            make_not_current == old(self).has_current_context,
            *final(self) == spec_after_suspend_plan(*old(self)),
    {
        let make_not_current = self.has_current_context;
        self.has_surface = false;
        self.has_window = false;
        self.has_current_context = false;
        make_not_current
    }

    /// Records whether making the context not current worked.
    pub fn finish_suspend(&mut self, outcome: Result<(), String>) -> (r: Result<(), Error>)
        ensures
            *final(self) == spec_after_suspend(*old(self), outcome),
            r == (match outcome {
                Ok(()) => Ok::<(), Error>(()),
                Err(m) => Err(Error::OpenGlContext(m)),
            }),
    {
        match outcome {
            Ok(()) => {
                self.has_not_current_context = true;
                Ok(())
            },
            Err(m) => Err(Error::OpenGlContext(m)),
        }
    }

    /// The new surface size for a window resized to the given client-area
    /// size; the surface and its current context must exist.
    pub fn resize(&self, width: u32, height: u32) -> (s: SurfaceSize)
        requires
            self.has_surface,
            self.has_current_context,
        ensures
            s.width == max_u32(width, 1),
            s.height == max_u32(height, 1),
    {
        surface_size(width, height)
    }
}

/// Every step of the lifecycle keeps the state well formed, as far as the
/// steps' preconditions hold.
pub proof fn law_lifecycle_keeps_wf(s: GlContextState, outcome: ResumeOutcome, r: Result<(), String>)
    requires
        s.wf(),
    ensures
        spec_after_resume_plan(s).wf(),
        !spec_after_resume_plan(s).has_surface ==> spec_after_resume(
            spec_after_resume_plan(s),
            outcome,
        ).wf(),
        spec_after_suspend_plan(s).wf(),
        !spec_after_suspend_plan(s).has_current_context ==> spec_after_suspend(
            spec_after_suspend_plan(s),
            r,
        ).wf(),
{
}

/// A resume that succeeds leaves the window, its surface and a current
/// context, whatever the state before.
pub proof fn law_resume_makes_current(s: GlContextState)
    requires
        !s.has_surface,
    ensures
        spec_after_resume(spec_after_resume_plan(s), ResumeOutcome::Ready) == spec_resumed(),
{
}

/// Resuming a resumed window does nothing.
pub proof fn law_resume_idempotent()
    ensures
        spec_resume_plan(spec_resumed()) == ResumePlan::AlreadyResumed,
        spec_after_resume_plan(spec_resumed()) == spec_resumed(),
{
}

/// A successful suspend undoes a resume: it leaves no window and no surface,
/// the context not current, as right after creation without a window.
pub proof fn law_suspend_undoes_resume()
    ensures
        spec_after_suspend(spec_after_suspend_plan(spec_resumed()), Ok(())) == spec_suspended(),
        spec_suspended() == spec_created(false),
{
}

/// Suspending and resuming again restores the resumed state, creating a new
/// native window for the surface.
pub proof fn law_suspend_resume_round_trip()
    ensures
        ({
            let suspended = spec_after_suspend(spec_after_suspend_plan(spec_resumed()), Ok(()));
            &&& spec_resume_plan(suspended) == (ResumePlan::CreateSurface { create_window: true })
            &&& spec_after_resume(spec_after_resume_plan(suspended), ResumeOutcome::Ready)
                == spec_resumed()
        }),
{
}


/// The requested number of samples reaches the configuration unchanged, and
/// multisampling is asked for exactly when samples were requested; the depth,
/// stencil and transparency requests pass through as they are.
pub proof fn law_config_passes_requests_through(o: GlOptions)
    requires
        o.multisampling <= 255,
    ensures
        (spec_config_request(o).multisampling is None) <==> o.multisampling == 0,
        spec_config_request(o).multisampling matches Some(n) ==> n == o.multisampling,
        spec_config_request(o).depth_size == o.depth_buffer,
        spec_config_request(o).stencil_size == o.stencil_buffer,
        spec_config_request(o).transparency == o.transparent,
        o.vsync <==> spec_config_request(o).swap_interval != SwapInterval::DontWait,
{
}
} // verus!
