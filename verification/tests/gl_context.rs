use tauri_egui::gl_context::{
    gl_config_request, next_context_api, surface_size, ContextApi, GlContextState, GlOptions,
    HardwareAcceleration, ResumeOutcome, ResumePlan, SwapInterval,
};
use tauri_egui::Error;

fn resumed() -> GlContextState {
    GlContextState {
        has_window: true,
        has_surface: true,
        has_current_context: true,
        has_not_current_context: false,
    }
}

#[test]
fn surface_is_never_empty() {
    let s = surface_size(0, 0);
    assert_eq!((s.width, s.height), (1, 1));
    let s = surface_size(640, 0);
    assert_eq!((s.width, s.height), (640, 1));
    let s = surface_size(1280, 1024);
    assert_eq!((s.width, s.height), (1280, 1024));
}

#[test]
fn config_request_from_options() {
    let options = GlOptions {
        hardware_acceleration: HardwareAcceleration::Required,
        vsync: true,
        depth_buffer: 24,
        stencil_buffer: 8,
        transparent: true,
        multisampling: 4,
    };
    let r = gl_config_request(&options);
    assert_eq!(r.prefer_hardware_accelerated, Some(true));
    assert_eq!(r.swap_interval, SwapInterval::Wait(1));
    assert_eq!(r.depth_size, 24);
    assert_eq!(r.stencil_size, 8);
    assert!(r.transparency);
    assert_eq!(r.multisampling, Some(4));

    let options = GlOptions {
        hardware_acceleration: HardwareAcceleration::Preferred,
        vsync: false,
        depth_buffer: 0,
        stencil_buffer: 0,
        transparent: false,
        multisampling: 0,
    };
    let r = gl_config_request(&options);
    assert_eq!(r.prefer_hardware_accelerated, None);
    assert_eq!(r.swap_interval, SwapInterval::DontWait);
    assert_eq!(r.multisampling, None);

    let options = GlOptions { hardware_acceleration: HardwareAcceleration::Off, ..options };
    assert_eq!(gl_config_request(&options).prefer_hardware_accelerated, Some(false));
}

#[test]
fn context_fallback_order() {
    assert_eq!(next_context_api(None), Some(ContextApi::Default));
    assert_eq!(next_context_api(Some(ContextApi::Default)), Some(ContextApi::GlesFallback));
    assert_eq!(next_context_api(Some(ContextApi::GlesFallback)), None);
}

#[test]
fn resume_from_creation() {
    let mut s = GlContextState::new(true);
    assert_eq!(s.begin_resume(), ResumePlan::CreateSurface { create_window: false });
    assert!(!s.has_window);
    assert_eq!(s.finish_resume(ResumeOutcome::Ready), Ok(()));
    assert_eq!(s, resumed());

    let mut s = GlContextState::new(false);
    assert_eq!(s.begin_resume(), ResumePlan::CreateSurface { create_window: true });
}

#[test]
fn resume_is_idempotent() {
    let mut s = resumed();
    assert_eq!(s.begin_resume(), ResumePlan::AlreadyResumed);
    assert_eq!(s, resumed());
}

#[test]
fn resume_failures() {
    let mut s = GlContextState::new(true);
    s.begin_resume();
    let before = s;
    assert_eq!(
        s.finish_resume(ResumeOutcome::SurfaceFailed("no surface".to_string())),
        Err(Error::OpenGlContext("no surface".to_string()))
    );
    assert_eq!(s, before);

    let r = s.finish_resume(ResumeOutcome::MakeCurrentFailed("busy".to_string()));
    assert_eq!(r, Err(Error::OpenGlContext("busy".to_string())));
    assert!(!s.has_not_current_context && !s.has_current_context && !s.has_surface);
}

#[test]
fn suspend_undoes_resume_and_resume_restores() {
    let mut s = resumed();
    assert!(s.begin_suspend());
    assert_eq!(s.finish_suspend(Ok(())), Ok(()));
    assert_eq!(s, GlContextState::new(false));
    assert_eq!(s.begin_resume(), ResumePlan::CreateSurface { create_window: true });
    assert_eq!(s.finish_resume(ResumeOutcome::Ready), Ok(()));
    assert_eq!(s, resumed());
}

#[test]
fn suspend_failure_and_repeated_suspend() {
    let mut s = resumed();
    assert!(s.begin_suspend());
    assert_eq!(
        s.finish_suspend(Err("stuck".to_string())),
        Err(Error::OpenGlContext("stuck".to_string()))
    );
    assert!(!s.has_not_current_context && !s.has_current_context);
    let mut t = GlContextState::new(false);
    assert!(!t.begin_suspend());
    assert_eq!(t, GlContextState::new(false));
}

#[test]
fn resize_clamps_to_one_pixel() {
    let s = resumed();
    let size = s.resize(0, 300);
    assert_eq!((size.width, size.height), (1, 300));
}
