//! Decision logic of a Tauri plugin that hosts an egui window rendered through
//! OpenGL. Every choice the plugin makes in the event loop (when to repaint,
//! how long to sleep, when to tear the window down, which message a window
//! method sends) is a verified function here; the event-loop plumbing that
//! performs those choices lives in the companion application crate.

pub mod error;
pub mod event_loop;
pub mod gl_context;
pub mod gl_window;
pub mod window;

pub use error::Error;
