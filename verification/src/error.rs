use vstd::prelude::*;

verus! {

/// Errors the plugin reports.
///
/// The payloads are the messages of the windowing and OpenGL errors that
/// caused them, so that the decision logic never holds a platform handle.
#[derive(Debug, PartialEq, Eq)]
pub enum Error {
    /// The native window could not be created.
    FailedToCreateWindow(String),
    /// An OpenGL context or surface operation failed.
    OpenGlContext(String),
    /// The egui painter could not be created.
    FailedToCreatePainter(String),
    /// No OpenGL configuration matched the requested options.
    NoGlutinConfigs,
}

} // verus!
