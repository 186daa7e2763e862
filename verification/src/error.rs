//! Engine error kinds and their diagnostic text.

use vstd::prelude::*;

verus! {

/// Result of any engine operation that can fail.
pub type EngineResult<T> = Result<T, EngineError>;

/// Every failure the engine reports. The first three kinds are fatal at
/// startup: an unexpected windowing platform, a window that could not be
/// built, and a renderer whose device, swapchain, shaders, buffers or views
/// could not be created. `Runtime` covers per-frame failures (a present that
/// did not succeed); the frame loop logs those and keeps running.
#[derive(Debug, Clone)]
pub enum EngineError {
    UnsupportedPlatform(String),
    WindowCreation(String),
    RendererInit(String),
    Runtime(String),
}

/// The one-line diagnostic text of an error: a fixed prefix naming the kind,
/// then the detail the failure site supplied.
pub open spec fn spec_message(e: EngineError) -> Seq<char> {
    match e {
        EngineError::UnsupportedPlatform(detail) => "platform not supported: "@ + detail@,
        EngineError::WindowCreation(detail) => "window creation failed: "@ + detail@,
        EngineError::RendererInit(detail) => "renderer initialization failed: "@ + detail@,
        EngineError::Runtime(detail) => "runtime error: "@ + detail@,
    }
}

impl EngineError {
    /// The diagnostic line for this error.
    pub fn message(&self) -> (m: String)
        ensures
            m@ == spec_message(*self),
    {
        match self {
            EngineError::UnsupportedPlatform(detail) => {
                let mut m = "platform not supported: ".to_owned();
                m.append(detail.as_str());
                m
            },
            EngineError::WindowCreation(detail) => {
                let mut m = "window creation failed: ".to_owned();
                m.append(detail.as_str());
                m
            },
            EngineError::RendererInit(detail) => {
                let mut m = "renderer initialization failed: ".to_owned();
                m.append(detail.as_str());
                m
            },
            EngineError::Runtime(detail) => {
                let mut m = "runtime error: ".to_owned();
                m.append(detail.as_str());
                m
            },
        }
    }

    /// Whether the error is fatal to the run. Only `Runtime` errors are
    /// survivable: the frame loop reports them and goes on to the next event.
    pub fn is_fatal(&self) -> (fatal: bool)
        ensures
            fatal == !(self is Runtime),
    {
        match self {
            EngineError::Runtime(_) => false,
            _ => true,
        }
    }
}

} // verus!
