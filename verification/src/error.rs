//! Error taxonomy of the library.
//!
//! Recoverable failures surface as `Result<_, ObsError>` to the immediate
//! caller; nothing is silently swallowed.  Irrecoverable native crashes go
//! through the crash-handler path instead and are not represented here.

use vstd::prelude::*;

verus! {

/// Error type for engine operations.
#[derive(Clone, Debug, PartialEq)]
pub enum ObsError {
    /// Engine startup failed.
    Failure,
    /// Failed to lock the mutex guarding the process-wide engine flag.
    MutexFailure,
    /// The execution-affinity invariant was violated: the worker thread is
    /// gone or another engine instance already runs.  Fatal; indicates a bug.
    ThreadFailure,
    /// A queued unit of work failed inside the worker.
    InvocationError(String),
    /// The video subsystem could not be reset.
    ResetVideoFailure,
    /// A video reset attempted to change the active graphics backend, which
    /// the engine does not support after first initialization.
    ResetVideoFailureGraphicsModule,
    /// A native create call returned a null handle.
    NullPointer,
    /// The caller violated a documented precondition, e.g. a channel index
    /// out of range.
    InvalidOperation(String),
    /// An internal read/write lock was poisoned; fatal for this call only.
    LockError(String),
    /// A scene was asked about a source that is not attached to it.
    SourceNotFound,
    /// The output was already active when `start` was called.
    OutputAlreadyActive,
    /// The output failed to start.
    OutputStartFailure(Option<String>),
    /// The output failed to stop.
    OutputStopFailure(Option<String>),
    /// Saving the replay buffer failed; the payload says at which step.
    OutputSaveBufferFailure(String),
    /// A native string could not be converted to valid text, or a settings
    /// value had a type other than the one requested.
    StringConversionError,
    /// The JSON form of a settings object could not be produced or read.
    JsonParseError,
}

impl ObsError {
    /// A short human-readable description of the error kind.
    pub fn describe(&self) -> (r: &'static str)
        ensures
            r@.len() > 0,
    {
        proof {
            reveal_strlit("engine startup failed");
            reveal_strlit("could not lock the engine state mutex");
            reveal_strlit("affinity thread unavailable or engine already running");
            reveal_strlit("queued work failed on the worker thread");
            reveal_strlit("could not reset the video subsystem");
            reveal_strlit("cannot change the graphics backend after initialization");
            reveal_strlit("a native call returned a null handle");
            reveal_strlit("a documented precondition was violated");
            reveal_strlit("an internal lock was poisoned");
            reveal_strlit("the source is not attached to this scene");
            reveal_strlit("the output is already active");
            reveal_strlit("the output failed to start");
            reveal_strlit("the output failed to stop");
            reveal_strlit("saving the replay buffer failed");
            reveal_strlit("a value could not be converted to the requested type");
            reveal_strlit("the JSON form of the settings could not be produced");
        }
        match self {
            ObsError::Failure => "engine startup failed",
            ObsError::MutexFailure => "could not lock the engine state mutex",
            ObsError::ThreadFailure => "affinity thread unavailable or engine already running",
            ObsError::InvocationError(_) => "queued work failed on the worker thread",
            ObsError::ResetVideoFailure => "could not reset the video subsystem",
            ObsError::ResetVideoFailureGraphicsModule => "cannot change the graphics backend after initialization",
            ObsError::NullPointer => "a native call returned a null handle",
            ObsError::InvalidOperation(_) => "a documented precondition was violated",
            ObsError::LockError(_) => "an internal lock was poisoned",
            ObsError::SourceNotFound => "the source is not attached to this scene",
            ObsError::OutputAlreadyActive => "the output is already active",
            ObsError::OutputStartFailure(_) => "the output failed to start",
            ObsError::OutputStopFailure(_) => "the output failed to stop",
            ObsError::OutputSaveBufferFailure(_) => "saving the replay buffer failed",
            ObsError::StringConversionError => "a value could not be converted to the requested type",
            ObsError::JsonParseError => "the JSON form of the settings could not be produced",
        }
    }
}

/// Error type for the platform layer's window lookup helpers.
#[derive(Clone, Debug, PartialEq)]
pub enum WindowHelperError {
    /// The platform's window interface reported an error.
    WindowsApiError(String),
    /// A window's executable name could not be read from its path.
    FileNameError,
    /// A window property could not be converted to valid text.
    StringConversionError,
    /// The window belongs to an operating-system internal executable and
    /// is filtered out of capture lists.
    MicrosoftInternalExe,
    /// The window belongs to the engine's own frontend and is filtered
    /// out of capture lists.
    ObsExe,
    /// An impossible state was reached while walking the window list.
    InvalidState(String),
    /// No window matched the lookup.
    NoWindowFound,
    /// A window property did not fit the expected integer width.
    IntConversionError(String),
}

impl WindowHelperError {
    /// A short human-readable description of the error kind.
    pub fn describe(&self) -> (r: &'static str)
        ensures
            r@.len() > 0,
    {
        proof {
            reveal_strlit("the platform window interface failed");
            reveal_strlit("could not read the executable name");
            reveal_strlit("a window property is not valid text");
            reveal_strlit("an operating-system internal window is filtered out");
            reveal_strlit("the engine frontend's own window is filtered out");
            reveal_strlit("an impossible window-list state");
            reveal_strlit("no window matched");
            reveal_strlit("a window property did not fit its integer width");
        }
        match self {
            WindowHelperError::WindowsApiError(_) => "the platform window interface failed",
            WindowHelperError::FileNameError => "could not read the executable name",
            WindowHelperError::StringConversionError => "a window property is not valid text",
            WindowHelperError::MicrosoftInternalExe => "an operating-system internal window is filtered out",
            WindowHelperError::ObsExe => "the engine frontend's own window is filtered out",
            WindowHelperError::InvalidState(_) => "an impossible window-list state",
            WindowHelperError::NoWindowFound => "no window matched",
            WindowHelperError::IntConversionError(_) => "a window property did not fit its integer width",
        }
    }
}

} // verus!
