use vstd::prelude::*;

verus! {

/// Error taxonomy of the communication core.
///
/// Values that would otherwise wrap platform- or crate-specific error types
/// carry an owned `String` description (or a plain exit code) instead, so an
/// error stays freely clonable and can travel across engine channels.
#[derive(Debug, Clone)]
pub enum ObsError {
    /// The worker executable path could not be interpreted.
    InvalidPath,
    /// The worker process could not be started.
    ProcessStart(String),
    /// Reading from or writing to one of the worker's pipes failed.
    PipeError(String),
    /// An outgoing command could not be serialized.
    Serialization(String),
    /// An inbound byte span did not form a valid notification.
    Deserialization(String),
    /// The outgoing command queue is closed.
    CommandSend(String),
    /// A notification arrived with data the caller cannot accept.
    InvalidEventData(String),
    /// The worker process exited unexpectedly with the given exit code.
    ProcessExited(Option<i32>),
    /// The provided configuration is invalid.
    Configuration(String),
    /// The client is not running or was already shut down.
    NotRunning,
    /// A general I/O failure.
    Io(String),
    /// A recording session is already active.
    AlreadyRecording,
    /// No recording session is currently active.
    NotRecording,
    /// An internal invariant was broken.
    ShouldNotHappen(String),
    /// An internal failure.
    InternalError(String),
    /// A correlated wait ran past its deadline.
    Timeout(String),
    /// A correlation failure: shutdown in progress, an error-typed
    /// notification, or an upstream stream failure.
    EventManagerError(String),
}

} // verus!
