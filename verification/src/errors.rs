//! The failure taxonomy of the lifecycle operations.

use vstd::prelude::*;

verus! {

/// One lifecycle failure. Each variant carries the complete
/// operator-facing message, including the failing command's purpose
/// and the captured cause, so the driver can surface it verbatim.
#[derive(Debug, Clone)]
pub enum LifecycleError {
    /// A supplied path failed validation before any mutation.
    InvalidPath(String),
    /// A validated copy path names a source that does not exist.
    CopyPathError(String),
    /// The target of an operation is missing on disk.
    NotFound(String),
    /// A primary git operation exited non-zero.
    GitCommandFailed(String),
    /// The external binary could not be spawned.
    SpawnFailed(String),
    /// A filesystem operation failed.
    IoError(String),
}

impl LifecycleError {
    /// The message carried by the variant, whichever it is.
    pub open spec fn message_view(&self) -> Seq<char> {
        match self {
            LifecycleError::InvalidPath(m) => m@,
            LifecycleError::CopyPathError(m) => m@,
            LifecycleError::NotFound(m) => m@,
            LifecycleError::GitCommandFailed(m) => m@,
            LifecycleError::SpawnFailed(m) => m@,
            LifecycleError::IoError(m) => m@,
        }
    }

    /// The operator-facing text of the error.
    pub fn message(&self) -> (r: &str)
        ensures
            r@ == self.message_view(),
    {
        match self {
            LifecycleError::InvalidPath(m) => m.as_str(),
            LifecycleError::CopyPathError(m) => m.as_str(),
            LifecycleError::NotFound(m) => m.as_str(),
            LifecycleError::GitCommandFailed(m) => m.as_str(),
            LifecycleError::SpawnFailed(m) => m.as_str(),
            LifecycleError::IoError(m) => m.as_str(),
        }
    }
}

} // verus!
