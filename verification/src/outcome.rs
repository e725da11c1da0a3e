//! The observed result of one subprocess invocation.

use vstd::prelude::*;

verus! {

/// What the driver saw when it ran an external binary: the process
/// exited successfully (captured standard output), exited with a
/// failure status (captured standard error), or could not be spawned
/// at all (the spawn error's text).
#[derive(Debug, Clone)]
pub enum CommandOutcome {
    Success(String),
    Failure(String),
    SpawnError(String),
}

} // verus!
