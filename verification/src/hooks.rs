//! Interpretation of one startup-hook invocation.

use vstd::prelude::*;
use vstd::string::StringExecFns;
use crate::outcome::CommandOutcome;

verus! {

/// Judges one hook command's outcome. The driver runs the configured
/// hooks in order and stops at the first error this returns.
pub fn hook_outcome(cmd: &str, o: &CommandOutcome) -> (r: Result<(), String>)
    ensures
        r is Ok <==> o is Success,
        o matches CommandOutcome::Failure(stderr) ==> r matches Err(m) && m@ == "Hook `"@ + cmd@
            + "` failed: "@ + stderr@,
        o matches CommandOutcome::SpawnError(e) ==> r matches Err(m) && m@
            == "Failed to run hook `"@ + cmd@ + "`: "@ + e@,
{
    match o {
        CommandOutcome::Success(_) => Ok(()),
        CommandOutcome::Failure(stderr) => Err(
            String::from_str("Hook `").concat(cmd).concat("` failed: ").concat(stderr.as_str()),
        ),
        CommandOutcome::SpawnError(e) => Err(
            String::from_str("Failed to run hook `").concat(cmd).concat("`: ").concat(e.as_str()),
        ),
    }
}

} // verus!
