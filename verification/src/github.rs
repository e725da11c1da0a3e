//! Interpretation of the `gh auth token` probe.

use vstd::prelude::*;
use vstd::string::StrSliceExecFns;
use vstd::string::StringExecFns;
use crate::outcome::CommandOutcome;
use crate::text::{spec_trim, str_trim};

verus! {

/// Interprets one `gh auth token` invocation: the trimmed standard
/// output is the token; an empty token, a failing exit, and an
/// unspawnable binary each carry their own guidance.
pub fn token_outcome(o: &CommandOutcome) -> (r: Result<String, String>)
    ensures
        o matches CommandOutcome::Success(out) ==> (if spec_trim(out@).len() == 0 {
            r matches Err(m) && m@ == "No GitHub token found. Run 'gh auth login' to authenticate."@
        } else {
            r matches Ok(t) && t@ == spec_trim(out@)
        }),
        o matches CommandOutcome::Failure(stderr) ==> r matches Err(m) && m@
            == "gh auth token failed: "@ + stderr@ + ". Run 'gh auth login' to authenticate."@,
        o matches CommandOutcome::SpawnError(e) ==> r matches Err(m) && m@
            == "Failed to run gh: "@ + e@ + ". Is GitHub CLI installed?"@,
{
    match o {
        CommandOutcome::Success(out) => {
            let t = str_trim(out.as_str());
            if t.is_empty() {
                Err(String::from_str("No GitHub token found. Run 'gh auth login' to authenticate."))
            } else {
                Ok(t.to_owned())
            }
        },
        CommandOutcome::Failure(stderr) => Err(
            String::from_str("gh auth token failed: ").concat(stderr.as_str()).concat(
                ". Run 'gh auth login' to authenticate.",
            ),
        ),
        CommandOutcome::SpawnError(e) => Err(
            String::from_str("Failed to run gh: ").concat(e.as_str()).concat(
                ". Is GitHub CLI installed?",
            ),
        ),
    }
}

} // verus!
