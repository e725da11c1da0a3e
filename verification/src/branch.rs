//! Default-branch resolution and merge detection.
//!
//! Both operations alternate git probes with decisions. The decisions
//! live here as transition functions over explicit states and
//! observed probe outcomes; the driver runs the probes and feeds the
//! outcomes back until a step is terminal.

use vstd::prelude::*;
use vstd::string::StrSliceExecFns;
use vstd::string::StringExecFns;
use crate::errors::LifecycleError;
use crate::outcome::CommandOutcome;
use crate::text::{spec_trim, starts_with, str_starts_with, str_trim};

verus! {

/// The standard output carried by a successful outcome; empty otherwise.
pub open spec fn outcome_stdout(o: CommandOutcome) -> Seq<char> {
    match o {
        CommandOutcome::Success(out) => out@,
        _ => Seq::empty(),
    }
}

/// The probe the driver must run next while resolving the default branch.
#[derive(Debug, Clone, Copy, PartialEq, Eq)]
pub enum ResolveProbe {
    /// `git symbolic-ref refs/remotes/origin/HEAD`
    SymbolicRef,
    /// `git rev-parse --verify origin/main`
    VerifyMain,
    /// `git rev-parse --verify origin/master`
    VerifyMaster,
}

/// Which probe's outcome the resolver is waiting for.
#[derive(Debug, Clone, Copy, PartialEq, Eq)]
pub enum ResolveState {
    AwaitingSymbolicRef,
    AwaitingMain,
    AwaitingMaster,
}

/// One resolver step: either another probe is needed, or the branch
/// ref is settled. Resolution never fails: there is no error arm.
#[derive(Debug, Clone)]
pub enum ResolveStep {
    Continue(ResolveState, ResolveProbe),
    Done(String),
}

/// The symbolic-ref probe settles the resolution only when it
/// succeeded and its trimmed output bears the `refs/remotes/` prefix.
pub open spec fn symref_resolves(o: CommandOutcome) -> bool {
    o matches CommandOutcome::Success(out) && starts_with(spec_trim(out@), "refs/remotes/"@)
}

/// The branch ref a resolving symbolic-ref probe yields:
/// `refs/remotes/origin/main` becomes `origin/main`.
pub open spec fn symref_branch(o: CommandOutcome) -> Seq<char> {
    spec_trim(outcome_stdout(o)).skip("refs/remotes/"@.len() as int)
}

/// The resolver's transition relation: what each probe outcome does
/// in each state. A probe's own failure only moves to the next
/// fallback; the last fallback answers `origin/main` unconditionally.
pub open spec fn resolve_trans(st: ResolveState, o: CommandOutcome, r: ResolveStep) -> bool {
    match st {
        ResolveState::AwaitingSymbolicRef => {
            if symref_resolves(o) {
                r matches ResolveStep::Done(b) && b@ == symref_branch(o)
            } else {
                r matches ResolveStep::Continue(s2, p) && s2 is AwaitingMain && p is VerifyMain
            }
        },
        ResolveState::AwaitingMain => match o {
            CommandOutcome::Success(_) => r matches ResolveStep::Done(b) && b@ == "origin/main"@,
            _ => r matches ResolveStep::Continue(s2, p) && s2 is AwaitingMaster
                && p is VerifyMaster,
        },
        ResolveState::AwaitingMaster => match o {
            CommandOutcome::Success(_) => r matches ResolveStep::Done(b) && b@
                == "origin/master"@,
            _ => r matches ResolveStep::Done(b) && b@ == "origin/main"@,
        },
    }
}

/// Starts a resolution: the symbolic ref is always probed first.
pub fn resolve_begin() -> (r: (ResolveState, ResolveProbe))
    ensures
        r.0 is AwaitingSymbolicRef,
        r.1 is SymbolicRef,
{
    (ResolveState::AwaitingSymbolicRef, ResolveProbe::SymbolicRef)
}

/// Advances the resolver by one observed probe outcome.
pub fn resolve_next(st: &ResolveState, o: &CommandOutcome) -> (r: ResolveStep)
    ensures
        resolve_trans(*st, *o, r),
{
    match st {
        ResolveState::AwaitingSymbolicRef => {
            match o {
                CommandOutcome::Success(out) => {
                    let t = str_trim(out.as_str());
                    if str_starts_with(t, "refs/remotes/") {
                        let plen = "refs/remotes/".unicode_len();
                        let b = t.substring_char(plen, t.unicode_len());
                        proof {
                            assert(b@ =~= spec_trim(out@).skip("refs/remotes/"@.len() as int));
                        }
                        ResolveStep::Done(b.to_owned())
                    } else {
                        ResolveStep::Continue(ResolveState::AwaitingMain, ResolveProbe::VerifyMain)
                    }
                },
                _ => ResolveStep::Continue(ResolveState::AwaitingMain, ResolveProbe::VerifyMain),
            }
        },
        ResolveState::AwaitingMain => match o {
            CommandOutcome::Success(_) => ResolveStep::Done(String::from_str("origin/main")),
            _ => ResolveStep::Continue(ResolveState::AwaitingMaster, ResolveProbe::VerifyMaster),
        },
        ResolveState::AwaitingMaster => match o {
            CommandOutcome::Success(_) => ResolveStep::Done(String::from_str("origin/master")),
            _ => ResolveStep::Done(String::from_str("origin/main")),
        },
    }
}

/// Law: the fallback order is symbolic ref, then `origin/main`, then
/// `origin/master`, then the literal `origin/main`. When the
/// symbolic ref does not resolve, `origin/main` is absent, and
/// `origin/master` exists, any run of the resolver settles on
/// `origin/master`.
pub proof fn lemma_resolver_fallback_order(
    o1: CommandOutcome,
    o2: CommandOutcome,
    o3: CommandOutcome,
    r1: ResolveStep,
    r2: ResolveStep,
    r3: ResolveStep,
)
    requires
        !symref_resolves(o1),
        !(o2 is Success),
        o3 is Success,
        resolve_trans(ResolveState::AwaitingSymbolicRef, o1, r1),
        r1 matches ResolveStep::Continue(s1, _) && resolve_trans(s1, o2, r2),
        r2 matches ResolveStep::Continue(s2, _) && resolve_trans(s2, o3, r3),
    ensures
        r3 matches ResolveStep::Done(b) && b@ == "origin/master"@,
{
}

/// Where the merge check stands.
#[derive(Debug, Clone)]
pub enum MergedState {
    /// Waiting for `git rev-parse --verify origin/<branch>`.
    ProbingRemote { branch: String },
    /// Waiting for the default branch to be resolved.
    ResolvingDefault { branch: String },
    /// Waiting for `git merge-base --is-ancestor <branch> <base>`.
    CheckingAncestor,
}

/// What the driver must do next for the merge check.
#[derive(Debug, Clone)]
pub enum MergedAction {
    /// Run `git rev-parse --verify` on the carried ref.
    ProbeRemote(String),
    /// Run the default-branch resolver to completion.
    ResolveDefault,
    /// Run `git merge-base --is-ancestor branch base`.
    AncestorCheck { branch: String, base: String },
}

/// One merge-check step.
#[derive(Debug, Clone)]
pub enum MergedStep {
    Continue(MergedState, MergedAction),
    Done(bool),
    Failed(LifecycleError),
}

/// What the driver hands back to the merge check.
#[derive(Debug, Clone)]
pub enum MergedEvent {
    /// The outcome of the probe that the last action requested.
    Probe(CommandOutcome),
    /// The ref the default-branch resolver settled on.
    DefaultResolved(String),
}

/// The event each merge-check state expects.
pub open spec fn merged_event_fits(st: MergedState, ev: MergedEvent) -> bool {
    match st {
        MergedState::ProbingRemote { .. } => ev is Probe,
        MergedState::ResolvingDefault { .. } => ev is DefaultResolved,
        MergedState::CheckingAncestor => ev is Probe,
    }
}

/// The resolved default branch with its `origin/` prefix stripped,
/// for the local-branch ancestry comparison.
pub open spec fn spec_strip_origin(d: Seq<char>) -> Seq<char> {
    if starts_with(d, "origin/"@) {
        d.skip("origin/"@.len() as int)
    } else {
        d
    }
}

/// The merge check's transition relation. A missing remote tracking
/// branch means merged (squash-merge workflows delete it); otherwise
/// the ancestry probe's exit status is the verdict. Spawn failures
/// are fatal, as everywhere.
pub open spec fn merged_trans(st: MergedState, ev: MergedEvent, r: MergedStep) -> bool {
    match st {
        MergedState::ProbingRemote { branch } => match ev {
            MergedEvent::Probe(o) => match o {
                CommandOutcome::SpawnError(e) => r matches MergedStep::Failed(
                    LifecycleError::SpawnFailed(m),
                ) && m@ == "Failed to run git: "@ + e@,
                CommandOutcome::Failure(_) => r matches MergedStep::Done(v) && v == true,
                CommandOutcome::Success(_) => r matches MergedStep::Continue(s2, a)
                    && (s2 matches MergedState::ResolvingDefault { branch: b2 } && b2@ == branch@)
                    && a is ResolveDefault,
            },
            _ => false,
        },
        MergedState::ResolvingDefault { branch } => match ev {
            MergedEvent::DefaultResolved(d) => r matches MergedStep::Continue(s2, a)
                && s2 is CheckingAncestor
                && (a matches MergedAction::AncestorCheck { branch: b2, base } && b2@ == branch@
                    && base@ == spec_strip_origin(d@)),
            _ => false,
        },
        MergedState::CheckingAncestor => match ev {
            MergedEvent::Probe(o) => match o {
                CommandOutcome::SpawnError(e) => r matches MergedStep::Failed(
                    LifecycleError::SpawnFailed(m),
                ) && m@ == "Failed to run git: "@ + e@,
                CommandOutcome::Success(_) => r matches MergedStep::Done(v) && v == true,
                CommandOutcome::Failure(_) => r matches MergedStep::Done(v) && v == false,
            },
            _ => false,
        },
    }
}

/// Starts a merge check for `branch`: the remote tracking ref
/// `origin/<branch>` is probed first.
pub fn check_merged_begin(branch: &str) -> (r: (MergedState, MergedAction))
    ensures
        r.0 matches MergedState::ProbingRemote { branch: b } && b@ == branch@,
        r.1 matches MergedAction::ProbeRemote(rf) && rf@ == "origin/"@ + branch@,
{
    let remote_ref = String::from_str("origin/").concat(branch);
    (
        MergedState::ProbingRemote { branch: branch.to_owned() },
        MergedAction::ProbeRemote(remote_ref),
    )
}

/// Advances the merge check by one observed event.
pub fn check_merged_next(st: &MergedState, ev: &MergedEvent) -> (r: MergedStep)
    requires
        merged_event_fits(*st, *ev),
    ensures
        merged_trans(*st, *ev, r),
{
    match st {
        MergedState::ProbingRemote { branch } => match ev {
            MergedEvent::Probe(o) => match o {
                CommandOutcome::SpawnError(e) => MergedStep::Failed(LifecycleError::SpawnFailed(
                    String::from_str("Failed to run git: ").concat(e.as_str()),
                )),
                CommandOutcome::Failure(_) => MergedStep::Done(true),
                CommandOutcome::Success(_) => MergedStep::Continue(
                    MergedState::ResolvingDefault { branch: branch.clone() },
                    MergedAction::ResolveDefault,
                ),
            },
            _ => {
                proof {
                    assert(false);
                }
                MergedStep::Done(false)
            },
        },
        MergedState::ResolvingDefault { branch } => match ev {
            MergedEvent::DefaultResolved(d) => {
                let base = if str_starts_with(d.as_str(), "origin/") {
                    let plen = "origin/".unicode_len();
                    let b = d.as_str().substring_char(plen, d.as_str().unicode_len());
                    proof {
                        assert(b@ =~= d@.skip("origin/"@.len() as int));
                    }
                    b.to_owned()
                } else {
                    d.clone()
                };
                MergedStep::Continue(
                    MergedState::CheckingAncestor,
                    MergedAction::AncestorCheck { branch: branch.clone(), base },
                )
            },
            _ => {
                proof {
                    assert(false);
                }
                MergedStep::Done(false)
            },
        },
        MergedState::CheckingAncestor => match ev {
            MergedEvent::Probe(o) => match o {
                CommandOutcome::SpawnError(e) => MergedStep::Failed(LifecycleError::SpawnFailed(
                    String::from_str("Failed to run git: ").concat(e.as_str()),
                )),
                CommandOutcome::Success(_) => MergedStep::Done(true),
                CommandOutcome::Failure(_) => MergedStep::Done(false),
            },
            _ => {
                proof {
                    assert(false);
                }
                MergedStep::Done(false)
            },
        },
    }
}

/// Law: when `origin/<branch>` fails to resolve, the merge check
/// concludes "merged" at once; the transition is terminal, so no
/// ancestry check is ever requested.
pub proof fn lemma_merged_via_deleted_remote(st: MergedState, ev: MergedEvent, r: MergedStep)
    requires
        st is ProbingRemote,
        ev matches MergedEvent::Probe(CommandOutcome::Failure(_)),
        merged_trans(st, ev, r),
    ensures
        r matches MergedStep::Done(v) && v == true,
{
}

} // verus!
