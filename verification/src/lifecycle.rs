//! The worktree lifecycle: creation, listing, removal.
//!
//! Creation is a state machine: every decision the operation makes is
//! a transition here, while the driver performs the requested probes,
//! git calls and filesystem work and feeds each observed outcome back
//! in. Copy-path validation happens before the first action is ever
//! requested, so an invalid set fails with no mutation performed.

use vstd::prelude::*;
use vstd::string::StringExecFns;
use crate::errors::LifecycleError;
use crate::outcome::CommandOutcome;
use crate::paths::{
    invalid_path_message, join_path, spec_join, spec_worktree_target, spec_worktrees_dir,
    target_layout, valid_copy_path, valid_repo_path, validate_relative_path,
};
use crate::porcelain::{RawWorktree, WorktreeHealth};
use crate::text::{contains_seq, spec_trim, str_contains, str_eq, str_trim};

verus! {

/// One worktree as the lifecycle reports it. The branch name doubles
/// as the issue id; a worktree on a detached HEAD has an empty branch
/// and no issue id.
#[derive(Debug, Clone)]
pub struct WorktreeInfo {
    pub branch: String,
    pub path: String,
    pub issue_id: Option<String>,
    pub is_dirty: bool,
    pub ahead: u32,
    pub behind: u32,
}

/// The arguments of one creation.
#[derive(Debug)]
pub struct CreateParams {
    pub repo_path: String,
    pub issue_id: String,
    pub copy_paths: Vec<String>,
    pub base_branch: Option<String>,
    pub fetch_before: bool,
}

/// Where a creation stands: which outcome it waits for.
#[derive(Debug, Clone, Copy, PartialEq, Eq, Structural)]
pub enum CreateState {
    /// Verifying that copy source `idx` exists, before any mutation.
    CheckingSources { idx: usize },
    /// Creating the `-worktrees` parent directory.
    EnsuringDir,
    /// `git fetch origin`; advisory.
    Fetching,
    /// `git worktree prune`; advisory.
    Pruning,
    /// Checking whether the target directory already exists.
    CheckingTarget,
    /// Reading the existing target's checked-out branch.
    ProbingTargetBranch,
    /// Deleting a stale target directory.
    RemovingStale,
    /// Resolving the base branch.
    ResolvingBase,
    /// `git worktree add -b <issue>` from the resolved base.
    Adding,
    /// `git worktree add` attaching the already-existing branch.
    AddingExisting,
    /// Copying validated path `idx` into the new worktree.
    Copying { idx: usize },
    /// Probing the health of the already-correct worktree.
    ProbingHealth,
}

/// What the driver must do next for a creation.
#[derive(Debug, Clone)]
pub enum CreateAction {
    /// Check that the carried source path exists (no mutation).
    CheckSourceExists(String),
    /// Create the carried directory and its ancestors.
    EnsureWorktreesDir(String),
    /// `git -C <repo> fetch origin`; failure is logged, not fatal.
    FetchOrigin,
    /// `git -C <repo> worktree prune`; outcome ignored.
    PruneWorktrees,
    /// Check whether the carried directory exists.
    CheckTargetExists(String),
    /// `git -C <carried path> rev-parse --abbrev-ref HEAD`.
    ProbeTargetBranch(String),
    /// Recursively delete the carried stale directory.
    RemoveTargetDir(String),
    /// Run the default-branch resolver to completion.
    ResolveBase,
    /// `git -C <repo> worktree add <target> -b <issue> <base>`.
    AddWorktree { base: String },
    /// `git -C <repo> worktree add <target> <issue>`: attach the
    /// branch that already exists.
    AddWorktreeExisting,
    /// Copy one validated entry from the repository into the worktree.
    CopyPath { src: String, dst: String },
    /// Probe dirty/ahead/behind of the existing worktree.
    ProbeHealth { path: String, branch: String },
}

/// What the driver observed for the last requested action.
#[derive(Debug)]
pub enum CreateEvent {
    SourceExists(bool),
    DirEnsured(Result<(), String>),
    FetchDone(CommandOutcome),
    PruneDone,
    TargetExists(bool),
    BranchProbe(CommandOutcome),
    StaleRemoved(Result<(), String>),
    BaseResolved(String),
    AddResult(CommandOutcome),
    AddExistingResult(CommandOutcome),
    CopyDone(Result<(), String>),
    HealthProbed(WorktreeHealth),
}

/// A creation in flight.
#[derive(Debug)]
pub struct CreateMachine {
    pub params: CreateParams,
    /// `<parent>/<repoBasename>-worktrees`.
    pub worktrees_dir: String,
    /// `<worktreesDir>/<issueId>`.
    pub worktree_path: String,
    pub state: CreateState,
}

/// One creation step.
#[derive(Debug)]
pub enum CreateStep {
    Continue(CreateMachine, CreateAction),
    Finished(WorktreeInfo),
    Failed(LifecycleError),
}

/// The validated copy paths, as sequences of characters.
pub open spec fn copy_paths_of(m: CreateMachine) -> Seq<Seq<char>> {
    m.params.copy_paths.deep_view()
}

/// Bounds the per-state indices.
pub open spec fn state_wf(st: CreateState, n_paths: int) -> bool {
    match st {
        CreateState::CheckingSources { idx } => idx < n_paths,
        CreateState::Copying { idx } => idx < n_paths,
        _ => true,
    }
}

/// A machine is well formed when its cached directory strings agree
/// with its parameters, every copy path is valid, and per-state
/// indices are in bounds.
pub open spec fn machine_wf(m: CreateMachine) -> bool {
    &&& valid_repo_path(m.params.repo_path@)
    &&& m.worktrees_dir@ == spec_worktrees_dir(m.params.repo_path@)
    &&& m.worktree_path@ == spec_worktree_target(m.params.repo_path@, m.params.issue_id@)
    &&& forall|i: int|
        0 <= i < copy_paths_of(m).len() ==> valid_copy_path(#[trigger] copy_paths_of(m)[i])
    &&& state_wf(m.state, copy_paths_of(m).len() as int)
}

/// The machine with only its state advanced.
pub open spec fn change_state(m: CreateMachine, st: CreateState) -> CreateMachine {
    CreateMachine { state: st, ..m }
}

/// The event each creation state expects.
pub open spec fn create_event_fits(st: CreateState, ev: CreateEvent) -> bool {
    match st {
        CreateState::CheckingSources { .. } => ev is SourceExists,
        CreateState::EnsuringDir => ev is DirEnsured,
        CreateState::Fetching => ev is FetchDone,
        CreateState::Pruning => ev is PruneDone,
        CreateState::CheckingTarget => ev is TargetExists,
        CreateState::ProbingTargetBranch => ev is BranchProbe,
        CreateState::RemovingStale => ev is StaleRemoved,
        CreateState::ResolvingBase => ev is BaseResolved,
        CreateState::Adding => ev is AddResult,
        CreateState::AddingExisting => ev is AddExistingResult,
        CreateState::Copying { .. } => ev is CopyDone,
        CreateState::ProbingHealth => ev is HealthProbed,
    }
}

/// The step that moves on to creating the parent directory.
pub open spec fn ensure_dir_step(m: CreateMachine, r: CreateStep) -> bool {
    r matches CreateStep::Continue(m2, a) && m2 == change_state(m, CreateState::EnsuringDir)
        && (a matches CreateAction::EnsureWorktreesDir(p) && p@ == m.worktrees_dir@)
}

/// The step that checks source `idx`.
pub open spec fn check_source_step(m: CreateMachine, idx: int, r: CreateStep) -> bool {
    r matches CreateStep::Continue(m2, a) && m2 == change_state(
        m,
        CreateState::CheckingSources { idx: idx as usize },
    ) && (a matches CreateAction::CheckSourceExists(p) && p@ == spec_join(
        m.params.repo_path@,
        copy_paths_of(m)[idx],
    ))
}

/// After the parent directory exists: fetch first when asked to.
pub open spec fn after_dir_step(m: CreateMachine, r: CreateStep) -> bool {
    if m.params.fetch_before {
        r matches CreateStep::Continue(m2, a) && m2 == change_state(m, CreateState::Fetching)
            && a is FetchOrigin
    } else {
        prune_step(m, r)
    }
}

/// The step that prunes stale worktree registrations.
pub open spec fn prune_step(m: CreateMachine, r: CreateStep) -> bool {
    r matches CreateStep::Continue(m2, a) && m2 == change_state(m, CreateState::Pruning)
        && a is PruneWorktrees
}

/// The step that asks whether the target directory exists.
pub open spec fn check_target_step(m: CreateMachine, r: CreateStep) -> bool {
    r matches CreateStep::Continue(m2, a) && m2 == change_state(m, CreateState::CheckingTarget)
        && (a matches CreateAction::CheckTargetExists(p) && p@ == m.worktree_path@)
}

/// Base selection: an explicitly supplied non-empty base goes
/// straight to the add; otherwise the resolver runs first.
pub open spec fn base_step(m: CreateMachine, r: CreateStep) -> bool {
    match m.params.base_branch {
        Some(b) => {
            if b@.len() > 0 {
                r matches CreateStep::Continue(m2, a) && m2 == change_state(
                    m,
                    CreateState::Adding,
                ) && (a matches CreateAction::AddWorktree { base } && base@ == b@)
            } else {
                resolve_step(m, r)
            }
        },
        None => resolve_step(m, r),
    }
}

/// The step that runs the default-branch resolver.
pub open spec fn resolve_step(m: CreateMachine, r: CreateStep) -> bool {
    r matches CreateStep::Continue(m2, a) && m2 == change_state(m, CreateState::ResolvingBase)
        && a is ResolveBase
}

/// A record for a worktree this creation just made or found: health
/// taken as given, branch and issue id the requested one, path the
/// computed target.
pub open spec fn finished_record(m: CreateMachine, h: WorktreeHealth, r: CreateStep) -> bool {
    r matches CreateStep::Finished(w) && w.branch@ == m.params.issue_id@ && w.path@
        == m.worktree_path@ && (w.issue_id matches Some(s) && s@ == m.params.issue_id@)
        && w.is_dirty == h.is_dirty && w.ahead == h.ahead && w.behind == h.behind
}

/// A freshly created worktree is reported clean.
pub open spec fn clean_health() -> WorktreeHealth {
    WorktreeHealth { is_dirty: false, ahead: 0, behind: 0 }
}

/// After a successful add: copy the first validated path, or finish
/// clean when there is nothing to copy.
pub open spec fn copy_or_finish_step(m: CreateMachine, r: CreateStep) -> bool {
    if copy_paths_of(m).len() > 0 {
        copy_step(m, 0, r)
    } else {
        finished_record(m, clean_health(), r)
    }
}

/// The step that copies validated path `idx`.
pub open spec fn copy_step(m: CreateMachine, idx: int, r: CreateStep) -> bool {
    r matches CreateStep::Continue(m2, a) && m2 == change_state(
        m,
        CreateState::Copying { idx: idx as usize },
    ) && (a matches CreateAction::CopyPath { src, dst } && src@ == spec_join(
        m.params.repo_path@,
        copy_paths_of(m)[idx],
    ) && dst@ == spec_join(m.worktree_path@, copy_paths_of(m)[idx]))
}

/// The creation's transition relation: what every observed event does
/// in every state.
pub open spec fn create_trans(m: CreateMachine, ev: CreateEvent, r: CreateStep) -> bool {
    match m.state {
        CreateState::CheckingSources { idx } => match ev {
            CreateEvent::SourceExists(ex) => {
                if !ex {
                    r matches CreateStep::Failed(LifecycleError::CopyPathError(msg)) && msg@
                        == "copyPaths: source does not exist: "@ + spec_join(
                        m.params.repo_path@,
                        copy_paths_of(m)[idx as int],
                    )
                } else if idx + 1 < copy_paths_of(m).len() {
                    check_source_step(m, idx + 1, r)
                } else {
                    ensure_dir_step(m, r)
                }
            },
            _ => false,
        },
        CreateState::EnsuringDir => match ev {
            CreateEvent::DirEnsured(res) => match res {
                Ok(_) => after_dir_step(m, r),
                Err(e) => r matches CreateStep::Failed(LifecycleError::IoError(msg)) && msg@
                    == "Failed to create worktrees directory: "@ + e@,
            },
            _ => false,
        },
        CreateState::Fetching => match ev {
            CreateEvent::FetchDone(_) => prune_step(m, r),
            _ => false,
        },
        CreateState::Pruning => match ev {
            CreateEvent::PruneDone => check_target_step(m, r),
            _ => false,
        },
        CreateState::CheckingTarget => match ev {
            CreateEvent::TargetExists(ex) => {
                if ex {
                    r matches CreateStep::Continue(m2, a) && m2 == change_state(
                        m,
                        CreateState::ProbingTargetBranch,
                    ) && (a matches CreateAction::ProbeTargetBranch(p) && p@ == m.worktree_path@)
                } else {
                    base_step(m, r)
                }
            },
            _ => false,
        },
        CreateState::ProbingTargetBranch => match ev {
            CreateEvent::BranchProbe(o) => {
                if o matches CommandOutcome::Success(out) && spec_trim(out@)
                    == m.params.issue_id@ {
                    r matches CreateStep::Continue(m2, a) && m2 == change_state(
                        m,
                        CreateState::ProbingHealth,
                    ) && (a matches CreateAction::ProbeHealth { path, branch } && path@
                        == m.worktree_path@ && branch@ == m.params.issue_id@)
                } else {
                    r matches CreateStep::Continue(m2, a) && m2 == change_state(
                        m,
                        CreateState::RemovingStale,
                    ) && (a matches CreateAction::RemoveTargetDir(p) && p@ == m.worktree_path@)
                }
            },
            _ => false,
        },
        CreateState::RemovingStale => match ev {
            CreateEvent::StaleRemoved(res) => match res {
                Ok(_) => base_step(m, r),
                Err(e) => r matches CreateStep::Failed(LifecycleError::IoError(msg)) && msg@
                    == "Cannot clean stale directory "@ + m.worktree_path@ + ": "@ + e@,
            },
            _ => false,
        },
        CreateState::ResolvingBase => match ev {
            CreateEvent::BaseResolved(b) => r matches CreateStep::Continue(m2, a) && m2
                == change_state(m, CreateState::Adding)
                && (a matches CreateAction::AddWorktree { base } && base@ == b@),
            _ => false,
        },
        CreateState::Adding => match ev {
            CreateEvent::AddResult(o) => match o {
                CommandOutcome::SpawnError(e) => r matches CreateStep::Failed(
                    LifecycleError::SpawnFailed(msg),
                ) && msg@ == "Failed to run git: "@ + e@,
                CommandOutcome::Success(_) => copy_or_finish_step(m, r),
                CommandOutcome::Failure(stderr) => {
                    if contains_seq(stderr@, "already exists"@) {
                        r matches CreateStep::Continue(m2, a) && m2 == change_state(
                            m,
                            CreateState::AddingExisting,
                        ) && a is AddWorktreeExisting
                    } else {
                        r matches CreateStep::Failed(LifecycleError::GitCommandFailed(msg))
                            && msg@ == "git worktree add failed: "@ + stderr@
                    }
                },
            },
            _ => false,
        },
        CreateState::AddingExisting => match ev {
            CreateEvent::AddExistingResult(o) => match o {
                CommandOutcome::SpawnError(e) => r matches CreateStep::Failed(
                    LifecycleError::SpawnFailed(msg),
                ) && msg@ == "Failed to run git: "@ + e@,
                CommandOutcome::Success(_) => copy_or_finish_step(m, r),
                CommandOutcome::Failure(stderr) => r matches CreateStep::Failed(
                    LifecycleError::GitCommandFailed(msg),
                ) && msg@ == "git worktree add failed: "@ + stderr@,
            },
            _ => false,
        },
        CreateState::Copying { idx } => match ev {
            CreateEvent::CopyDone(res) => match res {
                Ok(_) => {
                    if idx + 1 < copy_paths_of(m).len() {
                        copy_step(m, idx + 1, r)
                    } else {
                        finished_record(m, clean_health(), r)
                    }
                },
                Err(e) => r matches CreateStep::Failed(LifecycleError::IoError(msg)) && msg@
                    == e@,
            },
            _ => false,
        },
        CreateState::ProbingHealth => match ev {
            CreateEvent::HealthProbed(h) => finished_record(m, h, r),
            _ => false,
        },
    }
}

/// The index of the first unacceptable copy path, or `-1`.
pub open spec fn first_invalid_copy(paths: Seq<Seq<char>>) -> int
    decreases paths.len(),
{
    if paths.len() == 0 {
        -1
    } else if !valid_copy_path(paths[0]) {
        0
    } else {
        let r = first_invalid_copy(paths.drop_first());
        if r < 0 {
            -1
        } else {
            1 + r
        }
    }
}

pub proof fn lemma_first_invalid_props(paths: Seq<Seq<char>>)
    ensures
        -1 <= first_invalid_copy(paths) < paths.len(),
        first_invalid_copy(paths) >= 0 ==> !valid_copy_path(paths[first_invalid_copy(paths)]),
        first_invalid_copy(paths) >= 0 ==> forall|j: int|
            0 <= j < first_invalid_copy(paths) ==> valid_copy_path(#[trigger] paths[j]),
        first_invalid_copy(paths) == -1 ==> forall|j: int|
            0 <= j < paths.len() ==> valid_copy_path(#[trigger] paths[j]),
    decreases paths.len(),
{
    if paths.len() == 0 {
    } else if !valid_copy_path(paths[0]) {
    } else {
        lemma_first_invalid_props(paths.drop_first());
        assert(forall|j: int| 1 <= j < paths.len() ==> paths[j] == paths.drop_first()[j - 1]);
    }
}

/// The machine a creation starts with: the given parameters and the
/// sibling-directory layout computed from them.
pub open spec fn begin_machine(params: CreateParams, m: CreateMachine) -> bool {
    &&& m.params == params
    &&& m.worktrees_dir@ == spec_worktrees_dir(params.repo_path@)
    &&& m.worktree_path@ == spec_worktree_target(params.repo_path@, params.issue_id@)
}

/// What starting a creation yields: a rejected repository path or
/// copy path fails at once, before any action is requested; with
/// sources to check the first existence probe comes first; otherwise
/// the parent directory is ensured.
pub open spec fn create_begin_post(params: CreateParams, r: CreateStep) -> bool {
    let paths = params.copy_paths.deep_view();
    if !valid_repo_path(params.repo_path@) {
        r matches CreateStep::Failed(LifecycleError::InvalidPath(m)) && m@
            == "Invalid repo path"@
    } else if first_invalid_copy(paths) >= 0 {
        r matches CreateStep::Failed(LifecycleError::InvalidPath(m)) && m@
            == invalid_path_message(paths[first_invalid_copy(paths)])
    } else if paths.len() > 0 {
        r matches CreateStep::Continue(m2, a) && begin_machine(params, m2) && m2.state
            == (CreateState::CheckingSources { idx: 0 }) && (a
            matches CreateAction::CheckSourceExists(p) && p@ == spec_join(
            params.repo_path@,
            paths[0],
        ))
    } else {
        r matches CreateStep::Continue(m2, a) && begin_machine(params, m2) && m2.state
            == CreateState::EnsuringDir && (a matches CreateAction::EnsureWorktreesDir(p) && p@
            == spec_worktrees_dir(params.repo_path@))
    }
}

/// Starts a creation. All copy paths are validated here, before the
/// first action is requested, so an invalid set fails with nothing
/// touched on disk.
pub fn create_begin(params: CreateParams) -> (r: CreateStep)
    ensures
        create_begin_post(params, r),
        r matches CreateStep::Continue(m2, _) ==> machine_wf(m2),
{
    let layout = match target_layout(params.repo_path.as_str(), params.issue_id.as_str()) {
        Ok(l) => l,
        Err(e) => {
            return CreateStep::Failed(e);
        },
    };
    let ghost paths = params.copy_paths.deep_view();
    let mut i: usize = 0;
    while i < params.copy_paths.len()
        invariant
            valid_repo_path(params.repo_path@),
            paths == params.copy_paths.deep_view(),
            paths.len() == params.copy_paths@.len(),
            i <= paths.len(),
            forall|j: int| 0 <= j < i ==> valid_copy_path(#[trigger] paths[j]),
        decreases paths.len() - i,
    {
        let p: &String = &params.copy_paths[i];
        proof {
            assert(p@ == paths[i as int]);
        }
        match validate_relative_path(p.as_str()) {
            Ok(_) => {},
            Err(e) => {
                proof {
                    lemma_first_invalid_props(paths);
                    let fi = first_invalid_copy(paths);
                    if fi == -1 {
                        assert(valid_copy_path(paths[i as int]));
                    }
                    if fi < i {
                        assert(valid_copy_path(paths[fi]));
                    }
                    if fi > i {
                        assert(valid_copy_path(paths[i as int]));
                    }
                }
                return CreateStep::Failed(e);
            },
        }
        i += 1;
    }
    proof {
        lemma_first_invalid_props(paths);
        let fi = first_invalid_copy(paths);
        if fi >= 0 {
            assert(valid_copy_path(paths[fi]));
        }
    }
    if params.copy_paths.len() > 0 {
        let src = join_path(params.repo_path.as_str(), params.copy_paths[0].as_str());
        let m = CreateMachine {
            params,
            worktrees_dir: layout.worktrees_dir,
            worktree_path: layout.worktree_path,
            state: CreateState::CheckingSources { idx: 0 },
        };
        CreateStep::Continue(m, CreateAction::CheckSourceExists(src))
    } else {
        let dir = layout.worktrees_dir.clone();
        let m = CreateMachine {
            params,
            worktrees_dir: layout.worktrees_dir,
            worktree_path: layout.worktree_path,
            state: CreateState::EnsuringDir,
        };
        CreateStep::Continue(m, CreateAction::EnsureWorktreesDir(dir))
    }
}

/// Advances a creation by one observed event.
pub fn create_next(m: CreateMachine, ev: CreateEvent) -> (r: CreateStep)
    requires
        machine_wf(m),
        create_event_fits(m.state, ev),
    ensures
        create_trans(m, ev, r),
        r matches CreateStep::Continue(m2, _) ==> machine_wf(m2),
{
    match m.state {
        CreateState::CheckingSources { idx } => match ev {
            CreateEvent::SourceExists(ex) => {
                let n = m.params.copy_paths.len();
                proof {
                    assert(copy_paths_of(m).len() == m.params.copy_paths@.len());
                    assert(idx < n);
                }
                if !ex {
                    let src = join_path(
                        m.params.repo_path.as_str(),
                        m.params.copy_paths[idx].as_str(),
                    );
                    proof {
                        assert(m.params.copy_paths[idx as int]@ == copy_paths_of(m)[idx as int]);
                    }
                    CreateStep::Failed(LifecycleError::CopyPathError(
                        String::from_str("copyPaths: source does not exist: ").concat(
                            src.as_str(),
                        ),
                    ))
                } else if idx + 1 < n {
                    let src = join_path(
                        m.params.repo_path.as_str(),
                        m.params.copy_paths[idx + 1].as_str(),
                    );
                    proof {
                        assert(m.params.copy_paths[idx + 1]@ == copy_paths_of(m)[idx + 1]);
                    }
                    let m2 = CreateMachine {
                        state: CreateState::CheckingSources { idx: idx + 1 },
                        ..m
                    };
                    CreateStep::Continue(m2, CreateAction::CheckSourceExists(src))
                } else {
                    let dir = m.worktrees_dir.clone();
                    let m2 = CreateMachine { state: CreateState::EnsuringDir, ..m };
                    CreateStep::Continue(m2, CreateAction::EnsureWorktreesDir(dir))
                }
            },
            _ => {
                proof {
                    assert(false);
                }
                dummy_step()
            },
        },
        CreateState::EnsuringDir => match ev {
            CreateEvent::DirEnsured(res) => match res {
                Ok(_) => {
                    if m.params.fetch_before {
                        let m2 = CreateMachine { state: CreateState::Fetching, ..m };
                        CreateStep::Continue(m2, CreateAction::FetchOrigin)
                    } else {
                        let m2 = CreateMachine { state: CreateState::Pruning, ..m };
                        CreateStep::Continue(m2, CreateAction::PruneWorktrees)
                    }
                },
                Err(e) => CreateStep::Failed(LifecycleError::IoError(
                    String::from_str("Failed to create worktrees directory: ").concat(e.as_str()),
                )),
            },
            _ => {
                proof {
                    assert(false);
                }
                dummy_step()
            },
        },
        CreateState::Fetching => match ev {
            CreateEvent::FetchDone(_) => {
                let m2 = CreateMachine { state: CreateState::Pruning, ..m };
                CreateStep::Continue(m2, CreateAction::PruneWorktrees)
            },
            _ => {
                proof {
                    assert(false);
                }
                dummy_step()
            },
        },
        CreateState::Pruning => match ev {
            CreateEvent::PruneDone => {
                let target = m.worktree_path.clone();
                let m2 = CreateMachine { state: CreateState::CheckingTarget, ..m };
                CreateStep::Continue(m2, CreateAction::CheckTargetExists(target))
            },
            _ => {
                proof {
                    assert(false);
                }
                dummy_step()
            },
        },
        CreateState::CheckingTarget => match ev {
            CreateEvent::TargetExists(ex) => {
                if ex {
                    let target = m.worktree_path.clone();
                    let m2 = CreateMachine { state: CreateState::ProbingTargetBranch, ..m };
                    CreateStep::Continue(m2, CreateAction::ProbeTargetBranch(target))
                } else {
                    base_or_resolve(m)
                }
            },
            _ => {
                proof {
                    assert(false);
                }
                dummy_step()
            },
        },
        CreateState::ProbingTargetBranch => match ev {
            CreateEvent::BranchProbe(o) => {
                let matches_branch = match &o {
                    CommandOutcome::Success(out) => {
                        let t = str_trim(out.as_str());
                        str_eq(t, m.params.issue_id.as_str())
                    },
                    _ => false,
                };
                if matches_branch {
                    let path = m.worktree_path.clone();
                    let branch = m.params.issue_id.clone();
                    let m2 = CreateMachine { state: CreateState::ProbingHealth, ..m };
                    CreateStep::Continue(m2, CreateAction::ProbeHealth { path, branch })
                } else {
                    let target = m.worktree_path.clone();
                    let m2 = CreateMachine { state: CreateState::RemovingStale, ..m };
                    CreateStep::Continue(m2, CreateAction::RemoveTargetDir(target))
                }
            },
            _ => {
                proof {
                    assert(false);
                }
                dummy_step()
            },
        },
        CreateState::RemovingStale => match ev {
            CreateEvent::StaleRemoved(res) => match res {
                Ok(_) => base_or_resolve(m),
                Err(e) => CreateStep::Failed(LifecycleError::IoError(
                    String::from_str("Cannot clean stale directory ").concat(
                        m.worktree_path.as_str(),
                    ).concat(": ").concat(e.as_str()),
                )),
            },
            _ => {
                proof {
                    assert(false);
                }
                dummy_step()
            },
        },
        CreateState::ResolvingBase => match ev {
            CreateEvent::BaseResolved(b) => {
                let m2 = CreateMachine { state: CreateState::Adding, ..m };
                CreateStep::Continue(m2, CreateAction::AddWorktree { base: b })
            },
            _ => {
                proof {
                    assert(false);
                }
                dummy_step()
            },
        },
        CreateState::Adding => match ev {
            CreateEvent::AddResult(o) => match o {
                CommandOutcome::SpawnError(e) => CreateStep::Failed(LifecycleError::SpawnFailed(
                    String::from_str("Failed to run git: ").concat(e.as_str()),
                )),
                CommandOutcome::Success(_) => copy_or_finish(m),
                CommandOutcome::Failure(stderr) => {
                    if str_contains(stderr.as_str(), "already exists") {
                        let m2 = CreateMachine { state: CreateState::AddingExisting, ..m };
                        CreateStep::Continue(m2, CreateAction::AddWorktreeExisting)
                    } else {
                        CreateStep::Failed(LifecycleError::GitCommandFailed(
                            String::from_str("git worktree add failed: ").concat(stderr.as_str()),
                        ))
                    }
                },
            },
            _ => {
                proof {
                    assert(false);
                }
                dummy_step()
            },
        },
        CreateState::AddingExisting => match ev {
            CreateEvent::AddExistingResult(o) => match o {
                CommandOutcome::SpawnError(e) => CreateStep::Failed(LifecycleError::SpawnFailed(
                    String::from_str("Failed to run git: ").concat(e.as_str()),
                )),
                CommandOutcome::Success(_) => copy_or_finish(m),
                CommandOutcome::Failure(stderr) => CreateStep::Failed(
                    LifecycleError::GitCommandFailed(
                        String::from_str("git worktree add failed: ").concat(stderr.as_str()),
                    ),
                ),
            },
            _ => {
                proof {
                    assert(false);
                }
                dummy_step()
            },
        },
        CreateState::Copying { idx } => match ev {
            CreateEvent::CopyDone(res) => match res {
                Ok(_) => {
                    let n = m.params.copy_paths.len();
                    proof {
                        assert(copy_paths_of(m).len() == m.params.copy_paths@.len());
                        assert(idx < n);
                    }
                    if idx + 1 < n {
                        copy_at(m, idx + 1)
                    } else {
                        finish_clean(m)
                    }
                },
                Err(e) => CreateStep::Failed(LifecycleError::IoError(e)),
            },
            _ => {
                proof {
                    assert(false);
                }
                dummy_step()
            },
        },
        CreateState::ProbingHealth => match ev {
            CreateEvent::HealthProbed(h) => {
                let issue = m.params.issue_id.clone();
                let issue2 = m.params.issue_id.clone();
                CreateStep::Finished(WorktreeInfo {
                    branch: issue,
                    path: m.worktree_path.clone(),
                    issue_id: Some(issue2),
                    is_dirty: h.is_dirty,
                    ahead: h.ahead,
                    behind: h.behind,
                })
            },
            _ => {
                proof {
                    assert(false);
                }
                dummy_step()
            },
        },
    }
}

/// Never reached: every call stands in an arm that the machine's
/// expected event rules out.
fn dummy_step() -> CreateStep {
    CreateStep::Failed(LifecycleError::IoError(String::new()))
}

/// Picks the supplied non-empty base branch, or asks for resolution.
fn base_or_resolve(m: CreateMachine) -> (r: CreateStep)
    requires
        machine_wf(m),
    ensures
        base_step(m, r),
        r matches CreateStep::Continue(m2, _) ==> machine_wf(m2) && (m2.state is Adding
            || m2.state is ResolvingBase),
{
    let explicit: Option<String> = match &m.params.base_branch {
        Some(b) => {
            if !b.as_str().is_empty() {
                Some(b.clone())
            } else {
                None
            }
        },
        None => None,
    };
    match explicit {
        Some(base) => {
            let m2 = CreateMachine { state: CreateState::Adding, ..m };
            CreateStep::Continue(m2, CreateAction::AddWorktree { base })
        },
        None => {
            let m2 = CreateMachine { state: CreateState::ResolvingBase, ..m };
            CreateStep::Continue(m2, CreateAction::ResolveBase)
        },
    }
}

/// Requests the copy of validated path `idx`.
fn copy_at(m: CreateMachine, idx: usize) -> (r: CreateStep)
    requires
        machine_wf(m),
        idx < m.params.copy_paths@.len(),
    ensures
        copy_step(m, idx as int, r),
        r matches CreateStep::Continue(m2, _) ==> machine_wf(m2),
{
    let src = join_path(m.params.repo_path.as_str(), m.params.copy_paths[idx].as_str());
    let dst = join_path(m.worktree_path.as_str(), m.params.copy_paths[idx].as_str());
    proof {
        assert(m.params.copy_paths[idx as int]@ == copy_paths_of(m)[idx as int]);
    }
    let m2 = CreateMachine { state: CreateState::Copying { idx }, ..m };
    CreateStep::Continue(m2, CreateAction::CopyPath { src, dst })
}

/// Copies the first validated path, or finishes clean with nothing
/// to copy.
fn copy_or_finish(m: CreateMachine) -> (r: CreateStep)
    requires
        machine_wf(m),
    ensures
        copy_or_finish_step(m, r),
        r matches CreateStep::Continue(m2, _) ==> machine_wf(m2),
{
    if m.params.copy_paths.len() > 0 {
        copy_at(m, 0)
    } else {
        finish_clean(m)
    }
}

/// The record of a worktree this creation just made: clean by
/// construction.
fn finish_clean(m: CreateMachine) -> (r: CreateStep)
    ensures
        finished_record(m, clean_health(), r),
{
    let issue = m.params.issue_id.clone();
    let issue2 = m.params.issue_id.clone();
    CreateStep::Finished(WorktreeInfo {
        branch: issue,
        path: m.worktree_path.clone(),
        issue_id: Some(issue2),
        is_dirty: false,
        ahead: 0,
        behind: 0,
    })
}

/// Law (idempotent create): when the target directory exists and is
/// checked out to the requested branch, the creation finishes by
/// probing health only. The target-exists step requests the branch
/// probe, the matching branch probe requests the health probe, and
/// the health event finishes with the existing path and branch; no
/// worktree-add is requested anywhere on this trace.
pub proof fn lemma_create_idempotent(
    m: CreateMachine,
    probe: CommandOutcome,
    h: WorktreeHealth,
    r1: CreateStep,
    r2: CreateStep,
    r3: CreateStep,
)
    requires
        m.state is CheckingTarget,
        create_trans(m, CreateEvent::TargetExists(true), r1),
        r1 matches CreateStep::Continue(m1, _) && create_trans(
            m1,
            CreateEvent::BranchProbe(probe),
            r2,
        ),
        probe matches CommandOutcome::Success(out) && spec_trim(out@) == m.params.issue_id@,
        r2 matches CreateStep::Continue(m2, _) && create_trans(
            m2,
            CreateEvent::HealthProbed(h),
            r3,
        ),
    ensures
        r1 matches CreateStep::Continue(n1, a1) && n1.state is ProbingTargetBranch
            && a1 is ProbeTargetBranch,
        r2 matches CreateStep::Continue(n2, a2) && n2.state is ProbingHealth && a2 is ProbeHealth,
        r3 matches CreateStep::Finished(w) && w.path@ == m.worktree_path@ && w.branch@
            == m.params.issue_id@ && w.is_dirty == h.is_dirty && w.ahead == h.ahead && w.behind
            == h.behind,
{
}

/// Law (stale self-heal): when the target directory exists but its
/// probe does not report the requested branch, the creation requests
/// its recursive removal, and a successful removal continues toward
/// recreating the worktree rather than failing.
pub proof fn lemma_create_heals_stale(
    m: CreateMachine,
    probe: CommandOutcome,
    r1: CreateStep,
    r2: CreateStep,
)
    requires
        m.state is ProbingTargetBranch,
        !(probe matches CommandOutcome::Success(out) && spec_trim(out@) == m.params.issue_id@),
        create_trans(m, CreateEvent::BranchProbe(probe), r1),
        r1 matches CreateStep::Continue(m1, _) && create_trans(
            m1,
            CreateEvent::StaleRemoved(Ok(())),
            r2,
        ),
    ensures
        r1 matches CreateStep::Continue(n1, a1) && n1.state is RemovingStale && (a1
            matches CreateAction::RemoveTargetDir(p) && p@ == m.worktree_path@),
        r2 matches CreateStep::Continue(n2, _) && (n2.state is ResolvingBase
            || n2.state is Adding),
{
}

/// Law (path traversal rejection): a copy-path set holding any
/// unacceptable entry fails the creation at its start. The start
/// returns `Failed` directly, so no action is ever requested and no
/// filesystem mutation can have occurred.
pub proof fn lemma_create_rejects_invalid_paths(params: CreateParams, r: CreateStep, i: int)
    requires
        0 <= i < params.copy_paths.deep_view().len(),
        !valid_copy_path(params.copy_paths.deep_view()[i]),
        create_begin_post(params, r),
    ensures
        r is Failed,
{
    lemma_first_invalid_props(params.copy_paths.deep_view());
}

/// Where a removal stands.
#[derive(Debug, Clone, Copy, PartialEq, Eq, Structural)]
pub enum RemoveState {
    /// Checking that the worktree directory exists on disk.
    CheckingPath,
    /// `git worktree remove --force` in flight.
    RemovingWorktree,
    /// `git branch -D` in flight; its outcome is absorbed.
    DeletingBranch,
}

/// A removal in flight.
#[derive(Debug)]
pub struct RemoveMachine {
    pub repo_path: String,
    pub worktree_path: String,
    pub branch: Option<String>,
    pub delete_branch: bool,
    pub state: RemoveState,
}

/// What the driver must do next for a removal.
#[derive(Debug, Clone)]
pub enum RemoveAction {
    /// Check whether the carried path exists.
    CheckPathExists(String),
    /// `git -C <repo> worktree remove --force <path>`.
    GitWorktreeRemove { repo: String, path: String },
    /// `git -C <repo> branch -D <branch>`; failure is logged only.
    DeleteBranch { repo: String, branch: String },
}

/// What the driver observed for the last removal action.
#[derive(Debug)]
pub enum RemoveEvent {
    PathExists(bool),
    Removed(CommandOutcome),
    BranchDeleted(CommandOutcome),
}

/// One removal step.
#[derive(Debug)]
pub enum RemoveStep {
    Continue(RemoveMachine, RemoveAction),
    Finished,
    Failed(LifecycleError),
}

/// The event each removal state expects.
pub open spec fn remove_event_fits(st: RemoveState, ev: RemoveEvent) -> bool {
    match st {
        RemoveState::CheckingPath => ev is PathExists,
        RemoveState::RemovingWorktree => ev is Removed,
        RemoveState::DeletingBranch => ev is BranchDeleted,
    }
}

/// The removal machine with only its state advanced.
pub open spec fn remove_change_state(m: RemoveMachine, st: RemoveState) -> RemoveMachine {
    RemoveMachine { state: st, ..m }
}

/// The removal's transition relation: a missing target is
/// `NotFound`; the forced git removal is the primary operation and
/// its failure is fatal; the optional branch deletion afterwards is
/// auxiliary and never fails the operation.
pub open spec fn remove_trans(m: RemoveMachine, ev: RemoveEvent, r: RemoveStep) -> bool {
    match m.state {
        RemoveState::CheckingPath => match ev {
            RemoveEvent::PathExists(ex) => {
                if !ex {
                    r matches RemoveStep::Failed(LifecycleError::NotFound(msg)) && msg@
                        == "No worktree found at: "@ + m.worktree_path@
                } else {
                    r matches RemoveStep::Continue(m2, a) && m2 == remove_change_state(
                        m,
                        RemoveState::RemovingWorktree,
                    ) && (a matches RemoveAction::GitWorktreeRemove { repo, path } && repo@
                        == m.repo_path@ && path@ == m.worktree_path@)
                }
            },
            _ => false,
        },
        RemoveState::RemovingWorktree => match ev {
            RemoveEvent::Removed(o) => match o {
                CommandOutcome::SpawnError(e) => r matches RemoveStep::Failed(
                    LifecycleError::SpawnFailed(msg),
                ) && msg@ == "Failed to run git: "@ + e@,
                CommandOutcome::Failure(stderr) => r matches RemoveStep::Failed(
                    LifecycleError::GitCommandFailed(msg),
                ) && msg@ == "git worktree remove failed: "@ + stderr@,
                CommandOutcome::Success(_) => match m.branch {
                    Some(b) => {
                        if m.delete_branch {
                            r matches RemoveStep::Continue(m2, a) && m2 == remove_change_state(
                                m,
                                RemoveState::DeletingBranch,
                            ) && (a matches RemoveAction::DeleteBranch { repo, branch } && repo@
                                == m.repo_path@ && branch@ == b@)
                        } else {
                            r is Finished
                        }
                    },
                    None => r is Finished,
                },
            },
            _ => false,
        },
        RemoveState::DeletingBranch => match ev {
            RemoveEvent::BranchDeleted(_) => r is Finished,
            _ => false,
        },
    }
}

/// Starts a removal: the target's existence is checked first.
pub fn remove_begin(
    repo_path: String,
    worktree_path: String,
    branch: Option<String>,
    delete_branch: bool,
) -> (r: (RemoveMachine, RemoveAction))
    ensures
        r.0.repo_path@ == repo_path@,
        r.0.worktree_path@ == worktree_path@,
        r.0.branch == branch,
        r.0.delete_branch == delete_branch,
        r.0.state is CheckingPath,
        r.1 matches RemoveAction::CheckPathExists(p) && p@ == worktree_path@,
{
    let probe = worktree_path.clone();
    (
        RemoveMachine {
            repo_path,
            worktree_path,
            branch,
            delete_branch,
            state: RemoveState::CheckingPath,
        },
        RemoveAction::CheckPathExists(probe),
    )
}

/// Advances a removal by one observed event.
pub fn remove_next(m: RemoveMachine, ev: RemoveEvent) -> (r: RemoveStep)
    requires
        remove_event_fits(m.state, ev),
    ensures
        remove_trans(m, ev, r),
{
    match m.state {
        RemoveState::CheckingPath => match ev {
            RemoveEvent::PathExists(ex) => {
                if !ex {
                    RemoveStep::Failed(LifecycleError::NotFound(
                        String::from_str("No worktree found at: ").concat(
                            m.worktree_path.as_str(),
                        ),
                    ))
                } else {
                    let repo = m.repo_path.clone();
                    let path = m.worktree_path.clone();
                    let m2 = RemoveMachine { state: RemoveState::RemovingWorktree, ..m };
                    RemoveStep::Continue(m2, RemoveAction::GitWorktreeRemove { repo, path })
                }
            },
            _ => {
                proof {
                    assert(false);
                }
                RemoveStep::Finished
            },
        },
        RemoveState::RemovingWorktree => match ev {
            RemoveEvent::Removed(o) => match o {
                CommandOutcome::SpawnError(e) => RemoveStep::Failed(LifecycleError::SpawnFailed(
                    String::from_str("Failed to run git: ").concat(e.as_str()),
                )),
                CommandOutcome::Failure(stderr) => RemoveStep::Failed(
                    LifecycleError::GitCommandFailed(
                        String::from_str("git worktree remove failed: ").concat(stderr.as_str()),
                    ),
                ),
                CommandOutcome::Success(_) => {
                    let deletable: Option<String> = if m.delete_branch {
                        match &m.branch {
                            Some(b) => Some(b.clone()),
                            None => None,
                        }
                    } else {
                        None
                    };
                    match deletable {
                        Some(branch) => {
                            let repo = m.repo_path.clone();
                            let m2 = RemoveMachine { state: RemoveState::DeletingBranch, ..m };
                            RemoveStep::Continue(
                                m2,
                                RemoveAction::DeleteBranch { repo, branch },
                            )
                        },
                        None => RemoveStep::Finished,
                    }
                },
            },
            _ => {
                proof {
                    assert(false);
                }
                RemoveStep::Finished
            },
        },
        RemoveState::DeletingBranch => match ev {
            RemoveEvent::BranchDeleted(_) => RemoveStep::Finished,
            _ => {
                proof {
                    assert(false);
                }
                RemoveStep::Finished
            },
        },
    }
}

/// Law: once the worktree itself is removed, the outcome of the
/// auxiliary branch deletion never fails the operation.
pub proof fn lemma_branch_delete_absorbed(m: RemoveMachine, o: CommandOutcome, r: RemoveStep)
    requires
        m.state is DeletingBranch,
        remove_trans(m, RemoveEvent::BranchDeleted(o), r),
    ensures
        r is Finished,
{
}

/// Interprets the one git call of a fetch-and-prune: success is
/// success, a non-zero exit or a spawn failure is surfaced verbatim.
pub fn fetch_prune_outcome(o: &CommandOutcome) -> (r: Result<(), LifecycleError>)
    ensures
        r is Ok <==> o is Success,
        o matches CommandOutcome::Failure(stderr) ==> r matches Err(
            LifecycleError::GitCommandFailed(m),
        ) && m@ == "git fetch --prune failed: "@ + stderr@,
        o matches CommandOutcome::SpawnError(e) ==> r matches Err(LifecycleError::SpawnFailed(m))
            && m@ == "Failed to run git fetch --prune: "@ + e@,
{
    match o {
        CommandOutcome::Success(_) => Ok(()),
        CommandOutcome::Failure(stderr) => Err(LifecycleError::GitCommandFailed(
            String::from_str("git fetch --prune failed: ").concat(stderr.as_str()),
        )),
        CommandOutcome::SpawnError(e) => Err(LifecycleError::SpawnFailed(
            String::from_str("Failed to run git fetch --prune: ").concat(e.as_str()),
        )),
    }
}

/// What one source entry is, judged by a link-aware stat that never
/// follows symlinks.
#[derive(Debug, Clone, Copy, PartialEq, Eq, Structural)]
pub enum FsEntryKind {
    Symlink,
    RegularFile,
    Directory,
    Other,
}

/// What the copier must do with one source entry.
#[derive(Debug, Clone, Copy, PartialEq, Eq, Structural)]
pub enum CopyDecision {
    /// Recreate a symlink with the same unresolved target.
    RecreateSymlink,
    /// Copy the file's bytes, creating parent directories first.
    CopyFileBytes,
    /// Create the destination directory and recurse into entries.
    RecurseEntries,
    /// Devices, sockets and the like are silently skipped.
    Skip,
}

/// Classifies one source entry for the recursive copier. Symlinks
/// are recreated, never followed, so cyclic links cannot loop the
/// copy and link semantics are preserved.
pub fn copy_decision(kind: FsEntryKind) -> (d: CopyDecision)
    ensures
        kind is Symlink ==> d is RecreateSymlink,
        kind is RegularFile ==> d is CopyFileBytes,
        kind is Directory ==> d is RecurseEntries,
        kind is Other ==> d is Skip,
{
    match kind {
        FsEntryKind::Symlink => CopyDecision::RecreateSymlink,
        FsEntryKind::RegularFile => CopyDecision::CopyFileBytes,
        FsEntryKind::Directory => CopyDecision::RecurseEntries,
        FsEntryKind::Other => CopyDecision::Skip,
    }
}

/// The issue id a branch name yields: none for the empty branch of a
/// detached HEAD, the branch name itself otherwise.
pub open spec fn issue_id_matches(branch: Seq<char>, id: Option<String>) -> bool {
    if branch.len() == 0 {
        id is None
    } else {
        id matches Some(s) && s@ == branch
    }
}

/// Record `w` reports parsed entry `rw` with health `h`.
pub open spec fn record_matches(w: WorktreeInfo, rw: RawWorktree, h: WorktreeHealth) -> bool {
    &&& w.path@ == rw.path@
    &&& w.branch@ == rw.branch@
    &&& issue_id_matches(rw.branch@, w.issue_id)
    &&& w.is_dirty == h.is_dirty
    &&& w.ahead == h.ahead
    &&& w.behind == h.behind
}

/// Assembles the listing's records in git's order: entry 0 is the
/// main worktree and is reported clean without probing; every other
/// entry carries its probed health.
pub fn assemble_worktree_records(raw: Vec<RawWorktree>, health: Vec<WorktreeHealth>) -> (r: Vec<
    WorktreeInfo,
>)
    requires
        raw@.len() == 0 ==> health@.len() == 0,
        raw@.len() > 0 ==> health@.len() == raw@.len() - 1,
    ensures
        r@.len() == raw@.len(),
        forall|i: int|
            0 <= i < r@.len() ==> record_matches(
                #[trigger] r@[i],
                raw@[i],
                if i == 0 {
                    clean_health()
                } else {
                    health@[i - 1]
                },
            ),
{
    let mut r: Vec<WorktreeInfo> = Vec::new();
    let n = raw.len();
    let mut i: usize = 0;
    while i < n
        invariant
            n == raw@.len(),
            n == 0 ==> health@.len() == 0,
            n > 0 ==> health@.len() == n - 1,
            i <= n,
            r@.len() == i,
            forall|j: int|
                0 <= j < i ==> record_matches(
                    #[trigger] r@[j],
                    raw@[j],
                    if j == 0 {
                        clean_health()
                    } else {
                        health@[j - 1]
                    },
                ),
        decreases n - i,
    {
        let rw = &raw[i];
        let h = if i == 0 {
            WorktreeHealth { is_dirty: false, ahead: 0, behind: 0 }
        } else {
            health[i - 1]
        };
        let issue_id = if rw.branch.as_str().is_empty() {
            None
        } else {
            Some(rw.branch.clone())
        };
        r.push(WorktreeInfo {
            branch: rw.branch.clone(),
            path: rw.path.clone(),
            issue_id,
            is_dirty: h.is_dirty,
            ahead: h.ahead,
            behind: h.behind,
        });
        i += 1;
    }
    r
}

} // verus!
