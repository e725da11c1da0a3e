use worktrees::errors::LifecycleError;
use worktrees::lifecycle::{
    create_begin, create_next, CreateAction, CreateEvent, CreateMachine, CreateParams, CreateStep,
};
use worktrees::outcome::CommandOutcome;

fn params(repo: &str, issue: &str, copy_paths: &[&str]) -> CreateParams {
    CreateParams {
        repo_path: repo.to_string(),
        issue_id: issue.to_string(),
        copy_paths: copy_paths.iter().map(|s| s.to_string()).collect(),
        base_branch: None,
        fetch_before: true,
    }
}

fn advance(step: CreateStep, ev: CreateEvent) -> CreateStep {
    match step {
        CreateStep::Continue(m, _) => create_next(m, ev),
        other => panic!("machine already terminal: {:?}", other),
    }
}

fn action_of(step: &CreateStep) -> &CreateAction {
    match step {
        CreateStep::Continue(_, a) => a,
        other => panic!("expected a next action, got {:?}", other),
    }
}

#[test]
fn create_fresh_worktree_happy_path() {
    let step = create_begin(params("/w/repo", "ISSUE-1", &[]));
    match action_of(&step) {
        CreateAction::EnsureWorktreesDir(d) => assert_eq!(d, "/w/repo-worktrees"),
        other => panic!("{:?}", other),
    }
    let step = advance(step, CreateEvent::DirEnsured(Ok(())));
    assert!(matches!(action_of(&step), CreateAction::FetchOrigin));
    // a failed fetch is advisory and does not stop the creation
    let step = advance(
        step,
        CreateEvent::FetchDone(CommandOutcome::Failure("network down".to_string())),
    );
    assert!(matches!(action_of(&step), CreateAction::PruneWorktrees));
    let step = advance(step, CreateEvent::PruneDone);
    match action_of(&step) {
        CreateAction::CheckTargetExists(p) => assert_eq!(p, "/w/repo-worktrees/ISSUE-1"),
        other => panic!("{:?}", other),
    }
    let step = advance(step, CreateEvent::TargetExists(false));
    assert!(matches!(action_of(&step), CreateAction::ResolveBase));
    let step = advance(step, CreateEvent::BaseResolved("origin/main".to_string()));
    match action_of(&step) {
        CreateAction::AddWorktree { base } => assert_eq!(base, "origin/main"),
        other => panic!("{:?}", other),
    }
    let step = advance(step, CreateEvent::AddResult(CommandOutcome::Success("".to_string())));
    match step {
        CreateStep::Finished(w) => {
            assert_eq!(w.path, "/w/repo-worktrees/ISSUE-1");
            assert_eq!(w.branch, "ISSUE-1");
            assert_eq!(w.issue_id.as_deref(), Some("ISSUE-1"));
            assert!(!w.is_dirty);
            assert_eq!((w.ahead, w.behind), (0, 0));
        },
        other => panic!("expected a finished record, got {:?}", other),
    }
}

fn reach_checking_target(p: CreateParams) -> CreateStep {
    let step = create_begin(p);
    let step = advance(step, CreateEvent::DirEnsured(Ok(())));
    let step = advance(step, CreateEvent::FetchDone(CommandOutcome::Success("".to_string())));
    advance(step, CreateEvent::PruneDone)
}

#[test]
fn create_is_idempotent_on_matching_branch() {
    let step = reach_checking_target(params("/w/repo", "ISSUE-1", &[]));
    let step = advance(step, CreateEvent::TargetExists(true));
    match action_of(&step) {
        CreateAction::ProbeTargetBranch(p) => assert_eq!(p, "/w/repo-worktrees/ISSUE-1"),
        other => panic!("expected a branch probe, not {:?}", other),
    }
    let step = advance(
        step,
        CreateEvent::BranchProbe(CommandOutcome::Success("ISSUE-1\n".to_string())),
    );
    match action_of(&step) {
        CreateAction::ProbeHealth { path, branch } => {
            assert_eq!(path, "/w/repo-worktrees/ISSUE-1");
            assert_eq!(branch, "ISSUE-1");
        },
        other => panic!("expected a health probe, not {:?}", other),
    }
    let step = advance(
        step,
        CreateEvent::HealthProbed(worktrees::porcelain::WorktreeHealth {
            is_dirty: true,
            ahead: 2,
            behind: 3,
        }),
    );
    match step {
        CreateStep::Finished(w) => {
            assert_eq!(w.path, "/w/repo-worktrees/ISSUE-1");
            assert_eq!(w.branch, "ISSUE-1");
            assert!(w.is_dirty);
            assert_eq!((w.ahead, w.behind), (2, 3));
        },
        other => panic!("expected the existing worktree back, got {:?}", other),
    }
}

#[test]
fn create_heals_stale_directory() {
    let step = reach_checking_target(params("/w/repo", "ISSUE-1", &[]));
    let step = advance(step, CreateEvent::TargetExists(true));
    let step = advance(
        step,
        CreateEvent::BranchProbe(CommandOutcome::Success("unrelated-branch\n".to_string())),
    );
    match action_of(&step) {
        CreateAction::RemoveTargetDir(p) => assert_eq!(p, "/w/repo-worktrees/ISSUE-1"),
        other => panic!("expected stale cleanup, not {:?}", other),
    }
    let step = advance(step, CreateEvent::StaleRemoved(Ok(())));
    assert!(matches!(action_of(&step), CreateAction::ResolveBase));
}

#[test]
fn create_treats_unreadable_target_as_stale() {
    let step = reach_checking_target(params("/w/repo", "ISSUE-1", &[]));
    let step = advance(step, CreateEvent::TargetExists(true));
    let step = advance(
        step,
        CreateEvent::BranchProbe(CommandOutcome::Failure("not a git repo".to_string())),
    );
    assert!(matches!(action_of(&step), CreateAction::RemoveTargetDir(_)));
}

#[test]
fn create_stale_cleanup_failure_is_fatal() {
    let step = reach_checking_target(params("/w/repo", "ISSUE-1", &[]));
    let step = advance(step, CreateEvent::TargetExists(true));
    let step = advance(
        step,
        CreateEvent::BranchProbe(CommandOutcome::Success("other\n".to_string())),
    );
    let step = advance(step, CreateEvent::StaleRemoved(Err("busy".to_string())));
    match step {
        CreateStep::Failed(LifecycleError::IoError(m)) => {
            assert_eq!(m, "Cannot clean stale directory /w/repo-worktrees/ISSUE-1: busy");
        },
        other => panic!("{:?}", other),
    }
}

#[test]
fn create_rejects_traversal_before_any_action() {
    for bad in ["../secret", "/etc/passwd", ""] {
        match create_begin(params("/w/repo", "X", &[bad])) {
            CreateStep::Failed(LifecycleError::InvalidPath(_)) => {},
            other => panic!("expected fail-fast for {:?}, got {:?}", bad, other),
        }
    }
}

#[test]
fn create_traversal_messages_name_the_cause() {
    match create_begin(params("/w/repo", "X", &["../secret"])) {
        CreateStep::Failed(e) => {
            assert_eq!(e.message(), "copyPaths: parent traversal (..) not allowed: ../secret");
        },
        other => panic!("{:?}", other),
    }
    match create_begin(params("/w/repo", "X", &["/etc/passwd"])) {
        CreateStep::Failed(e) => {
            assert_eq!(e.message(), "copyPaths: absolute path not allowed: /etc/passwd");
        },
        other => panic!("{:?}", other),
    }
    match create_begin(params("/w/repo", "X", &[""])) {
        CreateStep::Failed(e) => {
            assert_eq!(e.message(), "copyPaths: empty path is not allowed");
        },
        other => panic!("{:?}", other),
    }
}

#[test]
fn create_checks_each_source_before_mutating() {
    let step = create_begin(params("/w/repo", "X", &[".env", "config"]));
    match action_of(&step) {
        CreateAction::CheckSourceExists(p) => assert_eq!(p, "/w/repo/.env"),
        other => panic!("{:?}", other),
    }
    let step = advance(step, CreateEvent::SourceExists(true));
    match action_of(&step) {
        CreateAction::CheckSourceExists(p) => assert_eq!(p, "/w/repo/config"),
        other => panic!("{:?}", other),
    }
    let step = advance(step, CreateEvent::SourceExists(true));
    assert!(matches!(action_of(&step), CreateAction::EnsureWorktreesDir(_)));
}

#[test]
fn create_missing_source_fails_before_mutation() {
    let step = create_begin(params("/w/repo", "X", &[".env"]));
    let step = advance(step, CreateEvent::SourceExists(false));
    match step {
        CreateStep::Failed(LifecycleError::CopyPathError(m)) => {
            assert_eq!(m, "copyPaths: source does not exist: /w/repo/.env");
        },
        other => panic!("{:?}", other),
    }
}

fn reach_adding(p: CreateParams) -> CreateStep {
    let mut step = create_begin(p);
    loop {
        let next_ev = match &step {
            CreateStep::Continue(_, a) => match a {
                CreateAction::CheckSourceExists(_) => CreateEvent::SourceExists(true),
                CreateAction::EnsureWorktreesDir(_) => CreateEvent::DirEnsured(Ok(())),
                CreateAction::FetchOrigin => {
                    CreateEvent::FetchDone(CommandOutcome::Success("".to_string()))
                },
                CreateAction::PruneWorktrees => CreateEvent::PruneDone,
                CreateAction::CheckTargetExists(_) => CreateEvent::TargetExists(false),
                CreateAction::ResolveBase => CreateEvent::BaseResolved("origin/main".to_string()),
                CreateAction::AddWorktree { .. } => return step,
                other => panic!("unexpected action before add: {:?}", other),
            },
            other => panic!("terminal before add: {:?}", other),
        };
        step = advance(step, next_ev);
    }
}

#[test]
fn create_copies_each_validated_path_then_finishes() {
    let step = reach_adding(params("/w/repo", "I", &[".env", "config"]));
    let step = advance(step, CreateEvent::AddResult(CommandOutcome::Success("".to_string())));
    match action_of(&step) {
        CreateAction::CopyPath { src, dst } => {
            assert_eq!(src, "/w/repo/.env");
            assert_eq!(dst, "/w/repo-worktrees/I/.env");
        },
        other => panic!("{:?}", other),
    }
    let step = advance(step, CreateEvent::CopyDone(Ok(())));
    match action_of(&step) {
        CreateAction::CopyPath { src, dst } => {
            assert_eq!(src, "/w/repo/config");
            assert_eq!(dst, "/w/repo-worktrees/I/config");
        },
        other => panic!("{:?}", other),
    }
    let step = advance(step, CreateEvent::CopyDone(Ok(())));
    match step {
        CreateStep::Finished(w) => assert_eq!(w.branch, "I"),
        other => panic!("{:?}", other),
    }
}

#[test]
fn create_copy_failure_reports_but_leaves_worktree() {
    // The worktree and branch already exist at this point; a copy
    // failure surfaces the copier's own message and nothing is
    // rolled back.
    let step = reach_adding(params("/w/repo", "I", &[".env"]));
    let step = advance(step, CreateEvent::AddResult(CommandOutcome::Success("".to_string())));
    let step = advance(
        step,
        CreateEvent::CopyDone(Err("Failed to copy /w/repo/.env to /w/repo-worktrees/I/.env: denied".to_string())),
    );
    match step {
        CreateStep::Failed(LifecycleError::IoError(m)) => {
            assert_eq!(m, "Failed to copy /w/repo/.env to /w/repo-worktrees/I/.env: denied");
        },
        other => panic!("{:?}", other),
    }
}

#[test]
fn create_retries_attach_when_branch_exists() {
    let step = reach_adding(params("/w/repo", "I", &[]));
    let step = advance(
        step,
        CreateEvent::AddResult(CommandOutcome::Failure(
            "fatal: a branch named 'I' already exists".to_string(),
        )),
    );
    assert!(matches!(action_of(&step), CreateAction::AddWorktreeExisting));
    let step = advance(
        step,
        CreateEvent::AddExistingResult(CommandOutcome::Success("".to_string())),
    );
    assert!(matches!(step, CreateStep::Finished(_)));
}

#[test]
fn create_other_add_failures_are_fatal() {
    let step = reach_adding(params("/w/repo", "I", &[]));
    let step = advance(
        step,
        CreateEvent::AddResult(CommandOutcome::Failure("fatal: bad ref".to_string())),
    );
    match step {
        CreateStep::Failed(LifecycleError::GitCommandFailed(m)) => {
            assert_eq!(m, "git worktree add failed: fatal: bad ref");
        },
        other => panic!("{:?}", other),
    }
}

#[test]
fn create_attach_failure_is_fatal() {
    let step = reach_adding(params("/w/repo", "I", &[]));
    let step = advance(
        step,
        CreateEvent::AddResult(CommandOutcome::Failure("already exists".to_string())),
    );
    let step = advance(
        step,
        CreateEvent::AddExistingResult(CommandOutcome::Failure("locked".to_string())),
    );
    match step {
        CreateStep::Failed(LifecycleError::GitCommandFailed(m)) => {
            assert_eq!(m, "git worktree add failed: locked");
        },
        other => panic!("{:?}", other),
    }
}

#[test]
fn create_spawn_failure_is_fatal() {
    let step = reach_adding(params("/w/repo", "I", &[]));
    let step = advance(
        step,
        CreateEvent::AddResult(CommandOutcome::SpawnError("git not found".to_string())),
    );
    match step {
        CreateStep::Failed(LifecycleError::SpawnFailed(m)) => {
            assert_eq!(m, "Failed to run git: git not found");
        },
        other => panic!("{:?}", other),
    }
}

#[test]
fn create_uses_explicit_base_branch() {
    let mut p = params("/w/repo", "I", &[]);
    p.base_branch = Some("develop".to_string());
    let step = reach_checking_target(p);
    let step = advance(step, CreateEvent::TargetExists(false));
    match action_of(&step) {
        CreateAction::AddWorktree { base } => assert_eq!(base, "develop"),
        other => panic!("expected a direct add, got {:?}", other),
    }
}

#[test]
fn create_resolves_when_base_branch_empty() {
    let mut p = params("/w/repo", "I", &[]);
    p.base_branch = Some("".to_string());
    let step = reach_checking_target(p);
    let step = advance(step, CreateEvent::TargetExists(false));
    assert!(matches!(action_of(&step), CreateAction::ResolveBase));
}

#[test]
fn create_skips_fetch_when_disabled() {
    let mut p = params("/w/repo", "I", &[]);
    p.fetch_before = false;
    let step = create_begin(p);
    let step = advance(step, CreateEvent::DirEnsured(Ok(())));
    assert!(matches!(action_of(&step), CreateAction::PruneWorktrees));
}

#[test]
fn create_dir_failure_is_fatal() {
    let step = create_begin(params("/w/repo", "I", &[]));
    let step = advance(step, CreateEvent::DirEnsured(Err("read-only fs".to_string())));
    match step {
        CreateStep::Failed(LifecycleError::IoError(m)) => {
            assert_eq!(m, "Failed to create worktrees directory: read-only fs");
        },
        other => panic!("{:?}", other),
    }
}

#[test]
fn create_rejects_unusable_repo_path() {
    match create_begin(params("/", "I", &[])) {
        CreateStep::Failed(e) => assert_eq!(e.message(), "Invalid repo path"),
        other => panic!("{:?}", other),
    }
}

#[test]
fn machine_exposes_computed_layout() {
    let step = create_begin(params("/w/repo", "I", &[]));
    match &step {
        CreateStep::Continue(m, _) => {
            let m: &CreateMachine = m;
            assert_eq!(m.worktrees_dir, "/w/repo-worktrees");
            assert_eq!(m.worktree_path, "/w/repo-worktrees/I");
        },
        other => panic!("{:?}", other),
    }
}
