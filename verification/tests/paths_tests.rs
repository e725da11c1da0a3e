use worktrees::errors::LifecycleError;
use worktrees::paths::{join_path, target_layout, validate_relative_path};

fn invalid_message(r: Result<(), LifecycleError>) -> String {
    match r {
        Err(LifecycleError::InvalidPath(m)) => m,
        other => panic!("expected InvalidPath, got {:?}", other),
    }
}

#[test]
fn rejects_empty_path() {
    let m = invalid_message(validate_relative_path(""));
    assert_eq!(m, "copyPaths: empty path is not allowed");
}

#[test]
fn rejects_absolute_path() {
    let m = invalid_message(validate_relative_path("/etc/passwd"));
    assert_eq!(m, "copyPaths: absolute path not allowed: /etc/passwd");
}

#[test]
fn rejects_parent_traversal() {
    let m = invalid_message(validate_relative_path("../secret"));
    assert_eq!(m, "copyPaths: parent traversal (..) not allowed: ../secret");
}

#[test]
fn rejects_inner_parent_traversal() {
    assert!(validate_relative_path("a/../b").is_err());
    assert!(validate_relative_path("a/b/..").is_err());
}

#[test]
fn accepts_ordinary_relative_paths() {
    assert!(validate_relative_path(".env").is_ok());
    assert!(validate_relative_path("config/dev.json").is_ok());
    assert!(validate_relative_path("./x").is_ok());
    assert!(validate_relative_path("a/..b").is_ok());
    assert!(validate_relative_path("..a").is_ok());
}

#[test]
fn join_inserts_one_separator() {
    assert_eq!(join_path("/a", "b"), "/a/b");
    assert_eq!(join_path("/a/", "b"), "/a/b");
    assert_eq!(join_path("", "b"), "b");
    assert_eq!(join_path("/a", "/abs"), "/abs");
}

#[test]
fn layout_is_sibling_directory() {
    let t = target_layout("/home/u/repo", "FOO-1").unwrap();
    assert_eq!(t.worktrees_dir, "/home/u/repo-worktrees");
    assert_eq!(t.worktree_path, "/home/u/repo-worktrees/FOO-1");
}

#[test]
fn layout_ignores_trailing_separators() {
    let t = target_layout("/home/u/repo//", "X").unwrap();
    assert_eq!(t.worktrees_dir, "/home/u/repo-worktrees");
    assert_eq!(t.worktree_path, "/home/u/repo-worktrees/X");
}

#[test]
fn layout_of_root_level_repo() {
    let t = target_layout("/repo", "X").unwrap();
    assert_eq!(t.worktrees_dir, "/repo-worktrees");
    assert_eq!(t.worktree_path, "/repo-worktrees/X");
}

#[test]
fn layout_of_bare_name() {
    let t = target_layout("repo", "X").unwrap();
    assert_eq!(t.worktrees_dir, "repo-worktrees");
    assert_eq!(t.worktree_path, "repo-worktrees/X");
}

#[test]
fn layout_rejects_unusable_repo_paths() {
    for bad in ["", "/", "///", "/a/..", "/a/."] {
        match target_layout(bad, "X") {
            Err(LifecycleError::InvalidPath(m)) => assert_eq!(m, "Invalid repo path"),
            other => panic!("expected InvalidPath for {:?}, got {:?}", bad, other),
        }
    }
}
