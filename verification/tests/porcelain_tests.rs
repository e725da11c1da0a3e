use worktrees::outcome::CommandOutcome;
use worktrees::porcelain::{
    dirty_from_status, health_from_probes, parse_ahead_behind, parse_worktree_porcelain,
};

#[test]
fn porcelain_two_records_without_trailing_newline() {
    let input = "worktree /repo\nHEAD abc123\nworktree /repo-worktrees/FOO-1\nHEAD def456\nbranch refs/heads/FOO-1";
    let records = parse_worktree_porcelain(input);
    assert_eq!(records.len(), 2);
    assert_eq!(records[0].path, "/repo");
    assert_eq!(records[0].branch, "");
    assert_eq!(records[1].path, "/repo-worktrees/FOO-1");
    assert_eq!(records[1].branch, "FOO-1");
}

#[test]
fn porcelain_two_records_with_trailing_newline() {
    let input = "worktree /repo\nHEAD abc123\nworktree /repo-worktrees/FOO-1\nHEAD def456\nbranch refs/heads/FOO-1\n";
    let records = parse_worktree_porcelain(input);
    assert_eq!(records.len(), 2);
    assert_eq!(records[0].path, "/repo");
    assert_eq!(records[0].branch, "");
    assert_eq!(records[1].path, "/repo-worktrees/FOO-1");
    assert_eq!(records[1].branch, "FOO-1");
}

#[test]
fn porcelain_tolerates_stray_blank_lines() {
    let input = "worktree /repo\n\n\nHEAD abc123\n\nworktree /wt\n\nbranch refs/heads/X\n\n";
    let records = parse_worktree_porcelain(input);
    assert_eq!(records.len(), 2);
    assert_eq!(records[0].path, "/repo");
    assert_eq!(records[0].branch, "");
    assert_eq!(records[1].path, "/wt");
    assert_eq!(records[1].branch, "X");
}

#[test]
fn porcelain_keeps_unprefixed_branch_value() {
    let input = "worktree /wt\nbranch a1b2c3\n";
    let records = parse_worktree_porcelain(input);
    assert_eq!(records.len(), 1);
    assert_eq!(records[0].branch, "a1b2c3");
}

#[test]
fn porcelain_crlf_lines() {
    let input = "worktree /repo\r\nbranch refs/heads/main\r\n";
    let records = parse_worktree_porcelain(input);
    assert_eq!(records.len(), 1);
    assert_eq!(records[0].path, "/repo");
    assert_eq!(records[0].branch, "main");
}

#[test]
fn porcelain_empty_input() {
    assert_eq!(parse_worktree_porcelain("").len(), 0);
}

#[test]
fn ahead_behind_empty_is_zero() {
    assert_eq!(parse_ahead_behind(""), (0, 0));
}

#[test]
fn ahead_behind_garbage_is_zero() {
    assert_eq!(parse_ahead_behind("garbage"), (0, 0));
}

#[test]
fn ahead_behind_reads_tab_separated_counts() {
    assert_eq!(parse_ahead_behind("3\t5\n"), (3, 5));
}

#[test]
fn ahead_behind_three_fields_is_zero() {
    assert_eq!(parse_ahead_behind("3\t5\t7"), (0, 0));
}

#[test]
fn ahead_behind_unparsable_field_degrades_alone() {
    assert_eq!(parse_ahead_behind("x\t5"), (0, 5));
    assert_eq!(parse_ahead_behind("5\tx"), (5, 0));
}

#[test]
fn ahead_behind_plus_prefix_and_bounds() {
    assert_eq!(parse_ahead_behind("+4\t2"), (4, 2));
    assert_eq!(parse_ahead_behind("4294967295\t1"), (4294967295, 1));
    assert_eq!(parse_ahead_behind("4294967296\t1"), (0, 1));
}

#[test]
fn dirty_only_on_nonwhitespace_output() {
    assert!(!dirty_from_status(""));
    assert!(!dirty_from_status(" \n\t\r\n"));
    assert!(dirty_from_status(" M src/lib.rs\n"));
}

#[test]
fn health_combines_probes_best_effort() {
    let status = CommandOutcome::Success(" M a\n".to_string());
    let revlist = CommandOutcome::Success("2\t7\n".to_string());
    let h = health_from_probes(&status, &revlist);
    assert!(h.is_dirty);
    assert_eq!(h.ahead, 2);
    assert_eq!(h.behind, 7);
}

#[test]
fn health_degrades_failed_probes_to_zero() {
    let status = CommandOutcome::Failure("bad".to_string());
    let revlist = CommandOutcome::SpawnError("missing".to_string());
    let h = health_from_probes(&status, &revlist);
    assert!(!h.is_dirty);
    assert_eq!(h.ahead, 0);
    assert_eq!(h.behind, 0);
}

#[test]
fn health_missing_upstream_is_clean_counts() {
    let status = CommandOutcome::Success("".to_string());
    let revlist = CommandOutcome::Failure("no upstream".to_string());
    let h = health_from_probes(&status, &revlist);
    assert!(!h.is_dirty);
    assert_eq!((h.ahead, h.behind), (0, 0));
}
