use worktrees::outcome::CommandOutcome;
use worktrees::tmux::{
    created_session, list_sessions_outcome, parse_tmux_sessions, ready_signal,
    sanitize_session_name, tmux_create_args,
};

#[test]
fn tmux_parses_format_lines() {
    let out = "main|1|3|1700000000\ndev|0|2|1700000001\n";
    let sessions = parse_tmux_sessions(out);
    assert_eq!(sessions.len(), 2);
    assert_eq!(sessions[0].name, "main");
    assert!(sessions[0].attached);
    assert_eq!(sessions[0].windows, 3);
    assert_eq!(sessions[0].created, "1700000000");
    assert_eq!(sessions[1].name, "dev");
    assert!(!sessions[1].attached);
    assert_eq!(sessions[1].windows, 2);
}

#[test]
fn tmux_skips_short_and_empty_lines() {
    let out = "\nmain|1|3\n\nok|0|1|t\n";
    let sessions = parse_tmux_sessions(out);
    assert_eq!(sessions.len(), 1);
    assert_eq!(sessions[0].name, "ok");
}

#[test]
fn tmux_created_field_keeps_extra_separators() {
    let sessions = parse_tmux_sessions("a|1|2|x|y\n");
    assert_eq!(sessions.len(), 1);
    assert_eq!(sessions[0].created, "x|y");
}

#[test]
fn tmux_unparsable_window_count_is_zero() {
    let sessions = parse_tmux_sessions("a|1|many|t\n");
    assert_eq!(sessions[0].windows, 0);
}

#[test]
fn tmux_no_server_is_an_empty_listing() {
    let o = CommandOutcome::Failure("no server running on /tmp/tmux-501/default".to_string());
    assert_eq!(list_sessions_outcome(&o).unwrap().len(), 0);
    let o = CommandOutcome::Failure("error connecting: No such file or directory".to_string());
    assert_eq!(list_sessions_outcome(&o).unwrap().len(), 0);
    let o = CommandOutcome::Failure("no current client".to_string());
    assert_eq!(list_sessions_outcome(&o).unwrap().len(), 0);
}

#[test]
fn tmux_other_failures_are_surfaced() {
    let o = CommandOutcome::Failure("unknown option".to_string());
    assert_eq!(
        list_sessions_outcome(&o).unwrap_err(),
        "tmux list-sessions failed: unknown option"
    );
    let o = CommandOutcome::SpawnError("tmux missing".to_string());
    assert_eq!(list_sessions_outcome(&o).unwrap_err(), "Failed to run tmux: tmux missing");
}

#[test]
fn tmux_success_is_parsed() {
    let o = CommandOutcome::Success("s|0|1|t\n".to_string());
    let sessions = list_sessions_outcome(&o).unwrap();
    assert_eq!(sessions.len(), 1);
    assert_eq!(sessions[0].name, "s");
}

#[test]
fn session_names_are_sanitized() {
    assert_eq!(sanitize_session_name("feat/ABC 1"), "feat-ABC-1");
    assert_eq!(sanitize_session_name("a-b_C9"), "a-b_C9");
    assert_eq!(sanitize_session_name(""), "");
    assert_eq!(sanitize_session_name("x.y:z"), "x-y-z");
}

#[test]
fn ready_signal_is_prefixed() {
    assert_eq!(ready_signal("sess"), "ready_sess");
}

#[test]
fn create_args_with_working_dir() {
    let args = tmux_create_args("n", &Some("/work".to_string()), "/bin/zsh");
    let expect_cmd = "/bin/zsh -ic 'tmux wait-for -S ready_n; exec /bin/zsh'";
    assert_eq!(
        args,
        vec![
            "new-session".to_string(),
            "-d".to_string(),
            "-s".to_string(),
            "n".to_string(),
            "-c".to_string(),
            "/work".to_string(),
            expect_cmd.to_string(),
        ]
    );
}

#[test]
fn create_args_without_working_dir() {
    let args = tmux_create_args("n", &None, "/bin/bash");
    assert_eq!(args.len(), 5);
    assert_eq!(args[3], "n");
    assert_eq!(args[4], "/bin/bash -ic 'tmux wait-for -S ready_n; exec /bin/bash'");
}

#[test]
fn created_session_is_detached_single_window() {
    let s = created_session("n".to_string());
    assert_eq!(s.name, "n");
    assert!(!s.attached);
    assert_eq!(s.windows, 1);
    assert_eq!(s.created, "");
}
