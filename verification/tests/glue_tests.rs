use worktrees::github::token_outcome;
use worktrees::hooks::hook_outcome;
use worktrees::outcome::CommandOutcome;
use worktrees::terminal::{
    editor_command, parse_editor, parse_emulator, terminal_command, Editor, Emulator,
};
use worktrees::text::{parse_u32_or_zero, str_trim};

#[test]
fn token_is_trimmed_stdout() {
    let o = CommandOutcome::Success("  ghp_example123\n".to_string());
    assert_eq!(token_outcome(&o).unwrap(), "ghp_example123");
}

#[test]
fn empty_token_is_an_error() {
    let o = CommandOutcome::Success("  \n".to_string());
    assert_eq!(
        token_outcome(&o).unwrap_err(),
        "No GitHub token found. Run 'gh auth login' to authenticate."
    );
}

#[test]
fn token_failure_carries_guidance() {
    let o = CommandOutcome::Failure("not logged in".to_string());
    assert_eq!(
        token_outcome(&o).unwrap_err(),
        "gh auth token failed: not logged in. Run 'gh auth login' to authenticate."
    );
    let o = CommandOutcome::SpawnError("no gh".to_string());
    assert_eq!(
        token_outcome(&o).unwrap_err(),
        "Failed to run gh: no gh. Is GitHub CLI installed?"
    );
}

#[test]
fn hook_outcomes() {
    assert!(hook_outcome("make x", &CommandOutcome::Success("".to_string())).is_ok());
    assert_eq!(
        hook_outcome("make x", &CommandOutcome::Failure("exit 2".to_string())).unwrap_err(),
        "Hook `make x` failed: exit 2"
    );
    assert_eq!(
        hook_outcome("make x", &CommandOutcome::SpawnError("no sh".to_string())).unwrap_err(),
        "Failed to run hook `make x`: no sh"
    );
}

#[test]
fn emulator_names_are_a_closed_set() {
    assert_eq!(parse_emulator("ghostty").unwrap(), Emulator::Ghostty);
    assert_eq!(parse_emulator("alacritty").unwrap(), Emulator::Alacritty);
    assert_eq!(parse_emulator("iterm2").unwrap(), Emulator::Iterm2);
    assert_eq!(parse_emulator("terminal").unwrap(), Emulator::TerminalApp);
    assert_eq!(
        parse_emulator("kitty").unwrap_err(),
        "Unknown terminal emulator: kitty"
    );
}

#[test]
fn editor_names_are_a_closed_set() {
    assert_eq!(parse_editor("zed").unwrap(), Editor::Zed);
    assert_eq!(parse_editor("cursor").unwrap(), Editor::Cursor);
    assert_eq!(parse_editor("vscode").unwrap(), Editor::VsCode);
    assert_eq!(parse_editor("code").unwrap(), Editor::VsCode);
    assert_eq!(parse_editor("emacs").unwrap_err(), "Unknown editor: emacs");
}

#[test]
fn editor_commands() {
    let (bin, args) = editor_command(Editor::VsCode, "/w/repo");
    assert_eq!(bin, "code");
    assert_eq!(args, vec!["/w/repo".to_string()]);
    let (bin, _) = editor_command(Editor::Zed, "/w/repo");
    assert_eq!(bin, "zed");
}

#[test]
fn ghostty_launch_command() {
    let (bin, args) = terminal_command(Emulator::Ghostty, "/bin/zsh", "sess");
    assert_eq!(bin, "open");
    assert_eq!(
        args,
        vec![
            "-n".to_string(),
            "-a".to_string(),
            "Ghostty".to_string(),
            "--args".to_string(),
            "-e".to_string(),
            "/bin/zsh".to_string(),
            "-lc".to_string(),
            "tmux attach -t sess".to_string(),
        ]
    );
}

#[test]
fn iterm_launch_is_scripted() {
    let (bin, args) = terminal_command(Emulator::Iterm2, "/bin/zsh", "sess");
    assert_eq!(bin, "osascript");
    assert_eq!(args[0], "-e");
    assert!(args[1].contains("tell application \"iTerm\""));
    assert!(args[1].contains("tmux -CC attach -t sess"));
}

#[test]
fn terminal_app_launch_is_scripted() {
    let (bin, args) = terminal_command(Emulator::TerminalApp, "/bin/zsh", "sess");
    assert_eq!(bin, "osascript");
    assert!(args[1].contains("tell application \"Terminal\""));
    assert!(args[1].contains("/bin/zsh -lc 'tmux attach -t sess'"));
}

#[test]
fn trim_and_number_parsing_edges() {
    assert_eq!(str_trim("  a b \n"), "a b");
    assert_eq!(str_trim(""), "");
    assert_eq!(str_trim(" \t "), "");
    assert_eq!(parse_u32_or_zero("007"), 7);
    assert_eq!(parse_u32_or_zero("+0"), 0);
    assert_eq!(parse_u32_or_zero("4294967295"), 4294967295);
    assert_eq!(parse_u32_or_zero("4294967296"), 0);
    assert_eq!(parse_u32_or_zero("-1"), 0);
    assert_eq!(parse_u32_or_zero(""), 0);
    assert_eq!(parse_u32_or_zero("12a"), 0);
}
