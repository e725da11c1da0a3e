//! The closed set of supported terminal emulators and editors, and
//! the launch commands built for them.

use vstd::prelude::*;
use vstd::string::StringExecFns;
use crate::text::str_eq;

verus! {

/// The terminal emulators the tool can open.
#[derive(Debug, Clone, Copy, PartialEq, Eq, Structural)]
pub enum Emulator {
    Ghostty,
    Alacritty,
    Iterm2,
    TerminalApp,
}

/// The emulator a request string names, if any.
pub open spec fn emulator_of(s: Seq<char>) -> Option<Emulator> {
    if s == "ghostty"@ {
        Some(Emulator::Ghostty)
    } else if s == "alacritty"@ {
        Some(Emulator::Alacritty)
    } else if s == "iterm2"@ {
        Some(Emulator::Iterm2)
    } else if s == "terminal"@ {
        Some(Emulator::TerminalApp)
    } else {
        None
    }
}

/// Maps a requested emulator name to the closed enumeration; an
/// unknown name is an explicit error, never a silent fall-through.
pub fn parse_emulator(s: &str) -> (r: Result<Emulator, String>)
    ensures
        r matches Ok(e) ==> emulator_of(s@) == Some(e),
        r matches Err(m) ==> emulator_of(s@) is None && m@ == "Unknown terminal emulator: "@
            + s@,
{
    if str_eq(s, "ghostty") {
        Ok(Emulator::Ghostty)
    } else if str_eq(s, "alacritty") {
        Ok(Emulator::Alacritty)
    } else if str_eq(s, "iterm2") {
        Ok(Emulator::Iterm2)
    } else if str_eq(s, "terminal") {
        Ok(Emulator::TerminalApp)
    } else {
        Err(String::from_str("Unknown terminal emulator: ").concat(s))
    }
}

/// The editors the tool can open.
#[derive(Debug, Clone, Copy, PartialEq, Eq, Structural)]
pub enum Editor {
    Zed,
    Cursor,
    VsCode,
}

/// The editor a request string names, if any: both `vscode` and
/// `code` name VS Code.
pub open spec fn editor_of(s: Seq<char>) -> Option<Editor> {
    if s == "zed"@ {
        Some(Editor::Zed)
    } else if s == "cursor"@ {
        Some(Editor::Cursor)
    } else if s == "vscode"@ || s == "code"@ {
        Some(Editor::VsCode)
    } else {
        None
    }
}

/// Maps a requested editor name to the closed enumeration.
pub fn parse_editor(s: &str) -> (r: Result<Editor, String>)
    ensures
        r matches Ok(e) ==> editor_of(s@) == Some(e),
        r matches Err(m) ==> editor_of(s@) is None && m@ == "Unknown editor: "@ + s@,
{
    if str_eq(s, "zed") {
        Ok(Editor::Zed)
    } else if str_eq(s, "cursor") {
        Ok(Editor::Cursor)
    } else if str_eq(s, "vscode") || str_eq(s, "code") {
        Ok(Editor::VsCode)
    } else {
        Err(String::from_str("Unknown editor: ").concat(s))
    }
}

/// The binary an editor is opened with.
pub open spec fn editor_binary(e: Editor) -> Seq<char> {
    match e {
        Editor::Zed => "zed"@,
        Editor::Cursor => "cursor"@,
        Editor::VsCode => "code"@,
    }
}

/// The command that opens `path` in the chosen editor.
pub fn editor_command(e: Editor, path: &str) -> (r: (String, Vec<String>))
    ensures
        r.0@ == editor_binary(e),
        r.1.deep_view() =~= seq![path@],
{
    let bin = match e {
        Editor::Zed => String::from_str("zed"),
        Editor::Cursor => String::from_str("cursor"),
        Editor::VsCode => String::from_str("code"),
    };
    let mut args: Vec<String> = Vec::new();
    args.push(path.to_owned());
    proof {
        assert(args.deep_view() =~= seq![path@]);
    }
    (bin, args)
}

/// The command that attaches a terminal to the session.
pub open spec fn spec_attach_cmd(session: Seq<char>) -> Seq<char> {
    "tmux attach -t "@ + session
}

/// The binary a terminal launch runs: `open` for app bundles,
/// `osascript` for the scripted terminals.
pub open spec fn terminal_binary(e: Emulator) -> Seq<char> {
    match e {
        Emulator::Ghostty => "open"@,
        Emulator::Alacritty => "open"@,
        Emulator::Iterm2 => "osascript"@,
        Emulator::TerminalApp => "osascript"@,
    }
}

/// The AppleScript that opens iTerm2 in tmux control mode.
pub open spec fn spec_iterm_script(session: Seq<char>) -> Seq<char> {
    "tell application \"iTerm\"\n    activate\n    create window with default profile\n    tell current session of current window\n        write text \"tmux -CC attach -t "@
        + session + "\"\n    end tell\nend tell"@
}

/// The AppleScript that opens Terminal.app attached to the session.
pub open spec fn spec_terminal_script(shell: Seq<char>, session: Seq<char>) -> Seq<char> {
    "tell application \"Terminal\"\n    activate\n    do script \""@ + shell
        + " -lc 'tmux attach -t "@ + session + "'\"\nend tell"@
}

/// The argument list of one terminal launch.
pub open spec fn spec_terminal_args(
    e: Emulator,
    shell: Seq<char>,
    session: Seq<char>,
) -> Seq<Seq<char>> {
    match e {
        Emulator::Ghostty => seq![
            "-n"@,
            "-a"@,
            "Ghostty"@,
            "--args"@,
            "-e"@,
            shell,
            "-lc"@,
            spec_attach_cmd(session),
        ],
        Emulator::Alacritty => seq![
            "-n"@,
            "-a"@,
            "Alacritty"@,
            "--args"@,
            "-e"@,
            shell,
            "-lc"@,
            spec_attach_cmd(session),
        ],
        Emulator::Iterm2 => seq!["-e"@, spec_iterm_script(session)],
        Emulator::TerminalApp => seq!["-e"@, spec_terminal_script(shell, session)],
    }
}

/// Builds the command that opens the chosen terminal emulator
/// attached to a tmux session, with the user's shell.
pub fn terminal_command(e: Emulator, shell: &str, session: &str) -> (r: (String, Vec<String>))
    ensures
        r.0@ == terminal_binary(e),
        r.1.deep_view() == spec_terminal_args(e, shell@, session@),
{
    match e {
        Emulator::Ghostty => {
            let attach = String::from_str("tmux attach -t ").concat(session);
            let mut args: Vec<String> = Vec::new();
            args.push(String::from_str("-n"));
            args.push(String::from_str("-a"));
            args.push(String::from_str("Ghostty"));
            args.push(String::from_str("--args"));
            args.push(String::from_str("-e"));
            args.push(shell.to_owned());
            args.push(String::from_str("-lc"));
            args.push(attach);
            proof {
                assert(args.deep_view() =~= spec_terminal_args(e, shell@, session@));
            }
            (String::from_str("open"), args)
        },
        Emulator::Alacritty => {
            let attach = String::from_str("tmux attach -t ").concat(session);
            let mut args: Vec<String> = Vec::new();
            args.push(String::from_str("-n"));
            args.push(String::from_str("-a"));
            args.push(String::from_str("Alacritty"));
            args.push(String::from_str("--args"));
            args.push(String::from_str("-e"));
            args.push(shell.to_owned());
            args.push(String::from_str("-lc"));
            args.push(attach);
            proof {
                assert(args.deep_view() =~= spec_terminal_args(e, shell@, session@));
            }
            (String::from_str("open"), args)
        },
        Emulator::Iterm2 => {
            let script = String::from_str(
                "tell application \"iTerm\"\n    activate\n    create window with default profile\n    tell current session of current window\n        write text \"tmux -CC attach -t ",
            ).concat(session).concat("\"\n    end tell\nend tell");
            let mut args: Vec<String> = Vec::new();
            args.push(String::from_str("-e"));
            args.push(script);
            proof {
                assert(args.deep_view() =~= spec_terminal_args(e, shell@, session@));
            }
            (String::from_str("osascript"), args)
        },
        Emulator::TerminalApp => {
            let script = String::from_str(
                "tell application \"Terminal\"\n    activate\n    do script \"",
            ).concat(shell).concat(" -lc 'tmux attach -t ").concat(session).concat(
                "'\"\nend tell",
            );
            let mut args: Vec<String> = Vec::new();
            args.push(String::from_str("-e"));
            args.push(script);
            proof {
                assert(args.deep_view() =~= spec_terminal_args(e, shell@, session@));
            }
            (String::from_str("osascript"), args)
        },
    }
}

} // verus!
