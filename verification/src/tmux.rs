//! Parsing and command assembly for the tmux session collaborator.

use vstd::prelude::*;
use vstd::string::StrSliceExecFns;
use vstd::string::StringExecFns;
use crate::outcome::CommandOutcome;
use crate::text::{
    lemma_seq_skip_one, push_char, spec_lines, spec_parse_u32_or_zero, spec_splitn, str_eq,
    str_lines, str_splitn_char, parse_u32_or_zero, contains_seq, str_contains,
};

verus! {

/// The mathematical shape of one parsed session line.
pub struct TmuxSessionView {
    pub name: Seq<char>,
    pub attached: bool,
    pub windows: u32,
    pub created: Seq<char>,
}

/// One tmux session, as `tmux list-sessions` reports it through the
/// `name|attached|windows|created` format string.
#[derive(Debug, Clone)]
pub struct TmuxSession {
    pub name: String,
    pub attached: bool,
    pub windows: u32,
    pub created: String,
}

impl View for TmuxSession {
    type V = TmuxSessionView;

    open spec fn view(&self) -> TmuxSessionView {
        TmuxSessionView {
            name: self.name@,
            attached: self.attached,
            windows: self.windows,
            created: self.created@,
        }
    }
}

impl DeepView for TmuxSession {
    type V = TmuxSessionView;

    open spec fn deep_view(&self) -> TmuxSessionView {
        self.view()
    }
}

/// The session one listing line yields: the first three `|`-separated
/// fields and the unsplit rest; a line with fewer than four fields
/// yields nothing.
pub open spec fn session_of_line(l: Seq<char>) -> Option<TmuxSessionView> {
    let parts = spec_splitn(l, '|', 4);
    if parts.len() < 4 {
        None
    } else {
        Some(
            TmuxSessionView {
                name: parts[0],
                attached: parts[1] == "1"@,
                windows: spec_parse_u32_or_zero(parts[2]),
                created: parts[3],
            },
        )
    }
}

/// The sessions of a whole listing: empty and malformed lines skipped.
pub open spec fn sessions_of_lines(ls: Seq<Seq<char>>) -> Seq<TmuxSessionView>
    decreases ls.len(),
{
    if ls.len() == 0 {
        Seq::empty()
    } else {
        let rest = sessions_of_lines(ls.drop_first());
        if ls[0].len() == 0 {
            rest
        } else {
            match session_of_line(ls[0]) {
                Some(s) => seq![s] + rest,
                None => rest,
            }
        }
    }
}

/// The sessions encoded in raw `tmux list-sessions` output.
pub open spec fn spec_parse_tmux_sessions(s: Seq<char>) -> Seq<TmuxSessionView> {
    sessions_of_lines(spec_lines(s))
}

/// Parses `tmux list-sessions` output in the
/// `name|attached|windows|created` format.
pub fn parse_tmux_sessions(s: &str) -> (r: Vec<TmuxSession>)
    ensures
        r.deep_view() == spec_parse_tmux_sessions(s@),
{
    let lines = str_lines(s);
    let ghost ls = lines.deep_view();
    let mut r: Vec<TmuxSession> = Vec::new();
    let mut i: usize = 0;
    proof {
        assert(ls.skip(0) =~= ls);
        assert(r.deep_view() =~= Seq::<TmuxSessionView>::empty());
        assert(r.deep_view() + sessions_of_lines(ls) =~= sessions_of_lines(ls));
    }
    while i < lines.len()
        invariant
            i <= lines.len(),
            ls == lines.deep_view(),
            ls == spec_lines(s@),
            ls.len() == lines@.len(),
            sessions_of_lines(ls) == r.deep_view() + sessions_of_lines(ls.skip(i as int)),
        decreases lines.len() - i,
    {
        let line: &str = lines[i];
        proof {
            assert(line@ == ls[i as int]);
            lemma_seq_skip_one(ls, i as int);
        }
        if !line.is_empty() {
            let parts = str_splitn_char(line, 4, '|');
            proof {
                assert(parts.deep_view().len() == parts@.len());
            }
            if parts.len() >= 4 {
                proof {
                    assert(parts@[0]@ == parts.deep_view()[0]);
                    assert(parts@[1]@ == parts.deep_view()[1]);
                    assert(parts@[2]@ == parts.deep_view()[2]);
                    assert(parts@[3]@ == parts.deep_view()[3]);
                }
                let name = parts[0].to_owned();
                let attached = str_eq(parts[1], "1");
                let windows = parse_u32_or_zero(parts[2]);
                let created = parts[3].to_owned();
                let ghost old_r = r.deep_view();
                let s2 = TmuxSession { name, attached, windows, created };
                let ghost sv = s2.deep_view();
                r.push(s2);
                proof {
                    assert(session_of_line(ls[i as int]) == Some(sv));
                    assert(r.deep_view() =~= old_r + seq![sv]);
                    assert(old_r + (seq![sv] + sessions_of_lines(ls.skip(i + 1))) =~= r.deep_view()
                        + sessions_of_lines(ls.skip(i + 1)));
                }
            } else {
                proof {
                    assert(session_of_line(ls[i as int]) is None);
                }
            }
        }
        i += 1;
    }
    proof {
        assert(ls.skip(ls.len() as int) =~= Seq::<Seq<char>>::empty());
    }
    r
}

/// A tmux listing failure that only means "no sessions": no server
/// is running, there is no current client, or the binary itself is
/// not present.
pub open spec fn benign_tmux_error(stderr: Seq<char>) -> bool {
    ||| contains_seq(stderr, "no server running"@)
    ||| contains_seq(stderr, "no current client"@)
    ||| contains_seq(stderr, "No such file or directory"@)
}

/// Interprets one `tmux list-sessions` invocation: a benign failure
/// yields an empty listing, any other failure or a spawn failure is
/// surfaced, and success is parsed.
pub fn list_sessions_outcome(o: &CommandOutcome) -> (r: Result<Vec<TmuxSession>, String>)
    ensures
        o matches CommandOutcome::Success(out) ==> r matches Ok(v) && v.deep_view()
            == spec_parse_tmux_sessions(out@),
        o matches CommandOutcome::Failure(stderr) ==> (if benign_tmux_error(stderr@) {
            r matches Ok(v) && v.deep_view() == Seq::<TmuxSessionView>::empty()
        } else {
            r matches Err(m) && m@ == "tmux list-sessions failed: "@ + stderr@
        }),
        o matches CommandOutcome::SpawnError(e) ==> r matches Err(m) && m@
            == "Failed to run tmux: "@ + e@,
{
    match o {
        CommandOutcome::Success(out) => Ok(parse_tmux_sessions(out.as_str())),
        CommandOutcome::Failure(stderr) => {
            let benign = str_contains(stderr.as_str(), "no server running") || str_contains(
                stderr.as_str(),
                "no current client",
            ) || str_contains(stderr.as_str(), "No such file or directory");
            if benign {
                let v: Vec<TmuxSession> = Vec::new();
                proof {
                    assert(v.deep_view() =~= Seq::<TmuxSessionView>::empty());
                }
                Ok(v)
            } else {
                Err(String::from_str("tmux list-sessions failed: ").concat(stderr.as_str()))
            }
        },
        CommandOutcome::SpawnError(e) => Err(
            String::from_str("Failed to run tmux: ").concat(e.as_str()),
        ),
    }
}

/// The characters a session name may keep; anything else becomes `-`.
pub open spec fn keep_session_char(c: char) -> bool {
    (48 <= c as u32 <= 57) || (65 <= c as u32 <= 90) || (97 <= c as u32 <= 122) || c == '-'
        || c == '_'
}

/// What sanitization turns one character into.
pub open spec fn sanitized_char(c: char) -> char {
    if keep_session_char(c) {
        c
    } else {
        '-'
    }
}

/// Maps a requested session name to the one tmux is given: ASCII
/// letters, digits, `-` and `_` are kept, every other character is
/// replaced by `-`.
pub fn sanitize_session_name(name: &str) -> (r: String)
    ensures
        r@.len() == name@.len(),
        forall|i: int| 0 <= i < name@.len() ==> r@[i] == sanitized_char(#[trigger] name@[i]),
{
    let len = name.unicode_len();
    let mut r = String::new();
    let mut i: usize = 0;
    while i < len
        invariant
            len == name@.len(),
            i <= len,
            r@.len() == i,
            forall|j: int| 0 <= j < i ==> r@[j] == sanitized_char(#[trigger] name@[j]),
        decreases len - i,
    {
        let c = name.get_char(i);
        let cv = c as u32;
        let kc = if (48 <= cv && cv <= 57) || (65 <= cv && cv <= 90) || (97 <= cv && cv <= 122)
            || c == '-' || c == '_' {
            c
        } else {
            '-'
        };
        push_char(&mut r, kc);
        i += 1;
    }
    r
}

/// The readiness signal of a session: `ready_<name>`.
pub open spec fn spec_ready_signal(name: Seq<char>) -> Seq<char> {
    "ready_"@ + name
}

/// The shell command a new session runs: it raises the readiness
/// signal, then replaces itself with the user's shell.
pub open spec fn spec_shell_cmd(shell: Seq<char>, name: Seq<char>) -> Seq<char> {
    shell + " -ic 'tmux wait-for -S "@ + spec_ready_signal(name) + "; exec "@ + shell + "'"@
}

/// The full argument list of `tmux new-session` for a sanitized
/// name, an optional working directory, and the user's shell.
pub open spec fn spec_create_args(
    name: Seq<char>,
    working_dir: Option<Seq<char>>,
    shell: Seq<char>,
) -> Seq<Seq<char>> {
    let head = seq!["new-session"@, "-d"@, "-s"@, name];
    let mid = match working_dir {
        Some(d) => seq!["-c"@, d],
        None => Seq::empty(),
    };
    head + mid + seq![spec_shell_cmd(shell, name)]
}

/// The working directory as a sequence of characters, when given.
pub open spec fn opt_view(o: Option<String>) -> Option<Seq<char>> {
    match o {
        Some(s) => Some(s@),
        None => None,
    }
}

/// Builds the `ready_<name>` wait-for signal.
pub fn ready_signal(name: &str) -> (r: String)
    ensures
        r@ == spec_ready_signal(name@),
{
    String::from_str("ready_").concat(name)
}

/// Assembles the `tmux new-session` argument list.
pub fn tmux_create_args(name: &str, working_dir: &Option<String>, shell: &str) -> (r: Vec<String>)
    ensures
        r.deep_view() == spec_create_args(name@, opt_view(*working_dir), shell@),
{
    let shell_cmd = shell.to_owned().concat(" -ic 'tmux wait-for -S ").concat(
        ready_signal(name).as_str(),
    ).concat("; exec ").concat(shell).concat("'");
    let mut r: Vec<String> = Vec::new();
    r.push(String::from_str("new-session"));
    r.push(String::from_str("-d"));
    r.push(String::from_str("-s"));
    r.push(name.to_owned());
    match working_dir {
        Some(d) => {
            r.push(String::from_str("-c"));
            r.push(d.clone());
        },
        None => {},
    }
    r.push(shell_cmd);
    proof {
        assert(r.deep_view() =~= spec_create_args(name@, opt_view(*working_dir), shell@));
    }
    r
}

/// The session record reported right after a successful
/// `new-session`: detached, one window, no creation stamp yet.
pub fn created_session(name: String) -> (r: TmuxSession)
    ensures
        r.name@ == name@,
        !r.attached,
        r.windows == 1,
        r.created@.len() == 0,
{
    TmuxSession { name, attached: false, windows: 1, created: String::new() }
}

} // verus!
