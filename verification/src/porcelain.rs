//! Parsing of `git worktree list --porcelain` output and of the
//! auxiliary health-probe output.

use vstd::prelude::*;
use vstd::string::StrSliceExecFns;
use crate::outcome::CommandOutcome;
use crate::text::{
    is_space, is_space_char, lemma_seq_skip_one, spec_lines, spec_parse_u32_or_zero, spec_split,
    spec_trim, starts_with, str_lines, str_split_char, str_starts_with, str_trim,
    parse_u32_or_zero,
};

verus! {

/// The mathematical shape of one parsed porcelain record.
pub struct RawWorktreeView {
    pub path: Seq<char>,
    pub branch: Seq<char>,
}

/// One record of `git worktree list --porcelain`: the worktree's path
/// and its branch name (empty when the worktree is on a detached
/// HEAD, so no `branch refs/heads/...` line was seen).
#[derive(Debug, Clone)]
pub struct RawWorktree {
    pub path: String,
    pub branch: String,
}

impl View for RawWorktree {
    type V = RawWorktreeView;

    open spec fn view(&self) -> RawWorktreeView {
        RawWorktreeView { path: self.path@, branch: self.branch@ }
    }
}

impl DeepView for RawWorktree {
    type V = RawWorktreeView;

    open spec fn deep_view(&self) -> RawWorktreeView {
        self.view()
    }
}

/// The record that an accumulated `(path, branch)` pair yields when a
/// record boundary is reached: none while no path has been seen.
pub open spec fn flush(path: Seq<char>, branch: Seq<char>) -> Seq<RawWorktreeView> {
    if path.len() > 0 {
        seq![RawWorktreeView { path: path, branch: branch }]
    } else {
        Seq::empty()
    }
}

/// Fold over the porcelain lines. A `worktree ` line flushes the
/// record being built and starts the next one; a `branch ` line sets
/// the branch (its `refs/heads/` prefix stripped when present); blank
/// and unrecognized lines change nothing; end of input flushes.
pub open spec fn parse_lines_rec(
    ls: Seq<Seq<char>>,
    path: Seq<char>,
    branch: Seq<char>,
) -> Seq<RawWorktreeView>
    decreases ls.len(),
{
    if ls.len() == 0 {
        flush(path, branch)
    } else {
        let l = ls[0];
        let rest = ls.drop_first();
        if l.len() == 0 {
            parse_lines_rec(rest, path, branch)
        } else if starts_with(l, "worktree "@) {
            flush(path, branch) + parse_lines_rec(rest, l.skip("worktree "@.len() as int), Seq::empty())
        } else if starts_with(l, "branch "@) {
            let b = l.skip("branch "@.len() as int);
            let b2 = if starts_with(b, "refs/heads/"@) {
                b.skip("refs/heads/"@.len() as int)
            } else {
                b
            };
            parse_lines_rec(rest, path, b2)
        } else {
            parse_lines_rec(rest, path, branch)
        }
    }
}

/// The records encoded in raw porcelain output.
pub open spec fn spec_parse_porcelain(s: Seq<char>) -> Seq<RawWorktreeView> {
    parse_lines_rec(spec_lines(s), Seq::empty(), Seq::empty())
}

/// Parses `git worktree list --porcelain` output. Records are flushed
/// on the next `worktree ` line or at end of input, never on blank
/// lines alone, so stray blank lines inserted by the subprocess
/// transport are tolerated; git's listing order is preserved.
pub fn parse_worktree_porcelain(s: &str) -> (r: Vec<RawWorktree>)
    ensures
        r.deep_view() == spec_parse_porcelain(s@),
{
    let lines = str_lines(s);
    let ghost ls = lines.deep_view();
    let mut r: Vec<RawWorktree> = Vec::new();
    let mut cur_path = String::new();
    let mut cur_branch = String::new();
    let mut i: usize = 0;
    proof {
        assert(ls.skip(0) =~= ls);
        assert(r.deep_view() =~= Seq::<RawWorktreeView>::empty());
        assert(r.deep_view() + parse_lines_rec(ls, Seq::empty(), Seq::empty()) =~= parse_lines_rec(
            ls,
            Seq::empty(),
            Seq::empty(),
        ));
    }
    while i < lines.len()
        invariant
            i <= lines.len(),
            ls == lines.deep_view(),
            ls == spec_lines(s@),
            ls.len() == lines@.len(),
            parse_lines_rec(ls, Seq::empty(), Seq::empty()) == r.deep_view() + parse_lines_rec(
                ls.skip(i as int),
                cur_path@,
                cur_branch@,
            ),
        decreases lines.len() - i,
    {
        let line: &str = lines[i];
        let ghost p = cur_path@;
        let ghost b = cur_branch@;
        proof {
            assert(line@ == ls[i as int]);
            lemma_seq_skip_one(ls, i as int);
        }
        if line.is_empty() {
        } else if str_starts_with(line, "worktree ") {
            let plen = "worktree ".unicode_len();
            let rest = line.substring_char(plen, line.unicode_len());
            proof {
                assert(rest@ =~= line@.skip("worktree "@.len() as int));
            }
            let ghost old_r = r.deep_view();
            if !cur_path.as_str().is_empty() {
                r.push(RawWorktree { path: cur_path, branch: cur_branch });
                proof {
                    assert(r.deep_view() =~= old_r + flush(p, b));
                }
            } else {
                proof {
                    assert(r.deep_view() =~= old_r + flush(p, b));
                }
            }
            cur_path = rest.to_owned();
            cur_branch = String::new();
            proof {
                assert(parse_lines_rec(ls.skip(i as int), p, b) == flush(p, b) + parse_lines_rec(
                    ls.skip(i + 1),
                    cur_path@,
                    cur_branch@,
                ));
                assert(old_r + (flush(p, b) + parse_lines_rec(ls.skip(i + 1), cur_path@, cur_branch@))
                    =~= (old_r + flush(p, b)) + parse_lines_rec(ls.skip(i + 1), cur_path@, cur_branch@));
            }
        } else if str_starts_with(line, "branch ") {
            let plen = "branch ".unicode_len();
            let rest = line.substring_char(plen, line.unicode_len());
            proof {
                assert(rest@ =~= line@.skip("branch "@.len() as int));
            }
            let nb = if str_starts_with(rest, "refs/heads/") {
                let hlen = "refs/heads/".unicode_len();
                let b0 = rest.substring_char(hlen, rest.unicode_len());
                proof {
                    assert(b0@ =~= rest@.skip("refs/heads/"@.len() as int));
                }
                b0
            } else {
                rest
            };
            cur_branch = nb.to_owned();
            proof {
                assert(parse_lines_rec(ls.skip(i as int), p, b) == parse_lines_rec(
                    ls.skip(i + 1),
                    cur_path@,
                    cur_branch@,
                ));
            }
        } else {
            proof {
                assert(parse_lines_rec(ls.skip(i as int), p, b) == parse_lines_rec(
                    ls.skip(i + 1),
                    cur_path@,
                    cur_branch@,
                ));
            }
        }
        i += 1;
    }
    proof {
        assert(ls.skip(ls.len() as int) =~= Seq::<Seq<char>>::empty());
    }
    let ghost p = cur_path@;
    let ghost b = cur_branch@;
    let ghost old_r = r.deep_view();
    if !cur_path.as_str().is_empty() {
        r.push(RawWorktree { path: cur_path, branch: cur_branch });
        proof {
            assert(r.deep_view() =~= old_r + flush(p, b));
        }
    } else {
        proof {
            assert(r.deep_view() =~= old_r + flush(p, b));
        }
    }
    r
}

/// The ahead/behind pair encoded in `git rev-list --left-right
/// --count` output: the trimmed text must be exactly two
/// tab-separated fields, each read as `u32` with unparsable or
/// oversized fields degrading to zero; any other shape yields
/// `(0, 0)`.
pub open spec fn spec_parse_ahead_behind(s: Seq<char>) -> (u32, u32) {
    let parts = spec_split(spec_trim(s), '\t');
    if parts.len() == 2 {
        (spec_parse_u32_or_zero(parts[0]), spec_parse_u32_or_zero(parts[1]))
    } else {
        (0, 0)
    }
}

/// Reads the two tab-separated counters of a `git rev-list
/// --left-right --count` probe; anything malformed degrades to zero.
pub fn parse_ahead_behind(s: &str) -> (r: (u32, u32))
    ensures
        r == spec_parse_ahead_behind(s@),
{
    let t = str_trim(s);
    let parts = str_split_char(t, '\t');
    proof {
        assert(parts.deep_view().len() == parts@.len());
    }
    if parts.len() == 2 {
        proof {
            assert(parts@[0]@ == parts.deep_view()[0]);
            assert(parts@[1]@ == parts.deep_view()[1]);
        }
        let ahead = parse_u32_or_zero(parts[0]);
        let behind = parse_u32_or_zero(parts[1]);
        (ahead, behind)
    } else {
        (0, 0)
    }
}

/// `s` holds at least one non-whitespace character.
pub open spec fn has_nonspace(s: Seq<char>) -> bool {
    exists|i: int| 0 <= i < s.len() && !is_space(s[i])
}

/// Whether `git status --porcelain` output reports a dirty tree:
/// true exactly when the output has any non-whitespace character.
pub fn dirty_from_status(stdout: &str) -> (r: bool)
    ensures
        r == has_nonspace(stdout@),
{
    let len = stdout.unicode_len();
    let mut i: usize = 0;
    while i < len
        invariant
            len == stdout@.len(),
            i <= len,
            forall|j: int| 0 <= j < i ==> is_space(#[trigger] stdout@[j]),
        decreases len - i,
    {
        if !is_space_char(stdout.get_char(i)) {
            return true;
        }
        i += 1;
    }
    false
}

/// The health figures of one worktree.
#[derive(Debug, Clone, Copy, PartialEq, Eq, Structural)]
pub struct WorktreeHealth {
    pub is_dirty: bool,
    pub ahead: u32,
    pub behind: u32,
}

/// Combines the two health probes of a worktree, best-effort: a
/// failed or unspawnable probe degrades its field to false or zero
/// rather than erroring, since health display is advisory.
pub fn health_from_probes(status: &CommandOutcome, revlist: &CommandOutcome) -> (h: WorktreeHealth)
    ensures
        h.is_dirty == (status matches CommandOutcome::Success(out) && has_nonspace(out@)),
        revlist matches CommandOutcome::Success(out) ==> (h.ahead, h.behind)
            == spec_parse_ahead_behind(out@),
        !(revlist is Success) ==> h.ahead == 0 && h.behind == 0,
{
    let is_dirty = match status {
        CommandOutcome::Success(out) => dirty_from_status(out.as_str()),
        _ => false,
    };
    let (ahead, behind) = match revlist {
        CommandOutcome::Success(out) => parse_ahead_behind(out.as_str()),
        _ => (0u32, 0u32),
    };
    WorktreeHealth { is_dirty, ahead, behind }
}

} // verus!
