//! Path validation and the sibling-directory layout of worktrees.

use vstd::prelude::*;
use vstd::string::StrSliceExecFns;
use vstd::string::StringExecFns;
use crate::errors::LifecycleError;
use crate::text::{spec_split, str_eq, str_split_char, trim_back_char, lemma_trim_back_char_exact};

verus! {

/// A repository-relative copy path is acceptable when it is
/// non-empty, not absolute, and has no `..` segment.
pub open spec fn valid_copy_path(s: Seq<char>) -> bool {
    &&& s.len() > 0
    &&& s[0] != '/'
    &&& forall|i: int|
        0 <= i < spec_split(s, '/').len() ==> #[trigger] spec_split(s, '/')[i] != ".."@
}

/// The message an unacceptable copy path is rejected with.
pub open spec fn invalid_path_message(rel: Seq<char>) -> Seq<char> {
    if rel.len() == 0 {
        "copyPaths: empty path is not allowed"@
    } else if rel[0] == '/' {
        "copyPaths: absolute path not allowed: "@ + rel
    } else {
        "copyPaths: parent traversal (..) not allowed: "@ + rel
    }
}

/// Rejects unsafe repository-relative copy paths: empty, absolute,
/// or containing a parent-traversal segment. Pure; performs no I/O.
pub fn validate_relative_path(rel: &str) -> (r: Result<(), LifecycleError>)
    ensures
        r is Ok <==> valid_copy_path(rel@),
        r matches Err(e) ==> e matches LifecycleError::InvalidPath(m) && m@
            == invalid_path_message(rel@),
{
    let len = rel.unicode_len();
    if len == 0 {
        return Err(LifecycleError::InvalidPath(
            String::from_str("copyPaths: empty path is not allowed"),
        ));
    }
    if rel.get_char(0) == '/' {
        return Err(LifecycleError::InvalidPath(
            String::from_str("copyPaths: absolute path not allowed: ").concat(rel),
        ));
    }
    let segs = str_split_char(rel, '/');
    let ghost sv = segs.deep_view();
    let mut i: usize = 0;
    while i < segs.len()
        invariant
            rel@.len() > 0,
            rel@[0] != '/',
            sv == spec_split(rel@, '/'),
            sv == segs.deep_view(),
            sv.len() == segs@.len(),
            i <= segs.len(),
            forall|j: int| 0 <= j < i ==> #[trigger] sv[j] != ".."@,
        decreases segs.len() - i,
    {
        let seg: &str = segs[i];
        proof {
            assert(seg@ == sv[i as int]);
        }
        if str_eq(seg, "..") {
            return Err(LifecycleError::InvalidPath(
                String::from_str("copyPaths: parent traversal (..) not allowed: ").concat(rel),
            ));
        }
        i += 1;
    }
    Ok(())
}

/// `PathBuf::join` for the paths this library builds: an absolute
/// `name` replaces `base`; an empty `base` contributes nothing; one
/// separator stands between the two otherwise.
pub open spec fn spec_join(base: Seq<char>, name: Seq<char>) -> Seq<char> {
    if name.len() > 0 && name[0] == '/' {
        name
    } else if base.len() == 0 {
        name
    } else if base.last() == '/' {
        base + name
    } else {
        base + "/"@ + name
    }
}

/// Joins one path segment onto a base path, as `PathBuf::join` does.
pub fn join_path(base: &str, name: &str) -> (r: String)
    ensures
        r@ == spec_join(base@, name@),
{
    let blen = base.unicode_len();
    let nlen = name.unicode_len();
    if nlen > 0 && name.get_char(0) == '/' {
        return name.to_owned();
    }
    if blen == 0 {
        return name.to_owned();
    }
    if base.get_char(blen - 1) == '/' {
        base.to_owned().concat(name)
    } else {
        base.to_owned().concat("/").concat(name)
    }
}

/// The repository path with trailing separators removed.
pub open spec fn rstrip_slashes(s: Seq<char>) -> Seq<char> {
    trim_back_char(s, '/')
}

/// The index of the last `'/'` in `s`, or `-1` when there is none.
pub open spec fn last_slash(s: Seq<char>) -> int
    decreases s.len(),
{
    if s.len() == 0 {
        -1
    } else if s.last() == '/' {
        s.len() - 1
    } else {
        last_slash(s.drop_last())
    }
}

proof fn lemma_last_slash_props(s: Seq<char>)
    ensures
        -1 <= last_slash(s) < s.len(),
        last_slash(s) >= 0 ==> s[last_slash(s)] == '/',
        forall|k: int| last_slash(s) < k < s.len() ==> s[k] != '/',
    decreases s.len(),
{
    if s.len() == 0 {
    } else if s.last() == '/' {
    } else {
        lemma_last_slash_props(s.drop_last());
        assert(forall|k: int| 0 <= k < s.len() - 1 ==> s[k] == s.drop_last()[k]);
    }
}

/// The final path segment of the repository path.
pub open spec fn spec_repo_base(repo: Seq<char>) -> Seq<char> {
    let t = rstrip_slashes(repo);
    t.skip(last_slash(t) + 1)
}

/// The directory holding the repository.
pub open spec fn spec_repo_parent(repo: Seq<char>) -> Seq<char> {
    let t = rstrip_slashes(repo);
    let ls = last_slash(t);
    if ls < 0 {
        Seq::empty()
    } else if ls == 0 {
        "/"@
    } else {
        t.take(ls)
    }
}

/// A repository path is usable when something is left after trailing
/// separators are removed and its final segment is a real name.
pub open spec fn valid_repo_path(repo: Seq<char>) -> bool {
    &&& rstrip_slashes(repo).len() > 0
    &&& spec_repo_base(repo) != "."@
    &&& spec_repo_base(repo) != ".."@
}

/// The sibling directory that holds all worktrees of the repository:
/// `<parent>/<repoBasename>-worktrees`.
pub open spec fn spec_worktrees_dir(repo: Seq<char>) -> Seq<char> {
    spec_join(spec_repo_parent(repo), spec_repo_base(repo) + "-worktrees"@)
}

/// The directory of one worktree: `<worktreesDir>/<issueId>`.
pub open spec fn spec_worktree_target(repo: Seq<char>, issue: Seq<char>) -> Seq<char> {
    spec_join(spec_worktrees_dir(repo), issue)
}

/// The two directories a creation works with.
#[derive(Debug, Clone)]
pub struct TargetLayout {
    /// `<parent>/<repoBasename>-worktrees`, created if absent.
    pub worktrees_dir: String,
    /// `<worktreesDir>/<issueId>`, the worktree itself.
    pub worktree_path: String,
}

/// Computes the worktree layout beside the repository, or rejects a
/// repository path with no usable final segment.
pub fn target_layout(repo_path: &str, issue_id: &str) -> (r: Result<TargetLayout, LifecycleError>)
    ensures
        r is Ok <==> valid_repo_path(repo_path@),
        r matches Ok(t) ==> t.worktrees_dir@ == spec_worktrees_dir(repo_path@)
            && t.worktree_path@ == spec_worktree_target(repo_path@, issue_id@),
        r matches Err(e) ==> e matches LifecycleError::InvalidPath(m)
            && m@ == "Invalid repo path"@,
{
    let len = repo_path.unicode_len();
    let mut end: usize = len;
    while end > 0 && repo_path.get_char(end - 1) == '/'
        invariant
            len == repo_path@.len(),
            end <= len,
            forall|j: int| end <= j < len ==> repo_path@[j] == '/',
        decreases end,
    {
        end -= 1;
    }
    proof {
        lemma_trim_back_char_exact(repo_path@, '/', end as int);
    }
    let ghost t = rstrip_slashes(repo_path@);
    proof {
        assert(t == repo_path@.take(end as int));
        assert(t.len() == end);
    }
    if end == 0 {
        return Err(LifecycleError::InvalidPath(String::from_str("Invalid repo path")));
    }
    // scan backwards for the last separator inside the stripped path
    let mut j: usize = end;
    while j > 0 && repo_path.get_char(j - 1) != '/'
        invariant
            len == repo_path@.len(),
            end <= len,
            t == repo_path@.take(end as int),
            t.len() == end,
            j <= end,
            forall|k: int| j <= k < end ==> repo_path@[k] != '/',
        decreases j,
    {
        j -= 1;
    }
    proof {
        lemma_last_slash_props(t);
        assert(forall|k: int| 0 <= k < end ==> t[k] == repo_path@[k]);
        if j > 0 {
            assert(t[j - 1] == '/');
            assert(last_slash(t) == j - 1);
        } else {
            if last_slash(t) >= 0 {
                assert(t[last_slash(t)] == '/');
            }
            assert(last_slash(t) == -1);
        }
    }
    let base = repo_path.substring_char(j, end);
    proof {
        assert(base@ =~= t.skip(last_slash(t) + 1));
    }
    if str_eq(base, ".") || str_eq(base, "..") {
        return Err(LifecycleError::InvalidPath(String::from_str("Invalid repo path")));
    }
    let parent: &str = if j == 0 {
        ""
    } else if j == 1 {
        "/"
    } else {
        repo_path.substring_char(0, j - 1)
    };
    proof {
        if j == 0 {
            reveal_strlit("");
            assert(parent@ =~= spec_repo_parent(repo_path@));
        } else if j == 1 {
            assert(parent@ == spec_repo_parent(repo_path@));
        } else {
            assert(parent@ =~= t.take(j - 1));
        }
    }
    let dir_name = base.to_owned().concat("-worktrees");
    let worktrees_dir = join_path(parent, dir_name.as_str());
    let worktree_path = join_path(worktrees_dir.as_str(), issue_id);
    Ok(TargetLayout { worktrees_dir, worktree_path })
}

} // verus!
