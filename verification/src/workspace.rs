//! Workspace scanning: per-repository configuration defaulting and
//! the stable ordering of discovered repositories.

use vstd::prelude::*;
use vstd::multiset::Multiset;
use vstd::string::StrSliceExecFns;

verus! {

/// The per-repository configuration read from the JSON sidecar file.
#[derive(Debug)]
pub struct RepoConfig {
    pub copy_paths: Vec<String>,
    pub on_start: Vec<String>,
    pub fetch_before: bool,
}

/// Fetching before creation is on unless the sidecar turns it off.
pub fn default_fetch_before() -> (b: bool)
    ensures
        b,
{
    true
}

impl Default for RepoConfig {
    /// The configuration an absent or unreadable sidecar yields.
    fn default() -> (c: RepoConfig)
        ensures
            c.copy_paths@.len() == 0,
            c.on_start@.len() == 0,
            c.fetch_before,
    {
        RepoConfig { copy_paths: Vec::new(), on_start: Vec::new(), fetch_before: true }
    }
}

/// One repository found in the workspace directory.
#[derive(Debug)]
pub struct DiscoveredRepo {
    pub id: String,
    pub path: String,
    pub copy_paths: Vec<String>,
    pub on_start: Vec<String>,
    pub fetch_before: bool,
    pub config_warning: Option<String>,
}

/// What the driver saw when it looked for a repository's sidecar
/// file: no file, an unreadable file, an unparsable one (each with
/// the message the driver formed), or the parsed configuration.
#[derive(Debug)]
pub enum ConfigReadResult {
    Missing,
    ReadError(String),
    ParseError(String),
    Parsed(RepoConfig),
}

/// Applies the sidecar policy: a missing file is silently the
/// default; a read or parse failure is the default plus a non-fatal
/// warning; a parsed file is taken as is. Configuration trouble
/// never blocks discovery.
pub fn config_or_default(res: ConfigReadResult) -> (r: (RepoConfig, Option<String>))
    ensures
        res is Missing ==> r.0.copy_paths@.len() == 0 && r.0.on_start@.len() == 0
            && r.0.fetch_before && r.1 is None,
        res matches ConfigReadResult::ReadError(m) ==> r.0.copy_paths@.len() == 0
            && r.0.on_start@.len() == 0 && r.0.fetch_before && (r.1 matches Some(w) && w@ == m@),
        res matches ConfigReadResult::ParseError(m) ==> r.0.copy_paths@.len() == 0
            && r.0.on_start@.len() == 0 && r.0.fetch_before && (r.1 matches Some(w) && w@ == m@),
        res matches ConfigReadResult::Parsed(c) ==> r.0 == c && r.1 is None,
{
    match res {
        ConfigReadResult::Missing => (RepoConfig::default(), None),
        ConfigReadResult::ReadError(m) => (RepoConfig::default(), Some(m)),
        ConfigReadResult::ParseError(m) => (RepoConfig::default(), Some(m)),
        ConfigReadResult::Parsed(c) => (c, None),
    }
}

/// Lexicographic order on character sequences; for valid text this
/// agrees with the byte order `String`'s own comparison uses.
pub open spec fn lex_le(a: Seq<char>, b: Seq<char>) -> bool
    decreases a.len(),
{
    if a.len() == 0 {
        true
    } else if b.len() == 0 {
        false
    } else if (a[0] as u32) < (b[0] as u32) {
        true
    } else if (b[0] as u32) < (a[0] as u32) {
        false
    } else {
        lex_le(a.drop_first(), b.drop_first())
    }
}

pub proof fn lemma_lex_total(a: Seq<char>, b: Seq<char>)
    ensures
        lex_le(a, b) || lex_le(b, a),
    decreases a.len(),
{
    if a.len() > 0 && b.len() > 0 && (a[0] as u32) == (b[0] as u32) {
        lemma_lex_total(a.drop_first(), b.drop_first());
    }
}

pub proof fn lemma_lex_trans(a: Seq<char>, b: Seq<char>, c: Seq<char>)
    requires
        lex_le(a, b),
        lex_le(b, c),
    ensures
        lex_le(a, c),
    decreases a.len(),
{
    if a.len() > 0 && b.len() > 0 && c.len() > 0 && (a[0] as u32) == (b[0] as u32) && (b[0] as u32)
        == (c[0] as u32) {
        lemma_lex_trans(a.drop_first(), b.drop_first(), c.drop_first());
    }
}

proof fn lemma_lex_skip(a: Seq<char>, b: Seq<char>, i: int)
    requires
        0 <= i <= a.len(),
        i <= b.len(),
        forall|j: int| 0 <= j < i ==> a[j] == b[j],
    ensures
        lex_le(a, b) == lex_le(a.skip(i), b.skip(i)),
    decreases i,
{
    if i > 0 {
        assert(a.len() > 0 && b.len() > 0 && a[0] == b[0]);
        lemma_lex_skip(a.drop_first(), b.drop_first(), i - 1);
        assert(a.drop_first().skip(i - 1) =~= a.skip(i));
        assert(b.drop_first().skip(i - 1) =~= b.skip(i));
    } else {
        assert(a.skip(0) =~= a);
        assert(b.skip(0) =~= b);
    }
}

/// String comparison, stated against `lex_le`.
pub fn str_le(a: &str, b: &str) -> (r: bool)
    ensures
        r == lex_le(a@, b@),
{
    let alen = a.unicode_len();
    let blen = b.unicode_len();
    let mut i: usize = 0;
    while i < alen && i < blen
        invariant
            alen == a@.len(),
            blen == b@.len(),
            i <= alen,
            i <= blen,
            forall|j: int| 0 <= j < i ==> a@[j] == b@[j],
        decreases alen - i,
    {
        let ca = a.get_char(i);
        let cb = b.get_char(i);
        if (ca as u32) < (cb as u32) {
            proof {
                lemma_lex_skip(a@, b@, i as int);
            }
            return true;
        }
        if (cb as u32) < (ca as u32) {
            proof {
                lemma_lex_skip(a@, b@, i as int);
            }
            return false;
        }
        i += 1;
    }
    proof {
        lemma_lex_skip(a@, b@, i as int);
        assert(a@.skip(i as int).len() == 0 || b@.skip(i as int).len() == 0);
    }
    alen <= blen
}

/// `rs` is ordered by repository id.
pub open spec fn sorted_by_id(rs: Seq<DiscoveredRepo>) -> bool {
    forall|i: int, j: int| 0 <= i < j < rs.len() ==> lex_le(#[trigger] rs[i].id@, #[trigger] rs[j].id@)
}

/// Sorts discovered repositories by id, for a stable listing order.
/// The result holds exactly the given repositories.
pub fn sort_repos_by_id(repos: Vec<DiscoveredRepo>) -> (r: Vec<DiscoveredRepo>)
    ensures
        r@.to_multiset() == repos@.to_multiset(),
        sorted_by_id(r@),
{
    broadcast use vstd::seq_lib::group_to_multiset_ensures;

    let mut rest = repos;
    let mut r: Vec<DiscoveredRepo> = Vec::new();
    proof {
        assert(r@.to_multiset() =~= Multiset::<DiscoveredRepo>::empty());
        assert(r@.to_multiset().add(rest@.to_multiset()) =~= repos@.to_multiset());
    }
    while rest.len() > 0
        invariant
            r@.to_multiset().add(rest@.to_multiset()) == repos@.to_multiset(),
            sorted_by_id(r@),
        decreases rest@.len(),
    {
        let ghost old_rest = rest@;
        let x = rest.remove(0);
        proof {
            old_rest.to_multiset_ensures();
            assert(old_rest.contains(old_rest[0]));
            assert(old_rest.remove(0).to_multiset() =~= old_rest.to_multiset().remove(
                old_rest[0],
            ));
            assert(old_rest.to_multiset().count(old_rest[0]) > 0);
        }
        let mut pos: usize = 0;
        while pos < r.len() && str_le(r[pos].id.as_str(), x.id.as_str())
            invariant
                pos <= r@.len(),
                forall|j: int| 0 <= j < pos ==> lex_le(#[trigger] r@[j].id@, x.id@),
            decreases r@.len() - pos,
        {
            pos += 1;
        }
        proof {
            if pos < r@.len() {
                lemma_lex_total(r@[pos as int].id@, x.id@);
            }
        }
        let ghost old_r = r@;
        let ghost xg = x;
        r.insert(pos, x);
        proof {
            let newr = r@;
            newr.to_multiset_ensures();
            assert(newr =~= old_r.insert(pos as int, xg));
            assert(newr.remove(pos as int) =~= old_r);
            assert(newr.remove(pos as int).to_multiset() =~= newr.to_multiset().remove(
                newr[pos as int],
            ));
            assert(newr.to_multiset().count(xg) > 0) by {
                assert(newr[pos as int] == xg);
                assert(newr.contains(xg));
            }
            assert(newr.to_multiset() =~= old_r.to_multiset().insert(xg));
            assert(old_r.to_multiset().insert(xg).add(rest@.to_multiset()) =~= old_r.to_multiset()
                .add(old_rest.to_multiset()));
            assert forall|i: int, j: int| 0 <= i < j < newr.len() implies lex_le(
                #[trigger] newr[i].id@,
                #[trigger] newr[j].id@,
            ) by {
                if j < pos {
                    assert(newr[i] == old_r[i] && newr[j] == old_r[j]);
                } else if i < pos && j == pos {
                    assert(newr[i] == old_r[i] && newr[j] == xg);
                } else if i < pos && j > pos {
                    assert(newr[i] == old_r[i] && newr[j] == old_r[j - 1]);
                    if j - 1 == pos {
                        lemma_lex_trans(old_r[i].id@, xg.id@, old_r[pos as int].id@);
                    } else {
                        lemma_lex_trans(xg.id@, old_r[pos as int].id@, old_r[j - 1].id@);
                        lemma_lex_trans(old_r[i].id@, xg.id@, old_r[j - 1].id@);
                    }
                } else if i == pos {
                    assert(newr[i] == xg && newr[j] == old_r[j - 1]);
                    if j - 1 > pos {
                        lemma_lex_trans(xg.id@, old_r[pos as int].id@, old_r[j - 1].id@);
                    }
                } else {
                    assert(newr[i] == old_r[i - 1] && newr[j] == old_r[j - 1]);
                }
            }
        }
    }
    proof {
        assert(rest@.to_multiset() =~= Multiset::<DiscoveredRepo>::empty());
        assert(r@.to_multiset().add(Multiset::<DiscoveredRepo>::empty()) =~= r@.to_multiset());
    }
    r
}

} // verus!
