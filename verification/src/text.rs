//! Character and string helpers shared by the parsers.

use vstd::prelude::*;
use vstd::string::StrSliceExecFns;

verus! {

/// The characters that `str::trim` removes, per the documented
/// Unicode `White_Space` property.
pub open spec fn is_space(c: char) -> bool {
    c == ' ' || c == '\t' || c == '\n' || c == '\r' || c == '\u{b}' || c == '\u{c}'
        || c == '\u{85}' || c == '\u{a0}' || c == '\u{1680}' || c == '\u{2000}'
        || c == '\u{2001}' || c == '\u{2002}' || c == '\u{2003}' || c == '\u{2004}'
        || c == '\u{2005}' || c == '\u{2006}' || c == '\u{2007}' || c == '\u{2008}'
        || c == '\u{2009}' || c == '\u{200a}' || c == '\u{2028}' || c == '\u{2029}'
        || c == '\u{202f}' || c == '\u{205f}' || c == '\u{3000}'
}

pub fn is_space_char(c: char) -> (r: bool)
    ensures
        r == is_space(c),
{
    c == ' ' || c == '\t' || c == '\n' || c == '\r' || c == '\u{b}' || c == '\u{c}'
        || c == '\u{85}' || c == '\u{a0}' || c == '\u{1680}' || c == '\u{2000}'
        || c == '\u{2001}' || c == '\u{2002}' || c == '\u{2003}' || c == '\u{2004}'
        || c == '\u{2005}' || c == '\u{2006}' || c == '\u{2007}' || c == '\u{2008}'
        || c == '\u{2009}' || c == '\u{200a}' || c == '\u{2028}' || c == '\u{2029}'
        || c == '\u{202f}' || c == '\u{205f}' || c == '\u{3000}'
}

/// Character-wise string equality.
pub fn str_eq(a: &str, b: &str) -> (r: bool)
    ensures
        r == (a@ == b@),
{
    let alen = a.unicode_len();
    let blen = b.unicode_len();
    if alen != blen {
        return false;
    }
    let mut i: usize = 0;
    while i < alen
        invariant
            alen == a@.len(),
            blen == b@.len(),
            alen == blen,
            i <= alen,
            forall|j: int| 0 <= j < i ==> a@[j] == b@[j],
        decreases alen - i,
    {
        if a.get_char(i) != b.get_char(i) {
            return false;
        }
        i += 1;
    }
    proof {
        assert(a@ =~= b@);
    }
    true
}

pub open spec fn starts_with(s: Seq<char>, p: Seq<char>) -> bool {
    p.len() <= s.len() && s.subrange(0, p.len() as int) == p
}

pub fn str_starts_with(s: &str, p: &str) -> (r: bool)
    ensures
        r == starts_with(s@, p@),
{
    let slen = s.unicode_len();
    let plen = p.unicode_len();
    if plen > slen {
        return false;
    }
    let mut i: usize = 0;
    while i < plen
        invariant
            slen == s@.len(),
            plen == p@.len(),
            plen <= slen,
            i <= plen,
            forall|j: int| 0 <= j < i ==> s@[j] == p@[j],
        decreases plen - i,
    {
        if s.get_char(i) != p.get_char(i) {
            proof {
                assert(s@.subrange(0, p@.len() as int)[i as int] == s@[i as int]);
            }
            return false;
        }
        i += 1;
    }
    proof {
        assert(s@.subrange(0, p@.len() as int) =~= p@);
    }
    true
}

/// `p` occurs in `s` at position `i`.
pub open spec fn matches_at(s: Seq<char>, p: Seq<char>, i: int) -> bool {
    0 <= i && i + p.len() <= s.len() && s.subrange(i, i + p.len()) == p
}

pub open spec fn contains_seq(s: Seq<char>, p: Seq<char>) -> bool {
    exists|i: int| matches_at(s, p, i)
}

fn str_matches_at(s: &str, p: &str, i: usize) -> (r: bool)
    requires
        i + p@.len() <= s@.len(),
    ensures
        r == matches_at(s@, p@, i as int),
{
    let slen = s.unicode_len();
    let plen = p.unicode_len();
    let mut j: usize = 0;
    while j < plen
        invariant
            slen == s@.len(),
            plen == p@.len(),
            i + plen <= s@.len(),
            j <= plen,
            forall|k: int| 0 <= k < j ==> s@[i + k] == p@[k],
        decreases plen - j,
    {
        if s.get_char(i + j) != p.get_char(j) {
            proof {
                assert(s@.subrange(i as int, i + p@.len())[j as int] == s@[i + j]);
            }
            return false;
        }
        j += 1;
    }
    proof {
        assert(s@.subrange(i as int, i + p@.len()) =~= p@);
    }
    true
}

/// Substring search, as `str::contains` reports it.
pub fn str_contains(s: &str, p: &str) -> (r: bool)
    ensures
        r == contains_seq(s@, p@),
{
    let slen = s.unicode_len();
    let plen = p.unicode_len();
    if plen > slen {
        proof {
            assert(forall|i: int| !matches_at(s@, p@, i));
        }
        return false;
    }
    if plen == 0 {
        proof {
            assert(s@.subrange(0, 0) =~= p@);
            assert(matches_at(s@, p@, 0));
        }
        return true;
    }
    let mut i: usize = 0;
    while i <= slen - plen
        invariant
            slen == s@.len(),
            plen == p@.len(),
            0 < plen <= slen,
            i <= slen,
            forall|k: int| 0 <= k < i ==> !matches_at(s@, p@, k),
        decreases slen - i,
    {
        if str_matches_at(s, p, i) {
            return true;
        }
        i += 1;
    }
    proof {
        assert(forall|k: int| matches_at(s@, p@, k) ==> 0 <= k && k + plen <= slen);
    }
    false
}

/// The least index at which `p` occurs in `s`, or `-1` when it does not.
pub open spec fn spec_find(s: Seq<char>, p: Seq<char>) -> int
    decreases s.len(),
{
    if starts_with(s, p) {
        0
    } else if s.len() == 0 {
        -1
    } else {
        let r = spec_find(s.drop_first(), p);
        if r < 0 {
            -1
        } else {
            1 + r
        }
    }
}

proof fn lemma_matches_shift(s: Seq<char>, p: Seq<char>, k: int)
    requires
        k >= 1,
        s.len() >= 1,
    ensures
        matches_at(s, p, k) == matches_at(s.drop_first(), p, k - 1),
{
    if k + p.len() <= s.len() {
        assert(s.subrange(k, k + p.len()) =~= s.drop_first().subrange(k - 1, k - 1 + p.len()));
    }
}

proof fn lemma_find_props(s: Seq<char>, p: Seq<char>)
    ensures
        spec_find(s, p) >= -1,
        spec_find(s, p) >= 0 ==> matches_at(s, p, spec_find(s, p)),
        forall|k: int| 0 <= k && (spec_find(s, p) == -1 || k < spec_find(s, p))
            ==> !matches_at(s, p, k),
    decreases s.len(),
{
    if starts_with(s, p) {
        assert(matches_at(s, p, 0));
    } else if s.len() == 0 {
        assert forall|k: int| 0 <= k implies !matches_at(s, p, k) by {
            if matches_at(s, p, k) {
                assert(k == 0 && p.len() == 0);
                assert(s.subrange(0, 0) == p);
                assert(starts_with(s, p));
            }
        }
    } else {
        lemma_find_props(s.drop_first(), p);
        let r = spec_find(s.drop_first(), p);
        if r >= 0 {
            lemma_matches_shift(s, p, 1 + r);
        }
        assert forall|k: int| 0 <= k && (spec_find(s, p) == -1 || k < spec_find(s, p))
            implies !matches_at(s, p, k) by {
            if k == 0 {
                if matches_at(s, p, 0) {
                    assert(starts_with(s, p));
                }
            } else {
                lemma_matches_shift(s, p, k);
            }
        }
    }
}

/// `str::find` for a literal pattern: the least occurrence index.
pub fn str_find(s: &str, p: &str) -> (r: Option<usize>)
    ensures
        r matches Some(i) ==> i as int == spec_find(s@, p@) && matches_at(s@, p@, i as int),
        r is None ==> spec_find(s@, p@) == -1,
{
    proof {
        lemma_find_props(s@, p@);
    }
    let slen = s.unicode_len();
    let plen = p.unicode_len();
    if plen > slen {
        return None;
    }
    if plen == 0 {
        proof {
            assert(s@.subrange(0, 0) =~= p@);
        }
        return Some(0);
    }
    let mut i: usize = 0;
    while i <= slen - plen
        invariant
            slen == s@.len(),
            plen == p@.len(),
            0 < plen <= slen,
            i <= slen,
            forall|k: int| 0 <= k < i ==> !matches_at(s@, p@, k),
        decreases slen - i,
    {
        if str_matches_at(s, p, i) {
            proof {
                lemma_find_props(s@, p@);
                let f = spec_find(s@, p@);
                assert(f >= 0);
                if f < i {
                    assert(!matches_at(s@, p@, f));
                }
                if f > i {
                    assert(!matches_at(s@, p@, i as int));
                }
            }
            return Some(i);
        }
        i += 1;
    }
    proof {
        lemma_find_props(s@, p@);
        assert(forall|k: int| matches_at(s@, p@, k) ==> 0 <= k && k + plen <= slen);
        let f = spec_find(s@, p@);
        if f >= 0 {
            assert(!matches_at(s@, p@, f));
        }
    }
    None
}

/// Relies on String::push: appends exactly the one given character.
#[verifier::external_body]
pub fn push_char(s: &mut String, c: char)
    ensures
        final(s)@ == old(s)@.push(c),
{
    s.push(c);
}

/// `s` holds the character `c` somewhere.
pub open spec fn has_char(s: Seq<char>, c: char) -> bool {
    exists|i: int| 0 <= i < s.len() && s[i] == c
}

/// `str::contains(c)` for a single character.
pub fn str_has_char(s: &str, c: char) -> (r: bool)
    ensures
        r == has_char(s@, c),
{
    let len = s.unicode_len();
    let mut i: usize = 0;
    while i < len
        invariant
            len == s@.len(),
            i <= len,
            forall|j: int| 0 <= j < i ==> s@[j] != c,
        decreases len - i,
    {
        if s.get_char(i) == c {
            return true;
        }
        i += 1;
    }
    false
}

pub open spec fn trim_front(s: Seq<char>) -> Seq<char>
    decreases s.len(),
{
    if s.len() > 0 && is_space(s[0]) {
        trim_front(s.drop_first())
    } else {
        s
    }
}

pub open spec fn trim_back(s: Seq<char>) -> Seq<char>
    decreases s.len(),
{
    if s.len() > 0 && is_space(s.last()) {
        trim_back(s.drop_last())
    } else {
        s
    }
}

/// What `str::trim` leaves of `s`.
pub open spec fn spec_trim(s: Seq<char>) -> Seq<char> {
    trim_back(trim_front(s))
}

proof fn lemma_trim_front_exact(s: Seq<char>, i: int)
    requires
        0 <= i <= s.len(),
        forall|j: int| 0 <= j < i ==> is_space(s[j]),
        i == s.len() || !is_space(s[i]),
    ensures
        trim_front(s) == s.skip(i),
    decreases i,
{
    if i == 0 {
        assert(s.skip(0) =~= s);
    } else {
        assert(is_space(s[0]));
        lemma_trim_front_exact(s.drop_first(), i - 1);
        assert(s.drop_first().skip(i - 1) =~= s.skip(i));
    }
}

proof fn lemma_trim_back_exact(s: Seq<char>, e: int)
    requires
        0 <= e <= s.len(),
        forall|j: int| e <= j < s.len() ==> is_space(s[j]),
        e == 0 || !is_space(s[e - 1]),
    ensures
        trim_back(s) == s.take(e),
    decreases s.len(),
{
    if e == s.len() {
        assert(s.take(e) =~= s);
    } else {
        assert(is_space(s.last()));
        lemma_trim_back_exact(s.drop_last(), e);
        assert(s.drop_last().take(e) =~= s.take(e));
    }
}

/// `str::trim`, stated against `spec_trim`.
pub fn str_trim<'a>(s: &'a str) -> (r: &'a str)
    ensures
        r@ == spec_trim(s@),
{
    let len = s.unicode_len();
    let mut start: usize = 0;
    while start < len && is_space_char(s.get_char(start))
        invariant
            len == s@.len(),
            start <= len,
            forall|j: int| 0 <= j < start ==> is_space(s@[j]),
        decreases len - start,
    {
        start += 1;
    }
    let mut end: usize = len;
    while end > start && is_space_char(s.get_char(end - 1))
        invariant
            len == s@.len(),
            start <= end <= len,
            forall|j: int| end <= j < len ==> is_space(s@[j]),
        decreases end,
    {
        end -= 1;
    }
    let r = s.substring_char(start, end);
    proof {
        lemma_trim_front_exact(s@, start as int);
        let t = s@.skip(start as int);
        lemma_trim_back_exact(t, end - start);
        assert(forall|j: int| (end - start) <= j < t.len() ==> is_space(#[trigger] t[j]));
        assert(t.take(end - start) =~= s@.subrange(start as int, end as int));
    }
    r
}

pub open spec fn trim_front_char(s: Seq<char>, c: char) -> Seq<char>
    decreases s.len(),
{
    if s.len() > 0 && s[0] == c {
        trim_front_char(s.drop_first(), c)
    } else {
        s
    }
}

pub open spec fn trim_back_char(s: Seq<char>, c: char) -> Seq<char>
    decreases s.len(),
{
    if s.len() > 0 && s.last() == c {
        trim_back_char(s.drop_last(), c)
    } else {
        s
    }
}

/// What `str::trim_matches(c)` leaves of `s`.
pub open spec fn spec_trim_char(s: Seq<char>, c: char) -> Seq<char> {
    trim_back_char(trim_front_char(s, c), c)
}

proof fn lemma_trim_front_char_exact(s: Seq<char>, c: char, i: int)
    requires
        0 <= i <= s.len(),
        forall|j: int| 0 <= j < i ==> s[j] == c,
        i == s.len() || s[i] != c,
    ensures
        trim_front_char(s, c) == s.skip(i),
    decreases i,
{
    if i == 0 {
        assert(s.skip(0) =~= s);
    } else {
        lemma_trim_front_char_exact(s.drop_first(), c, i - 1);
        assert(s.drop_first().skip(i - 1) =~= s.skip(i));
    }
}

pub proof fn lemma_trim_back_char_exact(s: Seq<char>, c: char, e: int)
    requires
        0 <= e <= s.len(),
        forall|j: int| e <= j < s.len() ==> s[j] == c,
        e == 0 || s[e - 1] != c,
    ensures
        trim_back_char(s, c) == s.take(e),
    decreases s.len(),
{
    if e == s.len() {
        assert(s.take(e) =~= s);
    } else {
        lemma_trim_back_char_exact(s.drop_last(), c, e);
        assert(s.drop_last().take(e) =~= s.take(e));
    }
}

/// One trailing carriage return removed, as `str::lines` does per line.
pub open spec fn strip_cr(s: Seq<char>) -> Seq<char> {
    if s.len() > 0 && s.last() == '\r' {
        s.drop_last()
    } else {
        s
    }
}

/// Fold behind `spec_lines`: `cur` is the line being accumulated.
pub open spec fn lines_rec(s: Seq<char>, cur: Seq<char>) -> Seq<Seq<char>>
    decreases s.len(),
{
    if s.len() == 0 {
        if cur.len() == 0 {
            Seq::empty()
        } else {
            seq![cur]
        }
    } else if s[0] == '\n' {
        seq![strip_cr(cur)] + lines_rec(s.drop_first(), Seq::empty())
    } else {
        lines_rec(s.drop_first(), cur.push(s[0]))
    }
}

/// The lines of `s`, as `str::lines` yields them: split at `'\n'`,
/// one trailing `'\r'` removed per terminated line, no final empty
/// line when the text ends with a newline.
pub open spec fn spec_lines(s: Seq<char>) -> Seq<Seq<char>> {
    lines_rec(s, Seq::empty())
}

pub proof fn lemma_seq_skip_one<T>(s: Seq<T>, i: int)
    requires
        0 <= i < s.len(),
    ensures
        s.skip(i).drop_first() =~= s.skip(i + 1),
        s.skip(i)[0] == s[i],
        s.skip(i).len() == s.len() - i,
{
}

pub proof fn lemma_subrange_push<T>(s: Seq<T>, a: int, i: int)
    requires
        0 <= a <= i < s.len(),
    ensures
        s.subrange(a, i).push(s[i]) =~= s.subrange(a, i + 1),
{
}

/// `str::lines`, stated against `spec_lines`.
pub fn str_lines<'a>(s: &'a str) -> (r: Vec<&'a str>)
    ensures
        r.deep_view() == spec_lines(s@),
{
    let len = s.unicode_len();
    let mut r: Vec<&'a str> = Vec::new();
    let mut i: usize = 0;
    let mut line_start: usize = 0;
    proof {
        assert(s@.skip(0) =~= s@);
        assert(s@.subrange(0, 0) =~= Seq::<char>::empty());
        assert(r.deep_view() =~= Seq::<Seq<char>>::empty());
        assert(r.deep_view() + lines_rec(s@, Seq::empty()) =~= lines_rec(s@, Seq::empty()));
    }
    while i < len
        invariant
            len == s@.len(),
            line_start <= i <= len,
            spec_lines(s@) == r.deep_view() + lines_rec(
                s@.skip(i as int),
                s@.subrange(line_start as int, i as int),
            ),
        decreases len - i,
    {
        let ghost cur = s@.subrange(line_start as int, i as int);
        let c = s.get_char(i);
        proof {
            lemma_seq_skip_one(s@, i as int);
        }
        if c == '\n' {
            let line = if i > line_start && s.get_char(i - 1) == '\r' {
                s.substring_char(line_start, i - 1)
            } else {
                s.substring_char(line_start, i)
            };
            proof {
                if i > line_start && s@[i - 1] == '\r' {
                    assert(cur.last() == s@[i - 1]);
                    assert(cur.drop_last() =~= s@.subrange(line_start as int, i - 1));
                }
                assert(line@ == strip_cr(cur));
                assert(lines_rec(s@.skip(i as int), cur) == seq![strip_cr(cur)] + lines_rec(
                    s@.skip(i + 1),
                    Seq::empty(),
                ));
            }
            let ghost old_r = r.deep_view();
            r.push(line);
            proof {
                assert(r.deep_view() =~= old_r + seq![line@]);
                assert(old_r + (seq![strip_cr(cur)] + lines_rec(s@.skip(i + 1), Seq::empty()))
                    =~= r.deep_view() + lines_rec(s@.skip(i + 1), Seq::empty()));
                assert(s@.subrange(i + 1, i + 1) =~= Seq::<char>::empty());
            }
            line_start = i + 1;
        } else {
            proof {
                lemma_subrange_push(s@, line_start as int, i as int);
                assert(lines_rec(s@.skip(i as int), cur) == lines_rec(
                    s@.skip(i + 1),
                    cur.push(s@[i as int]),
                ));
            }
        }
        i += 1;
    }
    proof {
        assert(s@.skip(len as int) =~= Seq::<char>::empty());
    }
    if line_start < len {
        let line = s.substring_char(line_start, len);
        let ghost old_r = r.deep_view();
        r.push(line);
        proof {
            let cur = s@.subrange(line_start as int, len as int);
            assert(lines_rec(Seq::<char>::empty(), cur) == seq![cur]);
            assert(r.deep_view() =~= old_r + seq![cur]);
        }
    } else {
        proof {
            assert(s@.subrange(line_start as int, len as int) =~= Seq::<char>::empty());
            assert(lines_rec(Seq::<char>::empty(), Seq::<char>::empty())
                == Seq::<Seq<char>>::empty());
            assert(r.deep_view() + Seq::<Seq<char>>::empty() =~= r.deep_view());
        }
    }
    r
}

/// Fold behind `spec_split`.
pub open spec fn split_rec(s: Seq<char>, sep: char, cur: Seq<char>) -> Seq<Seq<char>>
    decreases s.len(),
{
    if s.len() == 0 {
        seq![cur]
    } else if s[0] == sep {
        seq![cur] + split_rec(s.drop_first(), sep, Seq::empty())
    } else {
        split_rec(s.drop_first(), sep, cur.push(s[0]))
    }
}

/// The parts of `s` between occurrences of `sep`, as `str::split`
/// yields them; an empty string gives one empty part.
pub open spec fn spec_split(s: Seq<char>, sep: char) -> Seq<Seq<char>> {
    split_rec(s, sep, Seq::empty())
}

/// `str::split(sep)`, stated against `spec_split`.
pub fn str_split_char<'a>(s: &'a str, sep: char) -> (r: Vec<&'a str>)
    ensures
        r.deep_view() == spec_split(s@, sep),
{
    let len = s.unicode_len();
    let mut r: Vec<&'a str> = Vec::new();
    let mut i: usize = 0;
    let mut seg_start: usize = 0;
    proof {
        assert(s@.skip(0) =~= s@);
        assert(s@.subrange(0, 0) =~= Seq::<char>::empty());
        assert(r.deep_view() =~= Seq::<Seq<char>>::empty());
        assert(r.deep_view() + split_rec(s@, sep, Seq::empty()) =~= split_rec(
            s@,
            sep,
            Seq::empty(),
        ));
    }
    while i < len
        invariant
            len == s@.len(),
            seg_start <= i <= len,
            spec_split(s@, sep) == r.deep_view() + split_rec(
                s@.skip(i as int),
                sep,
                s@.subrange(seg_start as int, i as int),
            ),
        decreases len - i,
    {
        let ghost cur = s@.subrange(seg_start as int, i as int);
        let c = s.get_char(i);
        proof {
            lemma_seq_skip_one(s@, i as int);
        }
        if c == sep {
            let part = s.substring_char(seg_start, i);
            proof {
                assert(split_rec(s@.skip(i as int), sep, cur) == seq![cur] + split_rec(
                    s@.skip(i + 1),
                    sep,
                    Seq::empty(),
                ));
            }
            let ghost old_r = r.deep_view();
            r.push(part);
            proof {
                assert(r.deep_view() =~= old_r + seq![cur]);
                assert(old_r + (seq![cur] + split_rec(s@.skip(i + 1), sep, Seq::empty()))
                    =~= r.deep_view() + split_rec(s@.skip(i + 1), sep, Seq::empty()));
                assert(s@.subrange(i + 1, i + 1) =~= Seq::<char>::empty());
            }
            seg_start = i + 1;
        } else {
            proof {
                lemma_subrange_push(s@, seg_start as int, i as int);
                assert(split_rec(s@.skip(i as int), sep, cur) == split_rec(
                    s@.skip(i + 1),
                    sep,
                    cur.push(s@[i as int]),
                ));
            }
        }
        i += 1;
    }
    let part = s.substring_char(seg_start, len);
    let ghost old_r = r.deep_view();
    r.push(part);
    proof {
        let cur = s@.subrange(seg_start as int, len as int);
        assert(s@.skip(len as int) =~= Seq::<char>::empty());
        assert(split_rec(Seq::<char>::empty(), sep, cur) == seq![cur]);
        assert(r.deep_view() =~= old_r + seq![cur]);
    }
    r
}

/// Fold behind `spec_splitn`: `rem` parts may still be produced.
pub open spec fn splitn_rec(s: Seq<char>, sep: char, rem: int, cur: Seq<char>) -> Seq<Seq<char>>
    decreases s.len(),
{
    if s.len() == 0 || rem <= 1 {
        seq![cur + s]
    } else if s[0] == sep {
        seq![cur] + splitn_rec(s.drop_first(), sep, rem - 1, Seq::empty())
    } else {
        splitn_rec(s.drop_first(), sep, rem, cur.push(s[0]))
    }
}

/// `str::splitn(n, sep)`: at most `n` parts, the last one unsplit.
pub open spec fn spec_splitn(s: Seq<char>, sep: char, n: int) -> Seq<Seq<char>> {
    splitn_rec(s, sep, n, Seq::empty())
}

/// `str::splitn(n, sep)`, stated against `spec_splitn`.
pub fn str_splitn_char<'a>(s: &'a str, n: usize, sep: char) -> (r: Vec<&'a str>)
    requires
        n >= 1,
    ensures
        r.deep_view() == spec_splitn(s@, sep, n as int),
{
    let len = s.unicode_len();
    let mut r: Vec<&'a str> = Vec::new();
    let mut i: usize = 0;
    let mut seg_start: usize = 0;
    proof {
        assert(s@.skip(0) =~= s@);
        assert(s@.subrange(0, 0) =~= Seq::<char>::empty());
        assert(r.deep_view() =~= Seq::<Seq<char>>::empty());
        assert(r.deep_view() + splitn_rec(s@, sep, n as int, Seq::empty()) =~= splitn_rec(
            s@,
            sep,
            n as int,
            Seq::empty(),
        ));
    }
    while i < len && r.len() < n - 1
        invariant
            len == s@.len(),
            seg_start <= i <= len,
            r.len() < n,
            spec_splitn(s@, sep, n as int) == r.deep_view() + splitn_rec(
                s@.skip(i as int),
                sep,
                n - r.len(),
                s@.subrange(seg_start as int, i as int),
            ),
        decreases len - i,
    {
        let ghost cur = s@.subrange(seg_start as int, i as int);
        let c = s.get_char(i);
        proof {
            lemma_seq_skip_one(s@, i as int);
        }
        if c == sep {
            let part = s.substring_char(seg_start, i);
            proof {
                assert(splitn_rec(s@.skip(i as int), sep, n - r.len(), cur) == seq![cur]
                    + splitn_rec(s@.skip(i + 1), sep, n - r.len() - 1, Seq::empty()));
            }
            let ghost old_r = r.deep_view();
            r.push(part);
            proof {
                assert(r.deep_view() =~= old_r + seq![cur]);
                assert(old_r + (seq![cur] + splitn_rec(s@.skip(i + 1), sep, n - r.len(), Seq::empty()))
                    =~= r.deep_view() + splitn_rec(s@.skip(i + 1), sep, n - r.len(), Seq::empty()));
                assert(s@.subrange(i + 1, i + 1) =~= Seq::<char>::empty());
            }
            seg_start = i + 1;
        } else {
            proof {
                lemma_subrange_push(s@, seg_start as int, i as int);
                assert(splitn_rec(s@.skip(i as int), sep, n - r.len(), cur) == splitn_rec(
                    s@.skip(i + 1),
                    sep,
                    n - r.len(),
                    cur.push(s@[i as int]),
                ));
            }
        }
        i += 1;
    }
    let part = s.substring_char(seg_start, len);
    let ghost old_r = r.deep_view();
    r.push(part);
    proof {
        let cur = s@.subrange(seg_start as int, i as int);
        let rest = s@.skip(i as int);
        assert(splitn_rec(rest, sep, n - old_r.len(), cur) == seq![cur + rest]);
        assert(cur + rest =~= s@.subrange(seg_start as int, len as int));
        assert(r.deep_view() =~= old_r + seq![s@.subrange(seg_start as int, len as int)]);
    }
    r
}

pub open spec fn is_digit(c: char) -> bool {
    48 <= c as u32 <= 57
}

pub open spec fn all_digits(s: Seq<char>) -> bool {
    forall|i: int| 0 <= i < s.len() ==> is_digit(#[trigger] s[i])
}

/// The number written in decimal digits `s` (most significant first).
pub open spec fn digits_val(s: Seq<char>) -> int
    decreases s.len(),
{
    if s.len() == 0 {
        0
    } else {
        digits_val(s.drop_last()) * 10 + (s.last() as u32 - 48)
    }
}

proof fn lemma_digits_val_nonneg(s: Seq<char>)
    requires
        all_digits(s),
    ensures
        digits_val(s) >= 0,
    decreases s.len(),
{
    if s.len() > 0 {
        assert(all_digits(s.drop_last()));
        lemma_digits_val_nonneg(s.drop_last());
    }
}

/// The digits of a decimal literal: an optional leading `'+'` removed.
pub open spec fn parse_tail(s: Seq<char>) -> Seq<char> {
    if s.len() > 0 && s[0] == '+' {
        s.drop_first()
    } else {
        s
    }
}

/// What `str::parse::<u32>().unwrap_or(0)` yields: the written value
/// when `s` is an optional `'+'` followed only by digits and the value
/// fits in `u32`; zero otherwise.
pub open spec fn spec_parse_u32_or_zero(s: Seq<char>) -> u32 {
    let t = parse_tail(s);
    if t.len() > 0 && all_digits(t) && digits_val(t) <= u32::MAX {
        digits_val(t) as u32
    } else {
        0
    }
}

/// `str::parse::<u32>().unwrap_or(0)`, stated against
/// `spec_parse_u32_or_zero`.
pub fn parse_u32_or_zero(s: &str) -> (r: u32)
    ensures
        r == spec_parse_u32_or_zero(s@),
{
    let len = s.unicode_len();
    let start: usize = if len > 0 && s.get_char(0) == '+' {
        1
    } else {
        0
    };
    let ghost t = parse_tail(s@);
    proof {
        assert(t =~= s@.skip(start as int));
    }
    if start == len {
        return 0;
    }
    let mut acc: u64 = 0;
    let mut over: bool = false;
    let mut i: usize = start;
    while i < len
        invariant
            len == s@.len(),
            start <= i <= len,
            t == parse_tail(s@),
            t == s@.skip(start as int),
            forall|j: int| start <= j < i ==> is_digit(#[trigger] s@[j]),
            !over ==> acc == digits_val(s@.subrange(start as int, i as int)) && acc <= u32::MAX,
            over ==> digits_val(s@.subrange(start as int, i as int)) > u32::MAX,
        decreases len - i,
    {
        let c = s.get_char(i);
        let cv = c as u32;
        if !(48 <= cv && cv <= 57) {
            proof {
                assert(t[i - start] == s@[i as int]);
                assert(!is_digit(t[i - start]));
                assert(!all_digits(t));
            }
            return 0;
        }
        let d: u64 = (cv - 48) as u64;
        let ghost pre = s@.subrange(start as int, i as int);
        proof {
            lemma_subrange_push(s@, start as int, i as int);
            assert(s@.subrange(start as int, i + 1).drop_last() =~= pre);
            assert(digits_val(s@.subrange(start as int, i + 1)) == digits_val(pre) * 10 + d);
        }
        if over {
            proof {
                assert(digits_val(pre) * 10 >= digits_val(pre));
            }
        } else {
            let next = acc * 10 + d;
            if next > 0xffff_ffff {
                over = true;
            } else {
                acc = next;
            }
        }
        i += 1;
    }
    proof {
        assert(s@.subrange(start as int, len as int) =~= t);
        assert(t.len() > 0);
        assert(all_digits(t));
    }
    if over {
        0
    } else {
        proof {
            lemma_digits_val_nonneg(t);
        }
        acc as u32
    }
}

/// `str::trim_matches(c)`, stated against `spec_trim_char`.
pub fn str_trim_char<'a>(s: &'a str, c: char) -> (r: &'a str)
    ensures
        r@ == spec_trim_char(s@, c),
{
    let len = s.unicode_len();
    let mut start: usize = 0;
    while start < len && s.get_char(start) == c
        invariant
            len == s@.len(),
            start <= len,
            forall|j: int| 0 <= j < start ==> s@[j] == c,
        decreases len - start,
    {
        start += 1;
    }
    let mut end: usize = len;
    while end > start && s.get_char(end - 1) == c
        invariant
            len == s@.len(),
            start <= end <= len,
            forall|j: int| end <= j < len ==> s@[j] == c,
        decreases end,
    {
        end -= 1;
    }
    let r = s.substring_char(start, end);
    proof {
        lemma_trim_front_char_exact(s@, c, start as int);
        let t = s@.skip(start as int);
        lemma_trim_back_char_exact(t, c, end - start);
        assert(forall|j: int| (end - start) <= j < t.len() ==> #[trigger] t[j] == c);
        assert(t.take(end - start) =~= s@.subrange(start as int, end as int));
    }
    r
}

} // verus!
