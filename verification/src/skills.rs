//! Skill discovery: frontmatter parsing and request validation.

use vstd::prelude::*;
use vstd::string::StrSliceExecFns;
use crate::text::{
    has_char, lemma_seq_skip_one, spec_find, spec_lines, spec_trim, spec_trim_char, starts_with,
    str_find, str_has_char, str_lines, str_starts_with, str_trim, str_trim_char,
};

verus! {

/// One discovered skill: its display name, its description, and the
/// plain files found in its directory.
#[derive(Debug, Clone)]
pub struct PluginSkillInfo {
    pub name: String,
    pub description: Option<String>,
    pub files: Vec<String>,
}

/// A frontmatter value cleaned the way the scanner reads it: outer
/// whitespace, then double quotes, then single quotes removed.
pub open spec fn clean_value(rest: Seq<char>) -> Seq<char> {
    spec_trim_char(spec_trim_char(spec_trim(rest), '"'), '\'')
}

/// Fold over frontmatter lines: the last `name:` and `description:`
/// lines win.
pub open spec fn fm_fold(
    ls: Seq<Seq<char>>,
    name: Option<Seq<char>>,
    desc: Option<Seq<char>>,
) -> (Option<Seq<char>>, Option<Seq<char>>)
    decreases ls.len(),
{
    if ls.len() == 0 {
        (name, desc)
    } else {
        let t = spec_trim(ls[0]);
        if starts_with(t, "name:"@) {
            fm_fold(ls.drop_first(), Some(clean_value(t.skip("name:"@.len() as int))), desc)
        } else if starts_with(t, "description:"@) {
            fm_fold(
                ls.drop_first(),
                name,
                Some(clean_value(t.skip("description:"@.len() as int))),
            )
        } else {
            fm_fold(ls.drop_first(), name, desc)
        }
    }
}

/// The name and description held in a skill file's frontmatter: the
/// region between a leading `---` and the next `---`, read line by
/// line. A file without that frame yields nothing.
pub open spec fn spec_frontmatter(content: Seq<char>) -> (Option<Seq<char>>, Option<Seq<char>>) {
    if starts_with(content, "---"@) {
        let stripped = content.skip("---"@.len() as int);
        let e = spec_find(stripped, "---"@);
        if e >= 0 {
            fm_fold(spec_lines(stripped.take(e)), None, None)
        } else {
            (None, None)
        }
    } else {
        (None, None)
    }
}

/// An optional owned string carries exactly an optional value.
pub open spec fn opt_str_is(o: Option<String>, s: Option<Seq<char>>) -> bool {
    match (o, s) {
        (Some(x), Some(y)) => x@ == y,
        (None, None) => true,
        _ => false,
    }
}

/// Reads `name:` and `description:` from a skill file's YAML-like
/// frontmatter, stated against `spec_frontmatter`.
pub fn parse_skill_frontmatter(content: &str) -> (r: (Option<String>, Option<String>))
    ensures
        opt_str_is(r.0, spec_frontmatter(content@).0),
        opt_str_is(r.1, spec_frontmatter(content@).1),
{
    if !str_starts_with(content, "---") {
        return (None, None);
    }
    let plen = "---".unicode_len();
    let stripped = content.substring_char(plen, content.unicode_len());
    proof {
        assert(stripped@ =~= content@.skip("---"@.len() as int));
    }
    let e = match str_find(stripped, "---") {
        Some(e) => e,
        None => {
            return (None, None);
        },
    };
    let frontmatter = stripped.substring_char(0, e);
    proof {
        assert(frontmatter@ =~= stripped@.take(e as int));
    }
    let lines = str_lines(frontmatter);
    let ghost ls = lines.deep_view();
    let mut name: Option<String> = None;
    let mut desc: Option<String> = None;
    let mut i: usize = 0;
    proof {
        assert(ls.skip(0) =~= ls);
    }
    while i < lines.len()
        invariant
            i <= lines.len(),
            ls == lines.deep_view(),
            ls.len() == lines@.len(),
            fm_fold(ls, None, None) == fm_fold(
                ls.skip(i as int),
                match name {
                    Some(ref x) => Some(x@),
                    None => None,
                },
                match desc {
                    Some(ref x) => Some(x@),
                    None => None,
                },
            ),
        decreases lines.len() - i,
    {
        let line: &str = lines[i];
        proof {
            assert(line@ == ls[i as int]);
            lemma_seq_skip_one(ls, i as int);
        }
        let t = str_trim(line);
        if str_starts_with(t, "name:") {
            let klen = "name:".unicode_len();
            let rest = t.substring_char(klen, t.unicode_len());
            proof {
                assert(rest@ =~= spec_trim(line@).skip("name:"@.len() as int));
            }
            let v = str_trim_char(str_trim_char(str_trim(rest), '"'), '\'');
            name = Some(v.to_owned());
        } else if str_starts_with(t, "description:") {
            let klen = "description:".unicode_len();
            let rest = t.substring_char(klen, t.unicode_len());
            proof {
                assert(rest@ =~= spec_trim(line@).skip("description:"@.len() as int));
            }
            let v = str_trim_char(str_trim_char(str_trim(rest), '"'), '\'');
            desc = Some(v.to_owned());
        }
        i += 1;
    }
    proof {
        assert(ls.skip(ls.len() as int) =~= Seq::<Seq<char>>::empty());
    }
    (name, desc)
}

/// A path component of a skill-file request must name a plain entry:
/// no separators, no NUL.
pub open spec fn valid_skill_component(s: Seq<char>) -> bool {
    !has_char(s, '/') && !has_char(s, '\\') && !has_char(s, '\u{0}')
}

/// Validates the two components of a skill-file read request, in the
/// order the request names them.
pub fn validate_skill_request(skill_name: &str, filename: &str) -> (r: Result<(), String>)
    ensures
        r is Ok <==> valid_skill_component(skill_name@) && valid_skill_component(filename@),
        r matches Err(m) ==> m@ == (if !valid_skill_component(skill_name@) {
            "Invalid skill name"@
        } else {
            "Invalid filename"@
        }),
{
    if str_has_char(skill_name, '/') || str_has_char(skill_name, '\\') || str_has_char(
        skill_name,
        '\u{0}',
    ) {
        return Err("Invalid skill name".to_owned());
    }
    if str_has_char(filename, '/') || str_has_char(filename, '\\') || str_has_char(
        filename,
        '\u{0}',
    ) {
        return Err("Invalid filename".to_owned());
    }
    Ok(())
}

/// Assembles one skill's listing entry: the frontmatter name when the
/// skill file could be read and named itself, the folder name
/// otherwise; the description only from the frontmatter.
pub fn skill_entry(folder_name: String, content: Option<&str>, files: Vec<String>) -> (r:
    PluginSkillInfo)
    ensures
        content matches Some(c) ==> ({
            let parsed = spec_frontmatter(c@);
            &&& (parsed.0 matches Some(n) ==> r.name@ == n)
            &&& (parsed.0 is None ==> r.name@ == folder_name@)
            &&& opt_str_is(r.description, parsed.1)
        }),
        content is None ==> r.name@ == folder_name@ && r.description is None,
        r.files == files,
{
    match content {
        Some(c) => {
            let (name, description) = parse_skill_frontmatter(c);
            let final_name = match name {
                Some(n) => n,
                None => folder_name,
            };
            PluginSkillInfo { name: final_name, description, files }
        },
        None => PluginSkillInfo { name: folder_name, description: None, files },
    }
}

} // verus!
