use worktrees::skills::{parse_skill_frontmatter, skill_entry, validate_skill_request};

#[test]
fn frontmatter_reads_name_and_description() {
    let content = "---\nname: My Skill\ndescription: \"Does things\"\n---\nbody text\n";
    let (name, desc) = parse_skill_frontmatter(content);
    assert_eq!(name.as_deref(), Some("My Skill"));
    assert_eq!(desc.as_deref(), Some("Does things"));
}

#[test]
fn frontmatter_absent_yields_nothing() {
    assert_eq!(parse_skill_frontmatter("plain text"), (None, None));
    assert_eq!(parse_skill_frontmatter(""), (None, None));
}

#[test]
fn frontmatter_unterminated_yields_nothing() {
    assert_eq!(parse_skill_frontmatter("---\nname: x\n"), (None, None));
}

#[test]
fn frontmatter_strips_single_quotes_too() {
    let content = "---\ndescription: 'quoted'\n---\n";
    let (name, desc) = parse_skill_frontmatter(content);
    assert_eq!(name, None);
    assert_eq!(desc.as_deref(), Some("quoted"));
}

#[test]
fn frontmatter_last_assignment_wins() {
    let content = "---\nname: first\nname: second\n---\n";
    let (name, _) = parse_skill_frontmatter(content);
    assert_eq!(name.as_deref(), Some("second"));
}

#[test]
fn frontmatter_trims_indented_keys() {
    let content = "---\n  name:   padded  \n---\n";
    let (name, _) = parse_skill_frontmatter(content);
    assert_eq!(name.as_deref(), Some("padded"));
}

#[test]
fn skill_entry_prefers_frontmatter_name() {
    let e = skill_entry(
        "folder".to_string(),
        Some("---\nname: Nice Name\n---\n"),
        vec!["SKILL.md".to_string()],
    );
    assert_eq!(e.name, "Nice Name");
    assert_eq!(e.files, vec!["SKILL.md".to_string()]);
}

#[test]
fn skill_entry_falls_back_to_folder_name() {
    let e = skill_entry("folder".to_string(), Some("no frontmatter"), vec![]);
    assert_eq!(e.name, "folder");
    assert_eq!(e.description, None);
    let e = skill_entry("other".to_string(), None, vec![]);
    assert_eq!(e.name, "other");
}

#[test]
fn skill_request_rejects_separators_and_nul() {
    assert_eq!(validate_skill_request("a/b", "f.md").unwrap_err(), "Invalid skill name");
    assert_eq!(validate_skill_request("a\\b", "f.md").unwrap_err(), "Invalid skill name");
    assert_eq!(validate_skill_request("ok", "f/../x").unwrap_err(), "Invalid filename");
    assert_eq!(validate_skill_request("ok", "f\0").unwrap_err(), "Invalid filename");
    assert!(validate_skill_request("ok", "SKILL.md").is_ok());
}
