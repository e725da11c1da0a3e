use worktrees::workspace::{
    config_or_default, default_fetch_before, sort_repos_by_id, ConfigReadResult, DiscoveredRepo,
    RepoConfig,
};

fn repo(id: &str) -> DiscoveredRepo {
    DiscoveredRepo {
        id: id.to_string(),
        path: format!("/w/{id}"),
        copy_paths: vec![],
        on_start: vec![],
        fetch_before: true,
        config_warning: None,
    }
}

#[test]
fn fetch_defaults_on() {
    assert!(default_fetch_before());
    let c = RepoConfig::default();
    assert!(c.fetch_before);
    assert!(c.copy_paths.is_empty());
    assert!(c.on_start.is_empty());
}

#[test]
fn missing_config_is_silent_default() {
    let (c, warning) = config_or_default(ConfigReadResult::Missing);
    assert!(c.fetch_before && c.copy_paths.is_empty() && c.on_start.is_empty());
    assert_eq!(warning, None);
}

#[test]
fn unreadable_config_warns_but_defaults() {
    let (c, warning) = config_or_default(ConfigReadResult::ReadError("Failed to read x".to_string()));
    assert!(c.fetch_before);
    assert_eq!(warning.as_deref(), Some("Failed to read x"));
}

#[test]
fn unparsable_config_warns_but_defaults() {
    let (c, warning) =
        config_or_default(ConfigReadResult::ParseError("Failed to parse x".to_string()));
    assert!(c.fetch_before && c.copy_paths.is_empty());
    assert_eq!(warning.as_deref(), Some("Failed to parse x"));
}

#[test]
fn parsed_config_is_taken_as_is() {
    let parsed = RepoConfig {
        copy_paths: vec![".env".to_string()],
        on_start: vec!["make setup".to_string()],
        fetch_before: false,
    };
    let (c, warning) = config_or_default(ConfigReadResult::Parsed(parsed));
    assert!(!c.fetch_before);
    assert_eq!(c.copy_paths, vec![".env".to_string()]);
    assert_eq!(c.on_start, vec!["make setup".to_string()]);
    assert_eq!(warning, None);
}

#[test]
fn repos_sort_by_id() {
    let sorted = sort_repos_by_id(vec![repo("cli"), repo("api"), repo("bot")]);
    let ids: Vec<&str> = sorted.iter().map(|r| r.id.as_str()).collect();
    assert_eq!(ids, vec!["api", "bot", "cli"]);
}

#[test]
fn repos_sort_keeps_duplicates() {
    let sorted = sort_repos_by_id(vec![repo("b"), repo("a"), repo("b")]);
    let ids: Vec<&str> = sorted.iter().map(|r| r.id.as_str()).collect();
    assert_eq!(ids, vec!["a", "b", "b"]);
}

#[test]
fn repos_sort_empty() {
    assert!(sort_repos_by_id(vec![]).is_empty());
}
