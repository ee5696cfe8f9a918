use pendector::formatter::OutputFormatter;
use pendector::repo::Repository;

fn create_test_repository(
    name: &str,
    has_changes: bool,
    branch: Option<&str>,
    file_count: usize,
) -> Repository {
    create_test_repository_with_remote(name, has_changes, branch, file_count, false, false, None)
}

fn create_test_repository_with_remote(
    name: &str,
    has_changes: bool,
    branch: Option<&str>,
    file_count: usize,
    needs_pull: bool,
    needs_push: bool,
    remote_branch: Option<&str>,
) -> Repository {
    let files = if file_count > 0 {
        (0..file_count).map(|i| format!("file{i}.txt")).collect()
    } else {
        Vec::new()
    };

    Repository::new(format!("/test/{name}"))
        .with_git_info(has_changes, branch.map(|s| s.to_string()), files)
        .with_remote_info(needs_pull, needs_push, remote_branch.map(|s| s.to_string()))
}

#[test]
fn test_format_repositories_empty() {
    let formatter = OutputFormatter::new(false, "text".to_string());
    let repositories = Vec::new();

    let result = formatter.format_repositories(&repositories);
    assert_eq!(result, "No repositories found.");
}

#[test]
fn test_format_repositories_single_clean() {
    let formatter = OutputFormatter::new(false, "text".to_string());
    let repositories = vec![create_test_repository("clean_repo", false, Some("main"), 0)];

    let result = formatter.format_repositories(&repositories);
    assert!(result.contains("clean_repo"));
    assert!(result.ends_with('\n'));
}

#[test]
fn test_format_repositories_single_with_changes() {
    let formatter = OutputFormatter::new(false, "text".to_string());
    let repositories = vec![create_test_repository("dirty_repo", true, Some("develop"), 3)];

    let result = formatter.format_repositories(&repositories);
    assert!(result.contains("dirty_repo"));
    assert!(result.ends_with('\n'));
}

#[test]
fn test_format_repositories_multiple() {
    let formatter = OutputFormatter::new(false, "text".to_string());
    let repositories = vec![
        create_test_repository("repo1", false, Some("main"), 0),
        create_test_repository("repo2", true, Some("feature"), 2),
        create_test_repository("repo3", false, None, 0),
    ];

    let result = formatter.format_repositories(&repositories);
    assert!(result.contains("repo1"));
    assert!(result.contains("repo2"));
    assert!(result.contains("repo3"));

    // Header (2 lines) + 3 repository lines
    assert_eq!(result.lines().count(), 5);
}

#[test]
fn test_format_repositories_verbose_mode() {
    let formatter = OutputFormatter::new(true, "text".to_string());
    let repositories = vec![
        create_test_repository("repo1", false, Some("main"), 0),
        create_test_repository("repo2", true, Some("feature/test"), 5),
        create_test_repository("repo3", true, None, 2),
    ];

    let result = formatter.format_repositories(&repositories);

    assert!(result.contains("[main]"));
    assert!(result.contains("[feature/test]"));
    assert!(result.contains("[unknown]"));

    assert!(result.contains("(0 changed files)"));
    assert!(result.contains("(5 changed files)"));
    assert!(result.contains("(2 changed files)"));
}

#[test]
fn test_format_repository_default_mode() {
    let formatter = OutputFormatter::new(false, "text".to_string());
    let repo = create_test_repository("test_repo", true, Some("main"), 3);

    let result = formatter.format_repository(&repo);
    assert!(result.contains("test_repo"));
    assert!(result.contains("[main]"));
    assert!(result.contains("changed files"));
}

#[test]
fn test_format_repository_verbose_mode() {
    let formatter = OutputFormatter::new(true, "text".to_string());
    let repo = create_test_repository("test_repo", true, Some("develop"), 7);

    let result = formatter.format_repository(&repo);
    assert!(result.contains("test_repo"));
    assert!(result.contains("[develop]"));
    assert!(result.contains("(7 changed files)"));
}

#[test]
fn test_format_repository_verbose_no_branch() {
    let formatter = OutputFormatter::new(true, "text".to_string());
    let repo = create_test_repository("test_repo", false, None, 0);

    let result = formatter.format_repository(&repo);
    assert!(result.contains("test_repo"));
    assert!(result.contains("[unknown]"));
    assert!(result.contains("(0 changed files)"));
}

#[test]
fn test_formatter_verbose_flag() {
    let verbose_formatter = OutputFormatter::new(true, "text".to_string());
    let simple_formatter = OutputFormatter::new(false, "text".to_string());

    assert!(verbose_formatter.verbose);
    assert!(!simple_formatter.verbose);
}

#[test]
fn test_format_repositories_json() {
    let formatter = OutputFormatter::new(false, "json".to_string());
    let repositories = vec![
        create_test_repository("repo1", false, Some("main"), 0),
        create_test_repository("repo2", true, Some("feature"), 2),
    ];

    let result = formatter.format_repositories(&repositories);

    assert!(serde_json::from_str::<Vec<serde_json::Value>>(&result).is_ok());

    assert!(result.contains("repo1"));
    assert!(result.contains("repo2"));
    assert!(result.contains("main"));
    assert!(result.contains("feature"));
}

#[test]
fn test_format_repositories_json_empty() {
    let formatter = OutputFormatter::new(false, "json".to_string());
    let repositories = Vec::new();

    let result = formatter.format_repositories(&repositories);
    assert_eq!(result, "[]");
}

#[test]
fn test_format_repository_with_remote_sync() {
    let formatter = OutputFormatter::new(true, "text".to_string());

    let repo_needs_push = create_test_repository_with_remote(
        "push_repo",
        false,
        Some("main"),
        0,
        false,
        true,
        Some("origin/main"),
    );
    let result = formatter.format_repository(&repo_needs_push);
    assert!(result.contains("push_repo"));
    assert!(result.contains("[main] [↑]"));
    assert!(result.contains("Remote: origin/main"));
    assert!(result.contains("needs push"));

    let repo_needs_pull = create_test_repository_with_remote(
        "pull_repo",
        false,
        Some("develop"),
        0,
        true,
        false,
        Some("origin/develop"),
    );
    let result = formatter.format_repository(&repo_needs_pull);
    assert!(result.contains("pull_repo"));
    assert!(result.contains("[develop] [↓]"));
    assert!(result.contains("Remote: origin/develop"));
    assert!(result.contains("needs pull"));

    let repo_needs_both = create_test_repository_with_remote(
        "sync_repo",
        true,
        Some("feature"),
        2,
        true,
        true,
        Some("origin/feature"),
    );
    let result = formatter.format_repository(&repo_needs_both);
    assert!(result.contains("sync_repo"));
    assert!(result.contains("[feature] [↑↓]"));
    assert!(result.contains("Remote: origin/feature"));
    assert!(result.contains("needs pull and push"));
}

#[test]
fn test_format_repository_no_remote() {
    let formatter = OutputFormatter::new(false, "text".to_string());
    let repo = create_test_repository("local_repo", false, Some("main"), 0);

    let result = formatter.format_repository(&repo);
    assert!(result.contains("local_repo"));
    assert!(result.contains("[main]"));
    assert!(!result.contains("[↑]"));
    assert!(!result.contains("[↓]"));
    assert!(!result.contains("[↑↓]"));
}

#[test]
fn test_format_repositories_json_escapes_strings() {
    let formatter = OutputFormatter::new(false, "json".to_string());
    let repo = Repository::new("/test/has\"quote".to_string()).with_git_info(
        false,
        Some("line\nbreak".to_string()),
        vec!["tab\tseparated".to_string()],
    );

    let result = formatter.format_repositories(&vec![repo]);
    let parsed: Vec<serde_json::Value> = serde_json::from_str(&result).unwrap();
    assert_eq!(parsed[0]["path"], "/test/has\"quote");
    assert_eq!(parsed[0]["current_branch"], "line\nbreak");
    assert_eq!(parsed[0]["changed_files"][0], "tab\tseparated");
    assert_eq!(parsed[0]["remote_branch"], serde_json::Value::Null);
}
