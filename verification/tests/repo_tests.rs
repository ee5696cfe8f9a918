use pendector::repo::Repository;

#[test]
fn test_repository_new_with_simple_path() {
    let path = "/home/user/projects/my_project".to_string();
    let repo = Repository::new(path.clone());

    assert_eq!(repo.path, path);
    assert_eq!(repo.name, "my_project");
    assert!(!repo.has_changes);
    assert!(repo.current_branch.is_none());
    assert!(repo.changed_files.is_empty());
}

#[test]
fn test_repository_new_with_relative_path() {
    let path = "src/core".to_string();
    let repo = Repository::new(path.clone());

    assert_eq!(repo.path, path);
    assert_eq!(repo.name, "core");
}

#[test]
fn test_repository_new_with_unicode_path() {
    let path = "/home/user/プロジェクト".to_string();
    let repo = Repository::new(path.clone());

    assert_eq!(repo.path, path);
    assert_eq!(repo.name, "プロジェクト");
}

#[test]
fn test_repository_new_without_file_name() {
    let repo = Repository::new(".".to_string());
    assert_eq!(repo.name, ".");

    let repo = Repository::new("/".to_string());
    assert_eq!(repo.name, "/");

    let repo = Repository::new("a/b/".to_string());
    assert_eq!(repo.name, "b");
}

#[test]
fn test_repository_with_git_info() {
    let path = "/test/repo".to_string();
    let files = vec!["file1.txt".to_string(), "file2.rs".to_string()];

    let repo =
        Repository::new(path.clone()).with_git_info(true, Some("main".to_string()), files.clone());

    assert_eq!(repo.path, path);
    assert_eq!(repo.name, "repo");
    assert!(repo.has_changes);
    assert_eq!(repo.current_branch, Some("main".to_string()));
    assert_eq!(repo.changed_files, files);
}

#[test]
fn test_repository_with_git_info_no_branch() {
    let path = "/test/repo".to_string();

    let repo = Repository::new(path).with_git_info(false, None, Vec::new());

    assert!(!repo.has_changes);
    assert!(repo.current_branch.is_none());
    assert!(repo.changed_files.is_empty());
}

#[test]
fn test_repository_clone() {
    let path = "/test/repo".to_string();
    let files = vec!["file1.txt".to_string()];

    let repo1 =
        Repository::new(path).with_git_info(true, Some("develop".to_string()), files.clone());
    let repo2 = repo1.clone();

    assert_eq!(repo1.path, repo2.path);
    assert_eq!(repo1.name, repo2.name);
    assert_eq!(repo1.has_changes, repo2.has_changes);
    assert_eq!(repo1.current_branch, repo2.current_branch);
    assert_eq!(repo1.changed_files, repo2.changed_files);
}

#[test]
fn test_repository_debug_format() {
    let repo = Repository::new("/test/repo".to_string()).with_git_info(
        true,
        Some("feature/test".to_string()),
        vec!["test.rs".to_string()],
    );

    let debug_str = format!("{repo:?}");
    assert!(debug_str.contains("Repository"));
    assert!(debug_str.contains("/test/repo"));
    assert!(debug_str.contains("repo"));
    assert!(debug_str.contains("true"));
    assert!(debug_str.contains("feature/test"));
}

#[test]
fn test_repository_with_remote_info() {
    let repo = Repository::new("/test/repo".to_string()).with_remote_info(
        true,
        false,
        Some("origin/main".to_string()),
    );

    assert!(repo.needs_pull);
    assert!(!repo.needs_push);
    assert_eq!(repo.remote_branch, Some("origin/main".to_string()));
}
