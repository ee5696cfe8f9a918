use pendector::discovery::{discover_repo_roots, WalkEntry};
use pendector::gitio::ChangeEntry;
use pendector::repo::Repository;
use pendector::status::assemble_status;

fn dir(segments: &[&str]) -> WalkEntry {
    WalkEntry {
        segments: segments.iter().map(|s| s.to_string()).collect(),
        is_dir: true,
    }
}

fn file(segments: &[&str]) -> WalkEntry {
    WalkEntry {
        segments: segments.iter().map(|s| s.to_string()).collect(),
        is_dir: false,
    }
}

#[test]
fn test_discover_depth_limits() {
    // A repository two levels below the scan root is out of reach of a
    // zero-depth scan and within reach of a depth-two scan.
    let entries = vec![
        dir(&[]),
        dir(&["level1"]),
        dir(&["level1", "deep_repo"]),
        dir(&["level1", "deep_repo", ".git"]),
    ];

    let roots = discover_repo_roots("/base", &entries, 0);
    assert_eq!(roots.len(), 0);

    let roots = discover_repo_roots("/base", &entries, 2);
    assert_eq!(roots, vec!["/base/level1/deep_repo".to_string()]);
}

#[test]
fn test_discover_root_repository_at_depth_zero() {
    // With depth zero the scan root itself is still checked.
    let entries = vec![dir(&[]), dir(&[".git"]), dir(&["child"])];

    let roots = discover_repo_roots("/base", &entries, 0);
    assert_eq!(roots, vec!["/base".to_string()]);
}

#[test]
fn test_discover_ignores_git_files() {
    // A submodule gitlink is a file named .git, not a repository root.
    let entries = vec![dir(&[]), dir(&["sub"]), file(&["sub", ".git"])];

    let roots = discover_repo_roots("/base", &entries, 3);
    assert_eq!(roots.len(), 0);
}

#[test]
fn test_discover_never_reports_git_dir_as_root() {
    // A directory inside .git never marks .git itself as a repository.
    let entries = vec![
        dir(&[]),
        dir(&["repo"]),
        dir(&["repo", ".git"]),
        dir(&["repo", ".git", "refs"]),
        dir(&["repo", ".git", ".git"]),
    ];

    let roots = discover_repo_roots("/base", &entries, 5);
    assert_eq!(roots, vec!["/base/repo".to_string()]);
}

#[test]
fn test_discover_ignores_plain_directories() {
    let entries = vec![dir(&[]), dir(&["regular_dir"]), file(&["regular_dir", "note.txt"])];

    let roots = discover_repo_roots("/base", &entries, 3);
    assert_eq!(roots.len(), 0);
}

#[test]
fn test_scan_scenario_two_repositories() {
    // Scanning /work with a clean repository at /work/a and one untracked
    // file x.txt at /work/b yields two reports: a clean and b changed,
    // with an added entry for x.txt.
    let entries = vec![
        dir(&[]),
        dir(&["a"]),
        dir(&["a", ".git"]),
        dir(&["b"]),
        dir(&["b", ".git"]),
        file(&["b", "x.txt"]),
    ];

    let roots = discover_repo_roots("/work", &entries, 1);
    assert_eq!(roots, vec!["/work/a".to_string(), "/work/b".to_string()]);

    // Repository a has no change entries; b has one untracked file.
    let status_a = assemble_status(&Vec::new(), Some("main".to_string()), (false, false, None));
    let status_b = assemble_status(
        &vec![untracked_entry("x.txt")],
        Some("main".to_string()),
        (false, false, None),
    );

    let mut roots = roots.into_iter();
    let report_a = Repository::from_scan(roots.next().unwrap(), status_a);
    let report_b = Repository::from_scan(roots.next().unwrap(), status_b);

    assert_eq!(report_a.name, "a");
    assert!(!report_a.has_changes);
    assert_eq!(report_a.current_branch, Some("main".to_string()));
    assert!(report_a.changed_files.is_empty());

    assert_eq!(report_b.name, "b");
    assert!(report_b.has_changes);
    assert_eq!(report_b.changed_files, vec!["?? x.txt".to_string()]);
}

fn untracked_entry(path: &str) -> ChangeEntry {
    ChangeEntry {
        wt_new: true,
        index_new: false,
        wt_modified: false,
        index_modified: false,
        wt_deleted: false,
        index_deleted: false,
        wt_renamed: false,
        index_renamed: false,
        path: Some(path.to_string()),
    }
}

#[test]
fn test_from_scan_carries_status() {
    let status = assemble_status(
        &Vec::new(),
        None,
        (true, false, Some("origin/main".to_string())),
    );
    let report = Repository::from_scan("/work/r".to_string(), status);
    assert_eq!(report.name, "r");
    assert!(!report.has_changes);
    assert!(report.current_branch.is_none());
    assert!(report.changed_files.is_empty());
    assert!(report.needs_pull);
    assert!(!report.needs_push);
    assert_eq!(report.remote_branch, Some("origin/main".to_string()));
}
