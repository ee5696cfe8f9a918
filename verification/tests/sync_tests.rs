use pendector::ancestry::{classify_ancestry, sync_flags, Ancestry};
use pendector::error::PendectorError;
use pendector::gitio::{ChangeEntry, HeadInfo};
use pendector::status::{
    assemble_status, branch_of_head, classify_open_failure, sync_state_from_tips, GitStatus,
};

fn id(b: u8) -> Vec<u8> {
    vec![b; 20]
}

#[test]
fn test_classify_equal_tips() {
    let a = classify_ancestry(&id(1), &id(1), &None);
    assert_eq!(a, Ancestry::Equal);
    assert_eq!(sync_flags(a), (false, false));
}

#[test]
fn test_classify_behind_when_base_is_local() {
    let a = classify_ancestry(&id(1), &id(2), &Some(id(1)));
    assert_eq!(a, Ancestry::Behind);
    assert_eq!(sync_flags(a), (true, false));
}

#[test]
fn test_classify_ahead_when_base_is_remote() {
    let a = classify_ancestry(&id(1), &id(2), &Some(id(2)));
    assert_eq!(a, Ancestry::Ahead);
    assert_eq!(sync_flags(a), (false, true));
}

#[test]
fn test_classify_diverged_on_third_base() {
    let a = classify_ancestry(&id(1), &id(2), &Some(id(3)));
    assert_eq!(a, Ancestry::Diverged);
    assert_eq!(sync_flags(a), (true, true));
}

#[test]
fn test_classify_diverged_without_common_ancestor() {
    let a = classify_ancestry(&id(1), &id(2), &None);
    assert_eq!(a, Ancestry::Diverged);
    assert_eq!(sync_flags(a), (true, true));
}

#[test]
fn test_sync_state_in_sync_after_fetch() {
    // A repository whose local tip equals the remote tracking tip reports
    // the tracking branch and no pending pull or push.
    let tip = id(7);
    let (needs_pull, needs_push, remote_branch) =
        sync_state_from_tips("main", &Some(tip.clone()), &Some(Some(tip)), &None);
    assert!(!needs_pull);
    assert!(!needs_push);
    assert_eq!(remote_branch, Some("origin/main".to_string()));
}

#[test]
fn test_sync_state_without_remote_ref() {
    let (needs_pull, needs_push, remote_branch) =
        sync_state_from_tips("main", &Some(id(7)), &None, &None);
    assert!(!needs_pull);
    assert!(!needs_push);
    assert_eq!(remote_branch, None);
}

#[test]
fn test_sync_state_unborn_head() {
    let (needs_pull, needs_push, remote_branch) =
        sync_state_from_tips("main", &None, &Some(Some(id(7))), &None);
    assert!(!needs_pull);
    assert!(!needs_push);
    assert_eq!(remote_branch, None);
}

#[test]
fn test_sync_state_diverged_sets_both_flags() {
    let (needs_pull, needs_push, remote_branch) =
        sync_state_from_tips("dev", &Some(id(1)), &Some(Some(id(2))), &Some(id(3)));
    assert!(needs_pull);
    assert!(needs_push);
    assert_eq!(remote_branch, Some("origin/dev".to_string()));
}

fn entry(wt_new: bool, wt_modified: bool, path: Option<&str>) -> ChangeEntry {
    ChangeEntry {
        wt_new,
        index_new: false,
        wt_modified,
        index_modified: false,
        wt_deleted: false,
        index_deleted: false,
        wt_renamed: false,
        index_renamed: false,
        path: path.map(|p| p.to_string()),
    }
}

#[test]
fn test_assemble_status_empty_repository() {
    // No change entries, unborn HEAD, no remote: everything stays empty.
    let st = assemble_status(&Vec::new(), None, (false, false, None));
    assert!(!st.has_changes);
    assert!(st.current_branch.is_none());
    assert!(st.changed_files.is_empty());
    assert!(!st.needs_pull);
    assert!(!st.needs_push);
    assert!(st.remote_branch.is_none());
}

#[test]
fn test_assemble_status_with_changes() {
    // A modified file and an untracked file on branch main, no remote.
    let entries = vec![
        entry(false, true, Some("README.md")),
        entry(true, false, Some("new_file.txt")),
    ];
    let st = assemble_status(&entries, Some("main".to_string()), (false, false, None));
    assert!(st.has_changes);
    assert_eq!(st.current_branch, Some("main".to_string()));
    assert_eq!(st.changed_files.len(), 2);
    assert!(st.changed_files.iter().any(|f| f.contains("README.md")));
    assert!(st.changed_files.iter().any(|f| f.contains("new_file.txt")));
    assert_eq!(st.changed_files, vec![" M README.md".to_string(), "?? new_file.txt".to_string()]);
    assert!(!st.needs_pull);
    assert!(!st.needs_push);
    assert!(st.remote_branch.is_none());
}

#[test]
fn test_assemble_status_entry_without_text_path() {
    // An entry whose path is not valid text still counts as a change but
    // yields no line.
    let entries = vec![entry(true, false, None)];
    let st = assemble_status(&entries, None, (false, false, None));
    assert!(st.has_changes);
    assert!(st.changed_files.is_empty());
}

#[test]
fn test_branch_of_head() {
    let head = Some(HeadInfo { branch: Some("main".to_string()), tip: Some(id(1)) });
    assert_eq!(branch_of_head(&head), Some("main".to_string()));

    let unborn = Some(HeadInfo { branch: Some("main".to_string()), tip: None });
    assert_eq!(branch_of_head(&unborn), Some("main".to_string()));

    assert_eq!(branch_of_head(&None), None);
}

#[test]
fn test_classify_open_failure() {
    // The not-found code means a missing repository, never a generic
    // operation failure.
    let e = classify_open_failure("/work/x", true, "could not find repository".to_string());
    assert!(matches!(e, PendectorError::GitRepositoryNotFound(p) if p == "/work/x"));

    let e = classify_open_failure("/work/x", false, "bad permissions".to_string());
    match e {
        PendectorError::GitOperationFailed { repo_path, operation, source } => {
            assert_eq!(repo_path, "/work/x");
            assert_eq!(operation, "open repository");
            assert_eq!(source, "bad permissions");
        }
        other => panic!("wrong classification: {other:?}"),
    }
}

#[test]
fn test_get_status_missing_repository() {
    // A directory without version-control metadata is reported as a
    // missing repository, not as a generic failure.
    let result = GitStatus::get_repository_status("/no/such/repository/anywhere");
    assert!(matches!(
        result,
        Err(PendectorError::GitRepositoryNotFound(_))
    ));
}

#[test]
fn test_error_messages() {
    let e = PendectorError::GitRepositoryNotFound("/work/a".to_string());
    assert_eq!(e.message(), "Git repository not found at '/work/a'");

    let e = PendectorError::TimeoutError {
        repo_path: "a".to_string(),
        timeout_secs: 30,
    };
    assert_eq!(e.message(), "Operation timed out after 30s for 'a'");

    let e = PendectorError::NetworkError {
        repo_path: "b".to_string(),
        message: "Network error".to_string(),
    };
    assert_eq!(e.message(), "Network error for 'b': Network error");

    let e = PendectorError::GitOperationFailed {
        repo_path: "/r".to_string(),
        operation: "get status".to_string(),
        source: "bad object".to_string(),
    };
    assert_eq!(e.message(), "Git operation 'get status' failed in '/r': bad object");

    let e = PendectorError::FileSystemError {
        path: "/p".to_string(),
        message: "denied".to_string(),
    };
    assert_eq!(e.message(), "File system error for '/p': denied");

    let e = PendectorError::AuthenticationError {
        repo_path: "c".to_string(),
        message: "Authentication or access denied".to_string(),
    };
    assert_eq!(
        e.message(),
        "Authentication error for 'c': Authentication or access denied"
    );

    let e = PendectorError::InvalidPath("..".to_string());
    assert_eq!(e.message(), "Invalid path: '..'");

    let e = PendectorError::ScanError {
        path: "/s".to_string(),
        source: "broken".to_string(),
    };
    assert_eq!(e.message(), "Failed to scan directory '/s': broken");

    let e = PendectorError::FormatError("bad".to_string());
    assert_eq!(e.message(), "Format error: bad");

    let e = PendectorError::ConfigError {
        path: "/c.toml".to_string(),
        message: "parse".to_string(),
    };
    assert_eq!(e.message(), "Configuration error in '/c.toml': parse");
}
