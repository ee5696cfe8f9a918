use pendector::cli::{
    effective_output_options, effective_scan_options, filter_changes_only, resolve_scan_paths,
    Args,
};
use pendector::config::PathConfigResolved;
use pendector::repo::Repository;

fn args() -> Args {
    Args {
        paths: Vec::new(),
        add_path: false,
        changes_only: false,
        verbose: false,
        max_depth: 3,
        format: "text".to_string(),
        fetch: false,
        fetch_timeout: 5,
        config: None,
        no_config: false,
        exclude: Vec::new(),
        no_exclude: false,
    }
}

fn resolved() -> PathConfigResolved {
    PathConfigResolved {
        max_depth: 4,
        fetch: false,
        fetch_timeout: 9,
        format: "text".to_string(),
        verbose: false,
        changes_only: false,
    }
}

#[test]
fn test_resolve_scan_paths_defaults() {
    let defaults = vec!["~/src".to_string(), "~/work".to_string()];
    let r = resolve_scan_paths(&Vec::new(), false, &defaults);
    assert_eq!(r, defaults);
}

#[test]
fn test_resolve_scan_paths_replace() {
    let defaults = vec!["~/src".to_string()];
    let named = vec!["/tmp/x".to_string()];
    let r = resolve_scan_paths(&named, false, &defaults);
    assert_eq!(r, named);
}

#[test]
fn test_resolve_scan_paths_add() {
    let defaults = vec!["~/src".to_string()];
    let named = vec!["/tmp/x".to_string()];
    let r = resolve_scan_paths(&named, true, &defaults);
    assert_eq!(r, vec!["~/src".to_string(), "/tmp/x".to_string()]);
}

#[test]
fn test_scan_options_precedence() {
    let mut a = args();
    let c = resolved();

    // Defaults on the command line defer to the configuration.
    let (depth, fetch, timeout) = effective_scan_options(&a, &c);
    assert_eq!(depth, 4);
    assert!(!fetch);
    assert_eq!(timeout, 9);

    // Explicit command-line values win.
    a.max_depth = 7;
    a.fetch = true;
    a.fetch_timeout = 30;
    let (depth, fetch, timeout) = effective_scan_options(&a, &c);
    assert_eq!(depth, 7);
    assert!(fetch);
    assert_eq!(timeout, 30);
}

#[test]
fn test_output_options_precedence() {
    let mut a = args();
    let mut c = resolved();
    c.format = "json".to_string();
    c.verbose = true;

    let (verbose, format, changes_only) = effective_output_options(&a, &c);
    assert!(verbose);
    assert_eq!(format, "json");
    assert!(!changes_only);

    a.format = "json".to_string();
    a.changes_only = true;
    c.format = "text".to_string();
    let (_, format, changes_only) = effective_output_options(&a, &c);
    assert_eq!(format, "json");
    assert!(changes_only);
}

#[test]
fn test_filter_changes_only() {
    let repos = vec![
        Repository::new("/x/a".to_string()).with_git_info(true, None, Vec::new()),
        Repository::new("/x/b".to_string()),
        Repository::new("/x/c".to_string()).with_git_info(true, None, Vec::new()),
    ];

    let all = filter_changes_only(repos.clone(), false);
    assert_eq!(all.len(), 3);

    let changed = filter_changes_only(repos, true);
    assert_eq!(changed.len(), 2);
    assert_eq!(changed[0].name, "a");
    assert_eq!(changed[1].name, "c");
}
