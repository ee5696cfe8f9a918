use pendector::config::{Config, PathConfig};

#[test]
fn test_default_config() {
    let config = Config::default();
    assert_eq!(config.defaults.max_depth, 3);
    assert!(!config.defaults.fetch);
    assert_eq!(config.defaults.fetch_timeout, 5);
    assert_eq!(config.defaults.format, "text");
    assert!(!config.defaults.verbose);
    assert!(!config.defaults.changes_only);
    assert_eq!(config.defaults.paths, vec!["."]);
}

#[test]
fn test_get_path_config_no_match() {
    let config = Config::default();
    let path_config = config.get_path_config("/some/path");

    assert_eq!(path_config.max_depth, 3);
    assert!(!path_config.fetch);
    assert_eq!(path_config.fetch_timeout, 5);
    assert_eq!(path_config.format, "text");
}

#[test]
fn test_get_path_config_with_match() {
    let mut config = Config::default();
    config.path_configs.push(PathConfig {
        path: "/test/path".to_string(),
        max_depth: Some(10),
        fetch: Some(true),
        fetch_timeout: Some(20),
        format: Some("json".to_string()),
        verbose: Some(true),
        changes_only: Some(true),
    });

    let path_config = config.get_path_config("/test/path");
    assert_eq!(path_config.max_depth, 10);
    assert!(path_config.fetch);
    assert_eq!(path_config.fetch_timeout, 20);
    assert_eq!(path_config.format, "json");
    assert!(path_config.verbose);
    assert!(path_config.changes_only);
}

#[test]
fn test_path_matches() {
    assert!(Config::path_matches("/test/path", "/test/path"));
    assert!(Config::path_matches("/test", "/test/subdir"));
    assert!(!Config::path_matches("/test/path", "/other/path"));
}

#[test]
fn test_path_matches_trailing_slash_pattern() {
    assert!(Config::path_matches("/test/", "/test/subdir"));
    assert!(Config::path_matches("/test/", "/test"));
    assert!(!Config::path_matches("/test/", "/testing"));
}

#[test]
fn test_get_path_config_first_match_wins() {
    let mut config = Config::default();
    config.path_configs.push(PathConfig {
        path: "/work".to_string(),
        max_depth: Some(7),
        fetch: None,
        fetch_timeout: None,
        format: None,
        verbose: None,
        changes_only: None,
    });
    config.path_configs.push(PathConfig {
        path: "/work/deep".to_string(),
        max_depth: Some(9),
        fetch: None,
        fetch_timeout: None,
        format: None,
        verbose: None,
        changes_only: None,
    });

    let resolved = config.get_path_config("/work/deep");
    assert_eq!(resolved.max_depth, 7);
    assert_eq!(resolved.fetch_timeout, 5);
    assert_eq!(resolved.format, "text");
}

#[test]
fn test_get_default_paths() {
    let config = Config::default();
    assert_eq!(config.get_default_paths(), &vec![".".to_string()]);
}
