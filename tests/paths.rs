use encodetalker::paths::{AppPaths, PathsConfig, PathsError};

#[test]
fn test_default_paths_unchanged() {
    let paths = AppPaths::new().unwrap();
    assert!(paths.data_dir.ends_with("encodetalker"));
    assert!(paths.config_dir.ends_with("encodetalker"));
    assert!(paths.deps_dir.ends_with("deps"));
    assert!(paths.socket_path.ends_with("/daemon.sock"));
}

#[test]
fn test_from_config_none_is_same_as_new() {
    let paths1 = AppPaths::new().unwrap();
    let paths2 = AppPaths::from_config(None, None).unwrap();
    assert_eq!(paths1.data_dir, paths2.data_dir);
    assert_eq!(paths1.deps_dir, paths2.deps_dir);
    assert_eq!(paths1.socket_path, paths2.socket_path);
}

#[test]
fn test_custom_data_dir() {
    let config = PathsConfig {
        data_dir: Some("/tmp/custom_data".to_string()),
        deps_dir: None,
        socket_path: None,
    };
    let paths = AppPaths::from_config(Some(config), None).unwrap();
    assert_eq!(paths.data_dir, "/tmp/custom_data");
    assert_eq!(paths.deps_dir, "/tmp/custom_data/deps");
    assert_eq!(paths.socket_path, "/tmp/custom_data/daemon.sock");
    assert_eq!(paths.state_file, "/tmp/custom_data/state.json");
}

#[test]
fn test_custom_all_paths() {
    let config = PathsConfig {
        data_dir: Some("/data".to_string()),
        deps_dir: Some("/deps".to_string()),
        socket_path: Some("/tmp/custom.sock".to_string()),
    };
    let paths = AppPaths::from_config(Some(config), None).unwrap();
    assert_eq!(paths.data_dir, "/data");
    assert_eq!(paths.deps_dir, "/deps");
    assert_eq!(paths.socket_path, "/tmp/custom.sock");
    assert_eq!(paths.state_file, "/data/state.json");
    assert_eq!(paths.log_file, "/data/daemon.log");
}

#[test]
fn test_custom_deps_only() {
    let config = PathsConfig {
        data_dir: None,
        deps_dir: Some("/mnt/ssd/deps".to_string()),
        socket_path: None,
    };
    let paths = AppPaths::from_config(Some(config), None).unwrap();
    assert!(paths.data_dir.ends_with("encodetalker"));
    assert!(paths.socket_path.ends_with("daemon.sock"));
    assert_eq!(paths.deps_dir, "/mnt/ssd/deps");
}

#[test]
fn test_tilde_expansion() {
    let config = PathsConfig {
        data_dir: Some("~/test_encodetalker".to_string()),
        deps_dir: None,
        socket_path: None,
    };
    let paths = AppPaths::from_config(Some(config), None).unwrap();
    assert!(!paths.data_dir.contains('~'));
    assert!(paths.data_dir.starts_with('/'));
}

#[test]
fn test_config_dir_always_xdg() {
    let config = PathsConfig {
        data_dir: Some("/custom".to_string()),
        deps_dir: Some("/custom/deps".to_string()),
        socket_path: Some("/custom/socket".to_string()),
    };
    let paths = AppPaths::from_config(Some(config), None).unwrap();
    assert!(paths.config_dir.ends_with("encodetalker"));
    assert!(paths.config_file.ends_with("config.toml"));
}

#[test]
fn test_expand_absolute_path() {
    let result = PathsConfig::expand_path("/tmp/test").unwrap();
    assert_eq!(result, "/tmp/test");
}

#[test]
fn test_expand_tilde() {
    let result = PathsConfig::expand_path("~/test").unwrap();
    assert!(!result.contains('~'));
    assert!(result.starts_with('/'));
}

#[test]
fn test_expand_nonexistent_var() {
    let result = PathsConfig::expand_path("$NONEXISTENT_VAR_12345/path");
    assert!(result.is_err());
    assert_eq!(result, Err(PathsError::Expansion));
}

#[test]
fn test_default_is_all_none() {
    let config = PathsConfig::default();
    assert!(config.data_dir.is_none());
    assert!(config.deps_dir.is_none());
    assert!(config.socket_path.is_none());
}

#[test]
fn portable_deps_dir_is_used_when_not_configured() {
    let config = PathsConfig {
        data_dir: Some("/data".to_string()),
        deps_dir: None,
        socket_path: None,
    };
    let paths = AppPaths::from_config(Some(config), Some("/opt/app/.dependencies".to_string())).unwrap();
    assert_eq!(paths.deps_dir, "/opt/app/.dependencies");
    assert_eq!(paths.deps_bin_dir, "/opt/app/.dependencies/bin");
    assert_eq!(paths.deps_src_dir, "/opt/app/.dependencies/src");
}

#[test]
fn trailing_slash_is_not_doubled() {
    let config = PathsConfig {
        data_dir: Some("/data/".to_string()),
        deps_dir: None,
        socket_path: None,
    };
    let paths = AppPaths::from_config(Some(config), None).unwrap();
    assert_eq!(paths.state_file, "/data/state.json");
}
