use rex::config::{check_overwrite, join_path, local_config_path, ConfigError};

#[test]
fn local_config_path_under_project() {
    assert_eq!(local_config_path("proj"), "proj/.rex/config.json");
    assert_eq!(local_config_path("proj/"), "proj/.rex/config.json");
    assert_eq!(local_config_path(""), ".rex/config.json");
}

#[test]
fn join_adds_one_separator() {
    assert_eq!(join_path("/a", "b"), "/a/b");
    assert_eq!(join_path("/", "b"), "/b");
}

#[test]
fn overwrite_needs_force() {
    assert_eq!(check_overwrite(true, false), Err(ConfigError::AlreadyExists));
    assert_eq!(check_overwrite(true, true), Ok(()));
    assert_eq!(check_overwrite(false, false), Ok(()));
}
