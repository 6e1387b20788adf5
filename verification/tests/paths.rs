use lumo_supervisor::paths::{db_path, join_path, resolve_data_dir};

#[test]
fn join_puts_a_separator_between() {
    assert_eq!(join_path("a", "b"), "a/b");
    assert_eq!(join_path("", "b"), "/b");
    assert_eq!(join_path("/home/user", ".lumo"), "/home/user/.lumo");
}

#[test]
fn resolve_prefers_host_directory() {
    let r = resolve_data_dir(Some("/data/app".to_string()), Some("/home/user".to_string()));
    assert_eq!(r.path, "/data/app");
    assert!(!r.used_fallback);
}

#[test]
fn resolve_falls_back_under_home() {
    let r = resolve_data_dir(None, Some("/home/user".to_string()));
    assert_eq!(r.path, "/home/user/.lumo");
    assert!(r.used_fallback);
}

#[test]
fn resolve_falls_back_under_current_directory() {
    let r = resolve_data_dir(None, None);
    assert_eq!(r.path, "./.lumo");
    assert!(r.used_fallback);
}

#[test]
fn database_file_lies_beneath_the_data_dir() {
    assert_eq!(db_path("/data/app"), "/data/app/lumo.db");
}
