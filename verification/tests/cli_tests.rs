use sparrow_db::cli::{
    has_db_marker, no_database_message, resolve_binary, resolve_data_dir, resolve_db_dir, resolve_port,
    BuildProfile, CloudDeploymentTypeCommand, DbDirChoice,
};

#[test]
fn test_resolve_db_dir_returns_error_for_empty_dir() {
    let source = "/tmp/empty-dir";
    let found = resolve_db_dir(source, None, has_db_marker(false, false), has_db_marker(false, false));
    assert_eq!(found, None);
    let err = no_database_message(source);
    assert!(err.contains("No HelixDB database found"), "unexpected error: {err}");
    assert_eq!(
        err,
        "No HelixDB database found at /tmp/empty-dir. Expected data.mdb (LMDB) or CURRENT (RocksDB)."
    );
}

#[test]
fn resolve_db_dir_prefers_path_then_user_subdir() {
    assert_eq!(resolve_db_dir("/data/db", None, true, true), Some(DbDirChoice::Path));
    assert_eq!(resolve_db_dir("/data/db", None, false, true), Some(DbDirChoice::PathUser));
    assert_eq!(resolve_db_dir("dev", Some(true), false, false), Some(DbDirChoice::ProjectInstanceUser));
    // a path never names an instance
    assert_eq!(resolve_db_dir("./dev", Some(true), false, false), None);
    assert_eq!(resolve_db_dir("dev", Some(false), true, false), Some(DbDirChoice::Path));
}

#[test]
fn db_markers() {
    assert!(has_db_marker(true, false));
    assert!(has_db_marker(false, true));
    assert!(!has_db_marker(false, false));
}

#[test]
fn binary_and_run_defaults() {
    assert_eq!(resolve_binary(true, true), Some(BuildProfile::Release));
    assert_eq!(resolve_binary(false, true), Some(BuildProfile::Debug));
    assert_eq!(resolve_binary(false, false), None);
    assert_eq!(BuildProfile::Release.dir_name(), "release");
    assert_eq!(resolve_port(None, None), 6969);
    assert_eq!(resolve_port(None, Some(7000)), 7000);
    assert_eq!(resolve_port(Some(1), Some(7000)), 1);
    assert_eq!(resolve_data_dir(None, None, None), "/tmp/sparrow-data");
    assert_eq!(resolve_data_dir(None, Some("vol".to_string()), Some("home".to_string())), "vol");
}

#[test]
fn cloud_deployment_names() {
    let fly = CloudDeploymentTypeCommand::Fly {
        auth: "cli".to_string(),
        volume_size: 20,
        vm_size: "shared-cpu-4x".to_string(),
        private: false,
        name: Some("prod".to_string()),
    };
    assert_eq!(fly.name(), Some("prod".to_string()));
    assert_eq!(CloudDeploymentTypeCommand::Local { name: None }.name(), None);
}

#[test]
fn test_resolve_db_dir_detects_lmdb_directly() {
    let result = resolve_db_dir("/tmp/db", None, has_db_marker(true, false), has_db_marker(false, false));
    assert_eq!(result, Some(DbDirChoice::Path));
}

#[test]
fn test_resolve_db_dir_detects_lmdb_in_user_subdir() {
    let result = resolve_db_dir("/tmp/db", None, has_db_marker(false, false), has_db_marker(true, false));
    assert_eq!(result, Some(DbDirChoice::PathUser));
}

#[test]
fn test_resolve_db_dir_detects_rocksdb_directly() {
    let result = resolve_db_dir("/tmp/db", None, has_db_marker(false, true), has_db_marker(false, false));
    assert_eq!(result, Some(DbDirChoice::Path));
}

#[test]
fn test_resolve_db_dir_detects_rocksdb_in_user_subdir() {
    let result = resolve_db_dir("/tmp/db", None, has_db_marker(false, false), has_db_marker(false, true));
    assert_eq!(result, Some(DbDirChoice::PathUser));
}
