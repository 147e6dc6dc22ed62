use sparrow_db::cli::{no_snapshot_source_message, snapshot_method, SnapshotMethod};
use sparrow_db::maintenance::{compact_exists_message, compact_failed_message, compact_report};

#[test]
fn compact_reports() {
    assert_eq!(
        compact_report(1000, 250, "/data/data.mdb.compact"),
        "{\"ok\":true,\"original_bytes\":1000,\"compact_bytes\":250,\"saved_bytes\":750,\"saved_pct\":75,\"compact_path\":\"/data/data.mdb.compact\"}"
    );
    assert_eq!(
        compact_report(0, 4096, "c"),
        "{\"ok\":true,\"original_bytes\":0,\"compact_bytes\":4096,\"saved_bytes\":0,\"saved_pct\":0,\"compact_path\":\"c\"}"
    );
    assert_eq!(
        compact_exists_message("/d/data.mdb.compact"),
        "compact file already exists at /d/data.mdb.compact; delete it before running /compact again"
    );
    assert_eq!(compact_failed_message("MDB_PANIC"), "compact: mdb_env_copy failed: MDB_PANIC");
}

#[test]
fn snapshot_methods() {
    assert_eq!(snapshot_method(true, true), Some(SnapshotMethod::LmdbHotCopy));
    assert_eq!(snapshot_method(false, true), Some(SnapshotMethod::FileCopy));
    assert_eq!(snapshot_method(false, false), None);
    assert_eq!(no_snapshot_source_message("/x"), "No HelixDB database found at /x.");
}

#[test]
fn test_compact_fails_when_compact_file_already_exists() {
    let msg = compact_exists_message("/tmp/x/data.mdb.compact");
    assert!(msg.contains("already exists"), "error should mention existing file: {msg}");
}
