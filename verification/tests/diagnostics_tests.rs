use sparrow_db::diagnostics::{
    diagnostics_inner, hnsw_health_inner, hnsw_integrity_inner, hnsw_status, memory_pressure, read_cgroup_limit_kb,
    read_rss_kb, read_status_field, read_thread_count, trim_text, HnswStatus, VectorStats,
};

const STATUS: &str = "Name:\tsparrow\nVmRSS:\t  123456 kB\nThreads:\t17\n";

#[test]
fn diagnostics_body() {
    let v = VectorStats { total: 3, active: 2, soft_deleted: 1, hnsw_edges: 4, entry_point_present: true };
    assert_eq!(
        diagnostics_inner(10, 20, &v, 2048, 4096, "50.0", 9),
        "{\"nodes\":10,\"edges\":20,\"vectors\":{\"total\":3,\"active\":2,\"soft_deleted\":1,\"hnsw_edges\":4,\"entry_point_present\":true},\"system\":{\"rss_kb\":2048,\"memory_limit_kb\":4096,\"rss_pct\":50.0,\"thread_count\":9}}"
    );
}

#[test]
fn hnsw_health_classification() {
    assert_eq!(hnsw_status(0, 0), HnswStatus::Healthy);
    assert_eq!(hnsw_status(100, 100), HnswStatus::Healthy);
    assert_eq!(hnsw_status(100, 95), HnswStatus::Degraded);
    assert_eq!(hnsw_status(100, 94), HnswStatus::Broken);
    assert_eq!(
        hnsw_health_inner(0, 0),
        "{\"status\":\"healthy\",\"total_active\":0,\"reachable\":0,\"unreachable\":0}"
    );
    assert_eq!(
        hnsw_health_inner(100, 90),
        "{\"status\":\"broken\",\"total_active\":100,\"reachable\":90,\"unreachable\":10}"
    );
}

#[test]
fn hnsw_integrity_body() {
    assert_eq!(hnsw_integrity_inner(0, 0), "{\"symmetric\":true,\"total_edges\":0,\"asymmetric_edges\":0}");
    assert_eq!(hnsw_integrity_inner(8, 2), "{\"symmetric\":false,\"total_edges\":8,\"asymmetric_edges\":2}");
}

#[test]
fn proc_status_fields() {
    assert_eq!(read_status_field(STATUS, "VmRSS:"), Some(123456));
    assert_eq!(read_status_field(STATUS, "VmSwap:"), None);
    assert_eq!(read_rss_kb(Some(STATUS)), 123456);
    assert_eq!(read_rss_kb(None), 0);
    assert_eq!(read_thread_count(Some(STATUS)), 17);
    assert_eq!(read_thread_count(None), 0);
}

#[test]
fn cgroup_limits() {
    assert_eq!(trim_text("  max\n"), "max");
    assert_eq!(read_cgroup_limit_kb(Some("1048576\n"), None), 1024);
    assert_eq!(read_cgroup_limit_kb(Some("max\n"), None), 0);
    assert_eq!(read_cgroup_limit_kb(Some("max\n"), Some("4096")), 4);
    assert_eq!(read_cgroup_limit_kb(None, Some("2048\n")), 2);
    assert_eq!(read_cgroup_limit_kb(None, None), 0);
    assert!(!memory_pressure(0, 10));
    assert!(memory_pressure(1000, 900));
    assert!(!memory_pressure(1000, 100));
}

#[test]
fn test_diagnostics_empty_db() {
    let v = VectorStats { total: 0, active: 0, soft_deleted: 0, hnsw_edges: 0, entry_point_present: false };
    let body_str = diagnostics_inner(0, 0, &v, 0, 0, "0.0", 0);
    assert!(body_str.contains("\"nodes\":0"));
    assert!(body_str.contains("\"edges\":0"));
    assert!(body_str.contains("\"vectors\""));
    assert!(body_str.contains("\"total\":0"));
    assert!(body_str.contains("\"active\":0"));
    assert!(body_str.contains("\"soft_deleted\":0"));
    assert!(body_str.contains("\"hnsw_edges\":0"));
    assert!(body_str.contains("\"entry_point_present\":false"));
    assert!(body_str.contains("\"system\""), "diagnostics must include system section: {body_str}");
    assert!(body_str.contains("\"rss_kb\""), "diagnostics must include rss_kb: {body_str}");
    assert!(body_str.contains("\"memory_limit_kb\""), "diagnostics must include memory_limit_kb: {body_str}");
    assert!(body_str.contains("\"rss_pct\""), "diagnostics must include rss_pct: {body_str}");
    assert!(body_str.contains("\"thread_count\""), "diagnostics must include thread_count: {body_str}");
}

#[test]
fn test_diagnostics_with_vectors() {
    let v = VectorStats { total: 2, active: 1, soft_deleted: 1, hnsw_edges: 2, entry_point_present: true };
    let body_str = diagnostics_inner(2, 1, &v, 100, 1000, "10.0", 4);
    assert!(body_str.contains("\"nodes\":2"));
    assert!(body_str.contains("\"edges\":1"));
    assert!(body_str.contains("\"total\":2"));
    assert!(body_str.contains("\"active\":1"));
    assert!(body_str.contains("\"soft_deleted\":1"));
    assert!(body_str.contains("\"entry_point_present\":true"));
}

#[test]
fn test_hnsw_health_empty_db_is_healthy() {
    let body = hnsw_health_inner(0, 0);
    assert!(body.contains("\"status\":\"healthy\""), "empty db should be healthy, got: {body}");
    assert!(body.contains("\"unreachable\":0"), "got: {body}");
}

#[test]
fn test_hnsw_health_after_inserts_is_healthy() {
    let body = hnsw_health_inner(10, 10);
    assert!(body.contains("\"status\":\"healthy\""), "10 inserts should be healthy, got: {body}");
    assert!(body.contains("\"total_active\":10"), "got: {body}");
    assert!(body.contains("\"unreachable\":0"), "got: {body}");
}

#[test]
fn test_hnsw_integrity_empty_db_is_symmetric() {
    let body = hnsw_integrity_inner(0, 0);
    assert!(body.contains("\"symmetric\":true"), "empty db should be symmetric, got: {body}");
    assert!(body.contains("\"asymmetric_edges\":0"), "got: {body}");
    assert!(body.contains("\"total_edges\":0"), "got: {body}");
}

#[test]
fn test_hnsw_integrity_after_inserts_is_symmetric() {
    let body = hnsw_integrity_inner(40, 0);
    assert!(body.contains("\"symmetric\":true"), "10 inserts should be symmetric, got: {body}");
    assert!(body.contains("\"asymmetric_edges\":0"), "got: {body}");
}
