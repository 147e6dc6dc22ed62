use sparrow_db::engine::{
    bm25_write_allowed, drop_action, rebuild_allowed, rebuild_body, NodeRebuild, RebuildRefusal, index_not_found_for_type, qualified_index_name, search_failure_error,
    bm25_not_enabled, search_items, stored_label_matches, stored_label_matches_checked, Drop, DropAction, DropItem, EngineError, IndexWrite, Insertion, VectorFailure,
};

fn stored(label: &str, rest: &[u8]) -> Vec<u8> {
    let mut v = (label.len() as u64).to_le_bytes().to_vec();
    v.extend_from_slice(label.as_bytes());
    v.extend_from_slice(rest);
    v
}

#[test]
fn index_names() {
    assert_eq!(qualified_index_name("User", "email"), "User:email");
    match index_not_found_for_type("email", "User") {
        EngineError::New(m) => assert_eq!(m, "Secondary Index 'email' not found for type 'User'"),
        other => panic!("unexpected {other:?}"),
    }
}

#[test]
fn stored_labels() {
    assert!(stored_label_matches(&stored("User", &[1, 2, 3]), "User"));
    assert!(!stored_label_matches(&stored("Post", &[]), "User"));
    assert!(!stored_label_matches(&stored("Users", &[]), "User"));
    assert!(stored_label_matches(&stored("", &[9]), ""));
}

#[test]
fn bm25_policy() {
    let excluded = vec!["Secret".to_string()];
    assert!(bm25_write_allowed(true, false, &excluded, "User"));
    assert!(!bm25_write_allowed(true, false, &excluded, "Secret"));
    assert!(!bm25_write_allowed(true, true, &excluded, "User"));
    assert!(!bm25_write_allowed(false, false, &excluded, "User"));
}

#[test]
fn insertion_reports_the_last_failure() {
    let mut ins = Insertion::new();
    ins.record_put(Ok(()));
    ins.record_index(IndexWrite::Written);
    ins.record_index(IndexWrite::Duplicate("email".to_string()));
    ins.record_index(IndexWrite::NoValue);
    assert!(!ins.vectors_due());
    match ins.finish(1u128) {
        Err(EngineError::DuplicateKey(m)) => assert_eq!(m, "Unique index 'email' already contains this value"),
        other => panic!("unexpected {other:?}"),
    }

    let mut ins = Insertion::new();
    ins.record_index(IndexWrite::NotRegistered("age".to_string()));
    ins.record_bm25(Some(Err("disk full".to_string())));
    assert!(matches!(ins.finish(1u128), Err(EngineError::Storage(m)) if m == "disk full"));

    let mut ins = Insertion::new();
    ins.record_index(IndexWrite::Written);
    ins.record_bm25(None);
    assert!(ins.vectors_due());
    assert_eq!(ins.finish(7u128).unwrap(), 7);

    let mut ins = Insertion::new();
    ins.record_vector_failure("embedding", "InvalidVectorLength");
    assert!(matches!(
        ins.finish(0u8),
        Err(EngineError::VectorError(m)) if m == "Failed to insert vector for field 'embedding': InvalidVectorLength"
    ));
}

#[test]
fn search_outcomes() {
    assert!(search_failure_error(VectorFailure::EntryPointNotFound).is_none());
    assert!(matches!(
        search_failure_error(VectorFailure::VectorNotFound(42)),
        Some(EngineError::VectorError(m)) if m == "vector not found for id 42"
    ));
    assert!(matches!(
        search_failure_error(VectorFailure::InvalidVectorLength),
        Some(EngineError::VectorError(m)) if m == "invalid vector dimensions!"
    ));
    let items = search_items(vec![Ok(1u8), Err(EngineError::NodeNotFound), Err(EngineError::Storage("x".to_string())), Ok(2)]);
    assert_eq!(items.len(), 3);
    assert!(matches!(items[0], Ok(1)));
    assert!(matches!(&items[1], Err(EngineError::Storage(m)) if m == "x"));
    assert!(matches!(items[2], Ok(2)));
}

#[test]
fn drop_actions() {
    let excluded = vec!["Log".to_string()];
    assert_eq!(
        drop_action(&DropItem::Node { id: 1, label: "User".to_string() }, true, false, &excluded),
        DropAction::Node { id: 1, bm25: true }
    );
    assert_eq!(
        drop_action(&DropItem::Node { id: 2, label: "Log".to_string() }, true, false, &excluded),
        DropAction::Node { id: 2, bm25: false }
    );
    assert_eq!(drop_action(&DropItem::Edge { id: 3 }, true, false, &excluded), DropAction::Edge { id: 3 });
    assert_eq!(drop_action(&DropItem::VectorWithoutData { id: 4 }, true, false, &excluded), DropAction::Vector { id: 4 });
    assert_eq!(drop_action(&DropItem::Empty, true, false, &excluded), DropAction::Nothing);
    assert_eq!(drop_action(&DropItem::Other("Count(3)".to_string()), true, false, &excluded), DropAction::Refuse);
}

#[test]
fn test_rebuild_bm25_empty_db() {
    assert!(rebuild_allowed(true, false).is_ok());
    let body = rebuild_body(&vec![]);
    assert!(body.contains("\"ok\":true"), "got: {body}");
    assert!(body.contains("\"indexed\":0"), "got: {body}");
    assert!(body.contains("\"total\":0"), "got: {body}");
}

#[test]
fn rebuild_counts_indexed_documents() {
    let outcomes = vec![NodeRebuild::Indexed, NodeRebuild::Excluded, NodeRebuild::Indexed, NodeRebuild::Failed];
    assert_eq!(rebuild_body(&outcomes), "{\"ok\":true,\"indexed\":2,\"total\":4}");
}

#[test]
fn rebuild_refusals() {
    assert_eq!(rebuild_allowed(false, false), Err(RebuildRefusal::NotEnabled));
    assert_eq!(rebuild_allowed(true, true), Err(RebuildRefusal::Paused));
    assert_eq!(
        RebuildRefusal::Paused.message(),
        "BM25 rebuild rejected: skip_bm25_on_write is active. Clear the flag via POST /settings before rebuilding."
    );
}

#[test]
fn drop_traversal_plans_deletions_in_order() {
    let excluded: Vec<String> = vec![];
    let items = vec![
        Ok(DropItem::Node { id: 1, label: "User".to_string() }),
        Err(EngineError::NodeNotFound),
        Ok(DropItem::Edge { id: 2 }),
        Ok(DropItem::Empty),
    ];
    let (actions, err) = Drop::drop_traversal(items, true, false, &excluded);
    assert!(err.is_none());
    assert_eq!(actions, vec![DropAction::Node { id: 1, bm25: true }, DropAction::Edge { id: 2 }, DropAction::Nothing]);

    let items = vec![
        Ok(DropItem::Vector { id: 3 }),
        Ok(DropItem::Other("Count(3)".to_string())),
        Ok(DropItem::Edge { id: 4 }),
    ];
    let (actions, err) = Drop::drop_traversal(items, false, false, &excluded);
    assert_eq!(actions, vec![DropAction::Vector { id: 3 }]);
    assert!(matches!(err, Some(EngineError::ConversionError(m)) if m == "Incorrect Type: Count(3)"));
}

#[test]
fn test_rebuild_bm25_with_skip_env_var() {
    // while writes to the index are paused, a rebuild is refused
    assert_eq!(rebuild_allowed(true, true), Err(RebuildRefusal::Paused));
    // once the flag is cleared, the rebuild indexes the stored document
    assert!(rebuild_allowed(true, false).is_ok());
    let body = rebuild_body(&vec![NodeRebuild::Indexed]);
    assert!(body.contains("\"indexed\":1"), "got: {body}");
}

#[test]
fn checked_label_reads_refuse_short_values() {
    assert!(stored_label_matches_checked(&stored("User", &[]), "User"));
    assert!(!stored_label_matches_checked(&[1, 2, 3], "User"));
    let mut truncated = stored("User", &[]);
    truncated.truncate(10);
    assert!(!stored_label_matches_checked(&truncated, "User"));
    assert!(matches!(bm25_not_enabled(), EngineError::New(m) if m == "BM25 not enabled!"));
}

#[test]
fn drop_run_stops_at_first_failed_call() {
    let actions = vec![
        sparrow_db::engine::DropAction::Node { id: 1, bm25: true },
        sparrow_db::engine::DropAction::Nothing,
        sparrow_db::engine::DropAction::Edge { id: 2 },
        sparrow_db::engine::DropAction::Vector { id: 3 },
    ];
    let mut run = sparrow_db::engine::DropRun::new(&actions);
    assert_eq!(
        run.calls,
        vec![
            sparrow_db::engine::DeleteCall::Node(1),
            sparrow_db::engine::DeleteCall::Bm25Doc(1),
            sparrow_db::engine::DeleteCall::Edge(2),
            sparrow_db::engine::DeleteCall::Vector(3),
        ]
    );
    assert_eq!(run.next_call(), Some(&sparrow_db::engine::DeleteCall::Node(1)));
    assert!(run.record(Ok(())).is_none());
    assert_eq!(run.next_call(), Some(&sparrow_db::engine::DeleteCall::Bm25Doc(1)));
    let err = run.record(Err(sparrow_db::engine::EngineError::Storage("disk".to_string())));
    assert!(matches!(err, Some(sparrow_db::engine::EngineError::Storage(m)) if m == "disk"));
    assert_eq!(run.next_call(), None);
}

#[test]
fn index_entries_of_a_new_node() {
    let r = sparrow_db::engine::plan_index_write("email", None, true);
    assert!(matches!(r, sparrow_db::engine::IndexCall::Done(IndexWrite::NotRegistered(ix)) if ix == "email"));
    let r = sparrow_db::engine::plan_index_write("email", Some(sparrow_db::engine::IndexKind::Unique), false);
    assert!(matches!(r, sparrow_db::engine::IndexCall::Done(IndexWrite::NoValue)));
    let r = sparrow_db::engine::plan_index_write("email", Some(sparrow_db::engine::IndexKind::Unique), true);
    assert!(matches!(r, sparrow_db::engine::IndexCall::CheckUnique));
    let r = sparrow_db::engine::plan_index_write("email", Some(sparrow_db::engine::IndexKind::Plain), true);
    assert!(matches!(r, sparrow_db::engine::IndexCall::Put));
    let r = sparrow_db::engine::after_unique_check("email", Ok(true));
    assert!(matches!(r, sparrow_db::engine::IndexCall::Done(IndexWrite::Duplicate(ix)) if ix == "email"));
    assert!(matches!(sparrow_db::engine::after_unique_check("email", Ok(false)), sparrow_db::engine::IndexCall::Put));
    assert!(matches!(sparrow_db::engine::after_index_put(Err("io".to_string())), IndexWrite::Failed(m) if m == "io"));
    let mut ins = Insertion::new();
    ins.record_index(IndexWrite::Duplicate("email".to_string()));
    assert!(matches!(ins.finish(1u8), Err(EngineError::DuplicateKey(m)) if m == "Unique index 'email' already contains this value"));
    assert!(!sparrow_db::engine::bm25_insert_due(true, false, &vec![], "User", false));
    assert!(sparrow_db::engine::bm25_insert_due(true, false, &vec![], "User", true));
}
