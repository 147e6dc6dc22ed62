use sparrow_db::migration::{
    cast, field_addition_from_old_field, migrate_list_body, migrate_status_body, run_schema_migrations,
    MigrationAction, MigrationEvent, StoredItem, field_addition_from_value, field_type_cast, migration_name,
    migration_needed, plan_schema_migrations, CastType, ItemInfo, MigrationRecord, MigrationStatus, Transition,
    TransitionFn, VersionInfo,
};
use sparrow_db::value::{PropMap, Value};

fn noop(p: PropMap) -> PropMap {
    p
}

fn rename_a_to_b(mut props: PropMap) -> PropMap {
    if let Some(v) = props.remove("a") {
        props.insert("b".to_string(), v);
    }
    props
}

#[test]
fn in_progress_constructor() {
    let r = MigrationRecord::in_progress(0xabcd);
    assert_eq!(r.status, MigrationStatus::InProgress);
    assert_eq!(r.applied_at, 0);
    assert_eq!(r.checksum, 0xabcd);
}

#[test]
fn complete_constructor_sets_timestamp() {
    let r = MigrationRecord::complete(0x1234);
    assert_eq!(r.status, MigrationStatus::Complete);
    assert!(r.applied_at > 0);
    assert_eq!(r.checksum, 0x1234);
}

#[test]
fn test_field_renaming() {
    let mut props = PropMap::new();
    props.insert("some_name".to_string(), Value::String("some_value".to_string()));
    let mut new_props = PropMap::new();
    field_addition_from_old_field(&mut props, &mut new_props, "new_name", "some_name");

    let mut expected = PropMap::new();
    expected.insert("new_name".to_string(), Value::String("some_value".to_string()));
    assert!(new_props.same_as(&expected));
    assert_eq!(new_props.len(), 1);
    assert_eq!(new_props.get("new_name"), Some(&Value::String("some_value".to_string())));
    assert_eq!(props.len(), 0);
}

#[test]
fn test_field_type_cast() {
    let mut props = PropMap::new();
    props.insert("some_name".to_string(), Value::String("123".to_string()));
    let mut new_props = PropMap::new();
    field_type_cast(&mut props, &mut new_props, "some_name", CastType::U32);

    let mut expected = PropMap::new();
    expected.insert("some_name".to_string(), Value::U32(123));
    assert!(new_props.same_as(&expected));
    assert_eq!(new_props.get("some_name"), Some(&Value::U32(123)));
}

#[test]
fn test_field_addition_from_value() {
    let mut new_props = PropMap::new();
    field_addition_from_value(&mut new_props, "new_name", Value::U32(123));

    let mut expected = PropMap::new();
    expected.insert("new_name".to_string(), Value::U32(123));
    assert!(new_props.same_as(&expected));
    assert_eq!(new_props.len(), 1);
}

#[test]
fn transition_new_sets_reversible_false() {
    let t = Transition::new("X", 1, 2, noop as fn(PropMap) -> PropMap);
    assert!(!t.reversible);
    assert!(t.down_fn.is_none());
}

#[test]
fn no_transitions_is_noop() {
    let transitions: Vec<Transition<fn(PropMap) -> PropMap>> = vec![];
    let result = run_schema_migrations(&transitions);
    assert!(result.is_ok());
    assert!(result.unwrap().is_none());
    assert!(plan_schema_migrations(&transitions).unwrap().is_none());
}

#[test]
fn gap_in_chain_returns_error() {
    let transitions = vec![
        Transition::new("User", 1, 2, noop as fn(PropMap) -> PropMap),
        // v2 → v3 is missing, so v3 → v4 leaves a gap
        Transition::new("User", 3, 4, noop as fn(PropMap) -> PropMap),
    ];
    let result = run_schema_migrations(&transitions);
    assert!(result.is_err(), "gap in chain must return an error");
    let gap = result.err().unwrap();
    assert_eq!(
        gap.message(),
        "Migration chain gap for 'User': 1 → 2 is not contiguous with 3 → 4"
    );
}

#[test]
fn migration_run_drives_each_planned_migration() {
    let transitions = vec![
        Transition::new("User", 1, 2, noop as fn(PropMap) -> PropMap),
        Transition::new("User", 2, 3, noop as fn(PropMap) -> PropMap),
    ];
    let (mut run, first) = run_schema_migrations(&transitions).unwrap().unwrap();
    assert!(matches!(&first, MigrationAction::ReadRecord { name } if name == "User_v1_v2"));
    // the first migration completed in an earlier run: it is skipped
    let a = run.step(MigrationEvent::Record(Some(MigrationRecord::complete(1))));
    assert!(matches!(&a, MigrationAction::ReadRecord { name } if name == "User_v2_v3"));
    let a = run.step(MigrationEvent::Record(None));
    match &a {
        MigrationAction::MarkInProgress { name, record } => {
            assert_eq!(name, "User_v2_v3");
            assert_eq!(record.status, MigrationStatus::InProgress);
        },
        other => panic!("unexpected {other:?}"),
    }
    assert!(matches!(run.step(MigrationEvent::Done), MigrationAction::ApplyTransition { index: 1 }));
    assert!(matches!(run.step(MigrationEvent::Done), MigrationAction::MarkComplete { ref name, .. } if name == "User_v2_v3"));
    assert!(matches!(run.step(MigrationEvent::Done), MigrationAction::SaveSchemaVersion { ref schema_version } if schema_version == "v3"));
    assert!(matches!(run.step(MigrationEvent::Done), MigrationAction::Finished(Ok(()))));
}

#[test]
fn migration_run_stops_at_first_failure() {
    let transitions = vec![Transition::new("Post", 1, 2, noop as fn(PropMap) -> PropMap)];
    let (mut run, _) = run_schema_migrations(&transitions).unwrap().unwrap();
    let _ = run.step(MigrationEvent::Record(None));
    let a = run.step(MigrationEvent::Failed("disk full".to_string()));
    assert!(matches!(a, MigrationAction::Finished(Err(ref e)) if e == "disk full"));
    let a = run.step(MigrationEvent::Done);
    assert!(matches!(a, MigrationAction::Finished(Err(ref e)) if e == "migration run: unexpected event"));
}

#[test]
fn plan_orders_chains_and_names_latest_version() {
    let transitions = vec![
        Transition::new("User", 2, 3, noop as fn(PropMap) -> PropMap),
        Transition::new("Post", 1, 2, noop as fn(PropMap) -> PropMap),
        Transition::new("User", 1, 2, noop as fn(PropMap) -> PropMap),
    ];
    let (steps, latest) = plan_schema_migrations(&transitions).unwrap().unwrap();
    let names: Vec<&str> = steps.iter().map(|s| s.name.as_str()).collect();
    assert_eq!(names, vec!["User_v1_v2", "User_v2_v3", "Post_v1_v2"]);
    let indices: Vec<usize> = steps.iter().map(|s| s.index).collect();
    assert_eq!(indices, vec![2, 0, 1]);
    assert_eq!(latest, "v3");
    // the checksum depends on the label and versions alone
    let again = plan_schema_migrations(&transitions).unwrap().unwrap().0;
    assert_eq!(steps[0].checksum, again[0].checksum);
    assert_ne!(steps[0].checksum, steps[1].checksum);
}

#[test]
fn migration_name_format() {
    assert_eq!(migration_name("User", 1, 12), "User_v1_v12");
}

#[test]
fn completed_migrations_are_not_run_again() {
    assert!(migration_needed(&None));
    assert!(migration_needed(&Some(MigrationRecord::in_progress(7))));
    assert!(!migration_needed(&Some(MigrationRecord::complete(7))));
}

#[test]
fn upgrade_updates_version_number() {
    let mut info: VersionInfo<fn(PropMap) -> PropMap> = VersionInfo::new();
    let mut item: ItemInfo<fn(PropMap) -> PropMap> = ItemInfo::new();
    item.latest = 2;
    item.transition_fns.push(TransitionFn { from_version: 1, to_version: 2, func: rename_a_to_b });
    info.0.insert("TestItem".to_string(), item);

    let mut props = PropMap::new();
    props.insert("a".to_string(), Value::String("hello".to_string()));
    let node = StoredItem { label: "TestItem".to_string(), version: 1, properties: Some(props) };

    let upgraded = info.upgrade_item_to_latest(node);
    assert_eq!(upgraded.version, 2, "version must be updated after upgrade");
    let props = upgraded.properties.unwrap();
    assert!(props.get("b").is_some(), "field 'a' must be renamed to 'b'");
    assert!(props.get("a").is_none(), "field 'a' must be removed");
    assert_eq!(info.upgrade_plan("TestItem", 1).map(|(fns, v)| (fns, v)), Some((vec![0], 2)));
}

#[test]
fn no_upgrade_when_at_latest() {
    let info: VersionInfo<fn(PropMap) -> PropMap> = VersionInfo::new();
    let node = StoredItem { label: "Unknown".to_string(), version: 1, properties: Some(PropMap::new()) };
    let result = info.upgrade_item_to_latest(node);
    assert_eq!(result.version, 1);
    assert!(info.upgrade_plan("Unknown", 1).is_none());
    assert_eq!(info.get_latest("Unknown"), 1);
}

#[test]
fn cast_between_types() {
    assert_eq!(cast(Value::String("123".to_string()), CastType::U32), Value::U32(123));
    assert_eq!(cast(Value::U32(7), CastType::String), Value::String("7".to_string()));
    assert_eq!(cast(Value::I64(-5), CastType::String), Value::String("-5".to_string()));
    assert_eq!(cast(Value::Boolean(true), CastType::String), Value::String("true".to_string()));
}

#[test]
fn migrate_list_returns_json_array() {
    let transitions: Vec<Transition<fn(PropMap) -> PropMap>> = vec![];
    let body = migrate_list_body(&transitions);
    assert!(body.starts_with('[') && body.ends_with(']'));
    assert_eq!(body, "[]");
}

#[test]
fn migrate_status_returns_json_array() {
    let transitions: Vec<Transition<fn(PropMap) -> PropMap>> = vec![];
    let body = migrate_status_body(&transitions, &[]);
    assert!(body.starts_with('[') && body.ends_with(']'));
    assert_eq!(body, "[]");
}

#[test]
fn migrate_reports_describe_each_transition() {
    let transitions = vec![
        Transition::new("User", 1, 2, noop as fn(PropMap) -> PropMap),
        Transition::new("Post", 3, 4, noop as fn(PropMap) -> PropMap),
    ];
    assert_eq!(
        migrate_list_body(&transitions),
        "[{\"label\":\"User\",\"from_version\":1,\"to_version\":2,\"reversible\":false},{\"label\":\"Post\",\"from_version\":3,\"to_version\":4,\"reversible\":false}]"
    );
    let records = vec![Some(MigrationRecord::in_progress(77)), None];
    assert_eq!(
        migrate_status_body(&transitions, &records),
        "[{\"name\":\"User_v1_v2\",\"status\":\"InProgress\",\"applied_at\":0,\"checksum\":77,\"reversible\":false},{\"name\":\"Post_v3_v4\",\"status\":\"NotRun\",\"applied_at\":0,\"checksum\":0,\"reversible\":false}]"
    );
}

#[test]
fn transition_selects_items_at_its_starting_version() {
    let t = Transition::new("User", 1, 2, rename_a_to_b as fn(PropMap) -> PropMap);
    let items = vec![
        (10, "User".to_string(), 1),
        (11, "User".to_string(), 2),
        (12, "User".to_string(), 1),
        (13, "Post".to_string(), 1),
        (14, "User".to_string(), 3),
    ];
    let ids = sparrow_db::migration::items_to_migrate(&t, &items);
    assert_eq!(ids, vec![10, 12]);
}

#[test]
fn transition_rewrites_one_item() {
    let t = Transition::new("User", 1, 2, rename_a_to_b as fn(PropMap) -> PropMap);
    let mut props = PropMap::new();
    props.insert("a".to_string(), Value::I64(5));
    let item = StoredItem { label: "User".to_string(), version: 1, properties: Some(props) };
    let out = t.migrate_item(item).expect("item at the starting version is rewritten");
    assert_eq!(out.version, 2);
    assert_eq!(out.label, "User");
    let p = out.properties.expect("properties");
    assert!(p.get("a").is_none());
    assert!(matches!(p.get("b"), Some(Value::I64(5))));

    let empty = StoredItem { label: "User".to_string(), version: 1, properties: None };
    let out = t.migrate_item(empty).expect("rewritten");
    assert_eq!(out.properties.map(|p| p.len()), Some(0));

    let later = StoredItem { label: "User".to_string(), version: 2, properties: None };
    assert!(t.migrate_item(later).is_none());
    let other = StoredItem { label: "Post".to_string(), version: 1, properties: None };
    assert!(t.migrate_item(other).is_none());
}

#[test]
fn complete_at_records_the_given_time() {
    let r = MigrationRecord::complete_at(0x1234, 1_700_000_000);
    assert_eq!(r.applied_at, 1_700_000_000);
    assert_eq!(r.checksum, 0x1234);
    assert_eq!(r.status, MigrationStatus::Complete);
    assert!(!r.reversible);
}

#[test]
fn rerun_after_completion_applies_nothing() {
    let transitions = vec![
        Transition::new("User", 1, 2, noop as fn(PropMap) -> PropMap),
        Transition::new("User", 2, 3, noop as fn(PropMap) -> PropMap),
    ];
    let (mut run, mut action) = run_schema_migrations(&transitions).unwrap().unwrap();
    let mut applied = 0;
    loop {
        let event = match action {
            MigrationAction::ReadRecord { .. } => MigrationEvent::Record(Some(MigrationRecord::complete_at(1, 5))),
            MigrationAction::ApplyTransition { .. } => {
                applied += 1;
                MigrationEvent::Done
            }
            MigrationAction::MarkInProgress { .. } | MigrationAction::MarkComplete { .. } => {
                applied += 1;
                MigrationEvent::Done
            }
            MigrationAction::SaveSchemaVersion { ref schema_version } => {
                assert_eq!(schema_version, "v3");
                MigrationEvent::Done
            }
            MigrationAction::Finished(r) => {
                assert!(r.is_ok());
                break;
            }
        };
        action = run.step(event);
    }
    assert_eq!(applied, 0);
}
