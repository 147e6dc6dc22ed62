use sparrow_db::json::{Json, JsonNumber};
use sparrow_db::stress::{base_url, extract_bool, extract_count, is_nonempty, PhaseResult};

fn num(n: u64) -> Json {
    Json::Number(JsonNumber { as_u64: Some(n), as_i64: Some(n as i64), as_f64_bits: Some((n as f64).to_bits()) })
}

#[test]
fn phase_report() {
    let mut p = PhaseResult::new("writes");
    p.pass();
    p.pass();
    for i in 0..7 {
        p.fail(format!("failure {i}"));
    }
    let lines = p.report_lines();
    assert_eq!(lines.len(), 7);
    assert_eq!(lines[0], format!("  {:<40} passed=2 failed=7 (0 ms)", "writes"));
    assert_eq!(lines[1], "    ! failure 0");
    assert_eq!(lines[5], "    ! failure 4");
    assert_eq!(lines[6], "    ! ... and 2 more failures");
}

#[test]
fn response_checks() {
    assert!(!is_nonempty(&Json::Null));
    assert!(!is_nonempty(&Json::Array(vec![])));
    assert!(is_nonempty(&Json::Array(vec![Json::Null])));
    assert!(!is_nonempty(&Json::Object(vec![("users".to_string(), Json::Array(vec![]))])));
    assert!(is_nonempty(&Json::Object(vec![("users".to_string(), Json::Array(vec![num(1)]))])));
    assert_eq!(extract_count(&num(4)), Some(4));
    assert_eq!(extract_count(&Json::Object(vec![("a".to_string(), Json::Null), ("count".to_string(), num(9))])), Some(9));
    assert_eq!(extract_count(&Json::Null), None);
    assert_eq!(extract_bool(&Json::Object(vec![("exists".to_string(), Json::Bool(true))])), Some(true));
    assert_eq!(extract_bool(&num(1)), None);
}

#[test]
fn base_urls() {
    assert_eq!(base_url("localhost", 6969), "http://localhost:6969");
    assert_eq!(base_url("https://db.example.com", 443), "https://db.example.com:443");
    assert_eq!(base_url("http://10.0.0.1", 80), "http://10.0.0.1:80");
}

#[test]
fn traversal_tasks_in_order() {
    let ids = |v: &[&str]| v.iter().map(|s| s.to_string()).collect::<Vec<String>>();
    let companies: Vec<String> = (0..20).map(|i| format!("Company number {i} with a long name")).collect();
    let jobs = ids(&["Engineer", "Nurse"]);
    let tasks = sparrow_db::stress::traversal_tasks(
        &ids(&["0123456789abcdef"]),
        &ids(&["fedcba9876543210"]),
        &[],
        &[],
        &ids(&["aaaaaaaabbbb"]),
        &companies,
        &jobs,
    );
    // 1 + 1 + 0 + 0 + 1 + 15 + 15 + 2 + 2 + 5 + 2 + 3
    assert_eq!(tasks.len(), 47);
    assert_eq!(tasks[0].label, "GetPersonCompany(has_company=01234567)");
    assert!(tasks[0].expect_data);
    assert_eq!(tasks[0].param, Some(("person_id".to_string(), "0123456789abcdef".to_string())));
    assert_eq!(tasks[1].label, "GetPersonCompany(no_company=fedcba98)");
    assert!(!tasks[1].expect_data);
    assert_eq!(tasks[2].label, "GetPersonFullInfo(aaaaaaaa)");
    assert_eq!(tasks[3].label, "getPeopleAtCompany(Company number 0 wit)");
    assert_eq!(tasks[3].query, "getPeopleAtCompany");
    assert_eq!(tasks[46].label, "getAllJobs()");
    assert_eq!(tasks[46].param, None);
}

#[test]
fn judge_traversal_answers() {
    let task = sparrow_db::stress::TraversalTask {
        query: "getAllPeople".to_string(),
        param: None,
        expect_data: true,
        label: "getAllPeople()".to_string(),
    };
    assert_eq!(
        sparrow_db::stress::judge_traversal(&task, false, &Json::Null, "null"),
        Err("getAllPeople(): HTTP error \u{2013} null".to_string())
    );
    assert_eq!(
        sparrow_db::stress::judge_traversal(&task, true, &Json::Array(vec![]), "[]"),
        Err("getAllPeople(): expected data but got empty \u{2013} []".to_string())
    );
    assert_eq!(sparrow_db::stress::judge_traversal(&task, true, &Json::Bool(true), "true"), Ok(()));
}

fn reply(ok: bool, body: Json, text: &str) -> sparrow_db::stress::LifecycleEvent {
    sparrow_db::stress::LifecycleEvent::Answer(sparrow_db::stress::HttpAnswer::Reply { ok, body, text: text.to_string() })
}

#[test]
fn hnsw_lifecycle_runs_its_checks_in_order() {
    let mut phase = sparrow_db::stress::HnswLifecycle {
        stage: sparrow_db::stress::LifecycleStage::Start,
        result: PhaseResult::new("hnsw_lifecycle"),
        inserted: 0,
        tag: "hnsw_stress_a_1234abcd".to_string(),
    };
    let a = phase.step(sparrow_db::stress::LifecycleEvent::Start);
    assert!(matches!(a, sparrow_db::stress::LifecycleAction::Insert { second: false, count: 20, label_prefix: "skill_" }));
    let a = phase.step(sparrow_db::stress::LifecycleEvent::Inserted(20));
    assert!(matches!(a, sparrow_db::stress::LifecycleAction::Search { second: false }));
    let a = phase.step(reply(true, Json::Array(vec![]), "[]"));
    assert!(matches!(a, sparrow_db::stress::LifecycleAction::ListFirst));
    assert_eq!(phase.result.notes, vec!["SearchV returned empty after inserting 20 vectors: []".to_string()]);
    let a = phase.step(reply(true, Json::Array(vec![Json::Null]), "[null]"));
    assert!(matches!(a, sparrow_db::stress::LifecycleAction::Delete { second: false }));
    let a = phase.step(reply(true, Json::Null, "null"));
    assert!(matches!(a, sparrow_db::stress::LifecycleAction::ListFirst));
    let a = phase.step(reply(true, Json::Array(vec![Json::Bool(true)]), "[true]"));
    assert!(matches!(a, sparrow_db::stress::LifecycleAction::Insert { second: true, count: 5, label_prefix: "reinsertion_" }));
    assert_eq!(phase.result.notes[1], "HNSW vectors still visible after delete: [true]");
    let a = phase.step(sparrow_db::stress::LifecycleEvent::Inserted(0));
    assert!(matches!(a, sparrow_db::stress::LifecycleAction::Delete { second: true }));
    let a = phase.step(reply(true, Json::Null, "null"));
    assert!(matches!(a, sparrow_db::stress::LifecycleAction::Finish));
    assert_eq!(phase.result.passed, 3);
    assert_eq!(phase.result.failed, 2);
}

#[test]
fn hnsw_lifecycle_stops_when_nothing_was_inserted() {
    let mut phase = sparrow_db::stress::HnswLifecycle {
        stage: sparrow_db::stress::LifecycleStage::Start,
        result: PhaseResult::new("hnsw_lifecycle"),
        inserted: 0,
        tag: "t".to_string(),
    };
    let _ = phase.step(sparrow_db::stress::LifecycleEvent::Start);
    let a = phase.step(sparrow_db::stress::LifecycleEvent::Inserted(0));
    assert!(matches!(a, sparrow_db::stress::LifecycleAction::Finish));
    assert_eq!(phase.result.notes, vec!["HNSW: no vectors could be inserted".to_string()]);
}
