use sparrow_db::memory::{all_indices, carried_questions, previous_completed_run, status_is, RUN_THREAD_ID};
use sparrow_db::value::Value;

fn with_status(status: &str) -> Vec<(String, Value)> {
    vec![("thread_id".to_string(), Value::U128(1)), ("status".to_string(), Value::String(status.to_string()))]
}

#[test]
fn status_reads_last_entry() {
    let mut props = with_status("running");
    assert!(status_is(&props, "running"));
    props.push(("status".to_string(), Value::String("completed".to_string())));
    assert!(status_is(&props, "completed"));
    assert!(!status_is(&props, "running"));
    assert!(!status_is(&vec![("status".to_string(), Value::U32(1))], "1"));
    assert!(!status_is(&vec![], "open"));
}

#[test]
fn new_run_follows_latest_completed_run() {
    let runs = vec![
        (10u128, with_status("completed")),
        (30u128, with_status("interrupted")),
        (20u128, with_status("completed")),
        (40u128, with_status("completed")),
    ];
    assert_eq!(previous_completed_run(40, &runs), Some(20));
    assert_eq!(previous_completed_run(50, &runs), Some(40));
    assert_eq!(previous_completed_run(1, &vec![(2u128, with_status("running"))]), None);
}

#[test]
fn open_questions_are_carried_in_order() {
    let qs = vec![
        (5u128, with_status("open")),
        (6u128, with_status("resolved")),
        (7u128, with_status("open")),
    ];
    assert_eq!(carried_questions(&qs), vec![5, 7]);
}

#[test]
fn memory_index_names() {
    let names = all_indices();
    assert_eq!(names.len(), 6);
    assert!(names.contains(&RUN_THREAD_ID));
    assert_eq!(names[0], "finding:thread_id");
}

#[test]
fn set_status_replaces_the_status_entry() {
    let props = vec![
        ("status".to_string(), Value::String("open".to_string())),
        ("question".to_string(), Value::String("why?".to_string())),
    ];
    let r = sparrow_db::memory::set_status(props, "resolved");
    assert_eq!(r.len(), 2);
    assert_eq!(r[0].0, "question");
    assert_eq!(r[1].0, "status");
    assert!(status_is(&r, "resolved"));
    assert!(!status_is(&r, "open"));
}

#[test]
fn answered_question_is_not_carried() {
    let mut questions = vec![(1u128, with_status("open")), (2u128, with_status("open")), (3u128, with_status("open"))];
    let answered = sparrow_db::memory::set_status(with_status("open"), "resolved");
    questions[1].1 = answered;
    assert_eq!(carried_questions(&questions), vec![1, 3]);
}

#[test]
fn interrupted_run_is_not_followed() {
    let runs = vec![(5u128, sparrow_db::memory::set_status(with_status("completed"), "interrupted")), (4u128, with_status("completed"))];
    assert_eq!(previous_completed_run(9, &runs), Some(4));
}

#[test]
fn summary_props_in_order() {
    let p = sparrow_db::memory::summary_props("done", 3, 1, 10, 20);
    let names: Vec<&str> = p.iter().map(|(k, _)| k.as_str()).collect();
    assert_eq!(names, vec!["summary", "finding_count", "question_count", "run_id", "thread_id"]);
    assert!(matches!(p[1].1, Value::U32(3)));
    assert!(matches!(p[4].1, Value::U128(20)));
}
