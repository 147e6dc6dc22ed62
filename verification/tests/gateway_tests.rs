use sparrow_db::gateway::{
    check_worker_count, cores_to_use, worker_prefers_requests, CoreSetter, GatewayOpts, WorkerCountError,
};

#[test]
fn test_gateway_opts_default_workers_per_core() {
    assert_eq!(GatewayOpts::DEFAULT_WORKERS_PER_CORE, 4);
}

#[test]
fn test_core_setter_new() {
    let cores = vec![0, 1];
    let setter = CoreSetter::new(cores.clone(), 8);
    assert_eq!(setter.cores.len(), 2);
    assert_eq!(setter.threads_per_core, 8);
}

#[test]
fn test_core_setter_num_threads_single_core() {
    let setter = CoreSetter::new(vec![0], 1);
    assert_eq!(setter.num_threads(), 1);
}

#[test]
fn test_core_setter_num_threads_multiple_cores() {
    let cores = vec![0, 1, 2];
    let setter = CoreSetter::new(cores, 1);
    assert_eq!(setter.num_threads(), 3);
}

#[test]
fn test_core_setter_num_threads_multiple_threads_per_core() {
    let cores = vec![0, 1];
    let setter = CoreSetter::new(cores, 8);
    assert_eq!(setter.num_threads(), 16);
}

#[test]
fn test_core_setter_num_threads_edge_cases() {
    let setter1 = CoreSetter::new(vec![], 8);
    assert_eq!(setter1.num_threads(), 0);
    let cores = vec![0, 1];
    let setter2 = CoreSetter::new(cores, 0);
    assert_eq!(setter2.num_threads(), 0);
}

#[test]
fn test_core_setter_calculation() {
    let cores = vec![0, 1, 2, 3];
    let setter = CoreSetter::new(cores, 8);
    assert_eq!(setter.num_threads(), 32);
}

#[test]
fn test_core_setter_empty_cores() {
    let setter = CoreSetter::new(vec![], 10);
    assert_eq!(setter.cores.len(), 0);
    assert_eq!(setter.num_threads(), 0);
}

#[test]
fn test_core_setter_single_thread() {
    let cores = vec![0, 1];
    let setter = CoreSetter::new(cores, 1);
    assert_eq!(setter.threads_per_core, 1);
    assert_eq!(setter.num_threads(), 2);
}

#[test]
fn test_core_setter_many_threads() {
    let setter = CoreSetter::new(vec![0], 100);
    assert_eq!(setter.num_threads(), 100);
}

#[test]
fn test_core_setter_num_threads_consistency() {
    let cores = vec![0, 1];
    let setter = CoreSetter::new(cores, 8);
    assert_eq!(setter.num_threads(), 16);
}

#[test]
fn test_core_setter_threads_per_core_zero() {
    let setter = CoreSetter::new(vec![0], 0);
    assert_eq!(setter.threads_per_core, 0);
    assert_eq!(setter.num_threads(), 0);
}

#[test]
fn test_core_setter_with_default_workers() {
    let cores = vec![0, 1];
    let setter = CoreSetter::new(cores, GatewayOpts::DEFAULT_WORKERS_PER_CORE);
    assert_eq!(setter.threads_per_core, 4);
    assert_eq!(setter.num_threads(), 8);
}

#[test]
fn test_core_setter_index_initial_value() {
    let setter = CoreSetter::new(vec![0], 1);
    assert_eq!(setter.incrementing_index, 0);
}

#[test]
fn core_setter_hands_out_cores_in_blocks() {
    let mut setter = CoreSetter::new(vec![0, 1], 2);
    assert_eq!(setter.next_core(), Some(0));
    assert_eq!(setter.next_core(), Some(0));
    assert_eq!(setter.next_core(), Some(1));
    assert_eq!(setter.next_core(), Some(1));
    assert_eq!(setter.next_core(), None);
    assert_eq!(setter.incrementing_index, 5);
}

#[test]
fn core_override_is_capped() {
    assert_eq!(cores_to_use(8, None), Some(8));
    assert_eq!(cores_to_use(8, Some("3")), Some(3));
    assert_eq!(cores_to_use(8, Some("64")), Some(8));
    assert_eq!(cores_to_use(8, Some("many")), None);
}

#[test]
fn worker_counts() {
    assert_eq!(check_worker_count(1), Err(WorkerCountError::TooFew));
    assert_eq!(check_worker_count(3), Err(WorkerCountError::Odd));
    assert_eq!(check_worker_count(4), Ok(()));
    assert!(worker_prefers_requests(0));
    assert!(!worker_prefers_requests(1));
}

#[test]
fn introspect_answers() {
    let schema = Some("{\"nodes\":[]}".to_string());
    assert!(matches!(
        sparrow_db::gateway::introspect_answer(true, false, &schema),
        Err(sparrow_db::auth::SparrowError::InvalidApiKey)
    ));
    assert_eq!(
        sparrow_db::gateway::introspect_answer(true, true, &schema).ok(),
        Some((200, "{\"nodes\":[]}".to_string()))
    );
    assert_eq!(
        sparrow_db::gateway::introspect_answer(false, false, &None).ok(),
        Some((500, "Could not find schema".to_string()))
    );
}

#[test]
fn set_current_counts_each_thread() {
    let mut setter = CoreSetter::new(vec![0], 1);
    assert_eq!(setter.set_current(), Some((0, 0)));
    assert_eq!(setter.incrementing_index, 1);
    assert_eq!(setter.set_current(), None);
    assert_eq!(setter.incrementing_index, 2);
}

#[test]
fn set_current_hands_out_cores_by_block() {
    let mut setter = CoreSetter::new(vec![5000, 6000], 2);
    assert_eq!(setter.set_current(), Some((0, 5000)));
    assert_eq!(setter.set_current(), Some((0, 5000)));
    assert_eq!(setter.set_current(), Some((1, 6000)));
    assert_eq!(setter.set_current(), Some((1, 6000)));
    assert_eq!(setter.set_current(), None);
    assert!(!sparrow_db::gateway::pin_current_thread(5000));
    assert!(!sparrow_db::gateway::pin_current_thread(64));
}
