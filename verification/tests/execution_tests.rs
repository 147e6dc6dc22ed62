use sparrow_db::compat::CompatStep;
use sparrow_db::engine::{DeleteCall, DropItem};
use sparrow_db::execution::{compat_step, mutation_step, StepAction, StepError, StepEvent, StepState};
use sparrow_db::lower::{LoweredOp, LoweredStep, MutationOp};
use sparrow_db::names::NameMap;
use sparrow_db::tools::ToolArgs;
use sparrow_db::value::{PropMap, Value};

fn node(id: u128, label: &str) -> DropItem {
    DropItem::Node { id, label: label.to_string() }
}

fn bindings() -> NameMap<Vec<DropItem>> {
    NameMap {
        entries: vec![
            ("alice".to_string(), vec![node(1, "User")]),
            ("bob".to_string(), vec![node(2, "User")]),
            ("both".to_string(), vec![node(1, "User"), node(2, "User")]),
            ("none".to_string(), vec![]),
        ],
    }
}

fn no_indices() -> NameMap<()> {
    NameMap { entries: vec![] }
}

fn users() -> Vec<ToolArgs> {
    vec![ToolArgs::NFromType { node_type: "User".to_string() }]
}

#[test]
fn traversal_op_binds_what_it_reached() {
    let op = LoweredOp::Traversal(LoweredStep { seed_var: None, tool_args: users(), bind_to: "u".to_string() });
    let (st, act) = mutation_step(&op, &bindings(), &no_indices(), StepState::Start, StepEvent::Start);
    assert_eq!(st, StepState::AwaitItems);
    assert!(matches!(act, StepAction::Traverse));
    let (st, act) = mutation_step(&op, &bindings(), &no_indices(), st, StepEvent::Items(vec![node(7, "User")]));
    assert_eq!(st, StepState::Over);
    assert!(matches!(act, StepAction::Bind(v) if v.len() == 1));
}

#[test]
fn add_node_names_indexed_fields() {
    let mut fields = PropMap::new();
    fields.insert("email".to_string(), Value::String("a@b".to_string()));
    fields.insert("age".to_string(), Value::I64(3));
    let op = LoweredOp::Mutation {
        bind_to: "n".to_string(),
        op: MutationOp::AddNode { node_type: "User".to_string(), fields },
    };
    let indices = NameMap { entries: vec![("email".to_string(), ())] };
    let (st, act) = mutation_step(&op, &bindings(), &indices, StepState::Start, StepEvent::Start);
    assert_eq!(st, StepState::AwaitItems);
    assert!(matches!(act, StepAction::AddNode { indices: Some(v) } if v == vec!["email".to_string()]));
}

#[test]
fn add_edge_checks_its_variables() {
    let edge = |from: &str, to: &str| LoweredOp::Mutation {
        bind_to: "e".to_string(),
        op: MutationOp::AddEdge {
            edge_type: "Knows".to_string(),
            from_var: from.to_string(),
            to_var: to.to_string(),
            fields: PropMap::new(),
        },
    };
    let (st, act) = mutation_step(&edge("alice", "bob"), &bindings(), &no_indices(), StepState::Start, StepEvent::Start);
    assert_eq!(st, StepState::AwaitItems);
    assert!(matches!(act, StepAction::AddEdge { from: 1, to: 2 }));
    let (_, act) = mutation_step(&edge("both", "bob"), &bindings(), &no_indices(), StepState::Start, StepEvent::Start);
    assert!(matches!(act, StepAction::Fail(StepError::Lowering(m))
        if m == "AddEdge From variable 'both' must contain exactly one node, got 2"));
    let (_, act) = mutation_step(&edge("alice", "carol"), &bindings(), &no_indices(), StepState::Start, StepEvent::Start);
    assert!(matches!(act, StepAction::Fail(StepError::Lowering(m)) if m == "variable 'carol' not found"));
}

#[test]
fn drop_nodes_deletes_nodes_and_edges_then_binds_nothing() {
    let op = LoweredOp::Mutation {
        bind_to: "d".to_string(),
        op: MutationOp::DropNodes { seed_var: Some("alice".to_string()), tool_args: vec![] },
    };
    let b = bindings();
    let (st, act) = mutation_step(&op, &b, &no_indices(), StepState::Start, StepEvent::Start);
    assert_eq!(st, StepState::AwaitTargets);
    assert!(matches!(act, StepAction::Traverse));
    let targets = vec![node(1, "User"), DropItem::Edge { id: 9 }, DropItem::Empty];
    let (st, act) = mutation_step(&op, &b, &no_indices(), st, StepEvent::Items(targets));
    assert_eq!(st, StepState::AwaitDrop);
    assert!(matches!(act, StepAction::Drop { calls } if calls == vec![DeleteCall::Node(1), DeleteCall::Edge(9)]));
    let (st, act) = mutation_step(&op, &b, &no_indices(), st, StepEvent::Done);
    assert_eq!(st, StepState::Over);
    assert!(matches!(act, StepAction::Bind(v) if v.is_empty()));
}

#[test]
fn failed_storage_call_ends_the_operation() {
    let op = LoweredOp::Mutation {
        bind_to: "u".to_string(),
        op: MutationOp::UpdateNodes { seed_var: None, tool_args: users(), updates: PropMap::new() },
    };
    let (st, _) = mutation_step(&op, &bindings(), &no_indices(), StepState::Start, StepEvent::Start);
    let (st, act) = mutation_step(&op, &bindings(), &no_indices(), st, StepEvent::Items(vec![node(1, "User")]));
    assert_eq!(st, StepState::AwaitItems);
    assert!(matches!(act, StepAction::Update { targets } if targets.len() == 1));
    let (st, act) = mutation_step(&op, &bindings(), &no_indices(), st, StepEvent::Failed("disk full".to_string()));
    assert_eq!(st, StepState::Over);
    assert!(matches!(act, StepAction::Fail(StepError::Execution(m)) if m == "disk full"));
}

#[test]
fn compat_count_and_drop_with_bm25() {
    let b = bindings();
    let exclude = vec!["Secret".to_string()];
    let count = CompatStep::Traverse { seed_var: None, tool_args: users(), bind_to: "c".to_string(), count: true };
    let (st, act) = compat_step(&count, &b, &no_indices(), true, false, &exclude, StepState::Start, StepEvent::Start);
    assert_eq!(st, StepState::AwaitCount);
    assert!(matches!(act, StepAction::Count));
    let (st, act) = compat_step(&count, &b, &no_indices(), true, false, &exclude, st, StepEvent::Counted(42));
    assert_eq!(st, StepState::Over);
    assert!(matches!(act, StepAction::BindCount(42)));

    let drop = CompatStep::DropNodes { seed_var: None, tool_args: users() };
    let (st, _) = compat_step(&drop, &b, &no_indices(), true, false, &exclude, StepState::Start, StepEvent::Start);
    let targets = vec![node(1, "User"), node(2, "Secret")];
    let (st, act) = compat_step(&drop, &b, &no_indices(), true, false, &exclude, st, StepEvent::Items(targets));
    assert_eq!(st, StepState::AwaitDrop);
    assert!(matches!(act, StepAction::Drop { calls }
        if calls == vec![DeleteCall::Node(1), DeleteCall::Bm25DocIfPossible(1), DeleteCall::Node(2)]));
    let (_, act) = compat_step(&drop, &b, &no_indices(), true, false, &exclude, st, StepEvent::Done);
    assert!(matches!(act, StepAction::Finish));
}

#[test]
fn compat_add_edge_uses_first_bound_items() {
    let b = bindings();
    let edge = |from: &str, to: &str| CompatStep::AddEdge {
        edge_type: "Knows".to_string(),
        from_var: from.to_string(),
        to_var: to.to_string(),
        fields: PropMap::new(),
        bind_to: "e".to_string(),
    };
    let (_, act) = compat_step(&edge("both", "bob"), &b, &no_indices(), false, false, &vec![], StepState::Start, StepEvent::Start);
    assert!(matches!(act, StepAction::AddEdge { from: 1, to: 2 }));
    let (_, act) = compat_step(&edge("none", "bob"), &b, &no_indices(), false, false, &vec![], StepState::Start, StepEvent::Start);
    assert!(matches!(act, StepAction::Fail(StepError::Execution(m)) if m == "AddEdge: from_var 'none' not found"));
    let (_, act) = compat_step(&edge("alice", "zed"), &b, &no_indices(), false, false, &vec![], StepState::Start, StepEvent::Start);
    assert!(matches!(act, StepAction::Fail(StepError::Execution(m)) if m == "AddEdge: to_var 'zed' not found"));
}

#[test]
fn request_commits_after_every_step_and_aborts_on_failure() {
    let steps = vec![
        CompatStep::LookupByUuid { ids: vec![1], bind_to: "a".to_string() },
        CompatStep::Traverse { seed_var: None, tool_args: users(), bind_to: "c".to_string(), count: true },
    ];
    let b = bindings();
    let mut run = sparrow_db::execution::RequestRun::new();
    let ex: Vec<String> = vec![];
    let a = run.compat_step(&steps, &b, &no_indices(), false, false, &ex, StepEvent::Start);
    assert!(matches!(a, sparrow_db::execution::RequestAction::Op(StepAction::Lookup)));
    let a = run.compat_step(&steps, &b, &no_indices(), false, false, &ex, StepEvent::Items(vec![node(1, "User")]));
    assert!(matches!(a, sparrow_db::execution::RequestAction::Op(StepAction::Bind(_))));
    assert_eq!(run.pos, 1);
    let a = run.compat_step(&steps, &b, &no_indices(), false, false, &ex, StepEvent::Start);
    assert!(matches!(a, sparrow_db::execution::RequestAction::Op(StepAction::Count)));
    let a = run.compat_step(&steps, &b, &no_indices(), false, false, &ex, StepEvent::Counted(3));
    assert!(matches!(a, sparrow_db::execution::RequestAction::Op(StepAction::BindCount(3))));
    let a = run.compat_step(&steps, &b, &no_indices(), false, false, &ex, StepEvent::Start);
    assert!(matches!(a, sparrow_db::execution::RequestAction::Commit));
    let a = run.compat_step(&steps, &b, &no_indices(), false, false, &ex, StepEvent::Start);
    assert!(matches!(a, sparrow_db::execution::RequestAction::Idle));

    let mut run = sparrow_db::execution::RequestRun::new();
    let _ = run.compat_step(&steps, &b, &no_indices(), false, false, &ex, StepEvent::Start);
    let a = run.compat_step(&steps, &b, &no_indices(), false, false, &ex, StepEvent::Failed("disk".to_string()));
    assert!(matches!(a, sparrow_db::execution::RequestAction::Abort(StepError::Execution(m)) if m == "disk"));
    let a = run.compat_step(&steps, &b, &no_indices(), false, false, &ex, StepEvent::Start);
    assert!(matches!(a, sparrow_db::execution::RequestAction::Idle));
}

#[test]
fn runtime_request_commits_each_mutation() {
    let mut fields = PropMap::new();
    fields.insert("name".to_string(), Value::String("a".to_string()));
    let ops = vec![
        LoweredOp::Mutation { bind_to: "n".to_string(), op: MutationOp::AddNode { node_type: "User".to_string(), fields } },
        LoweredOp::Traversal(LoweredStep { seed_var: None, tool_args: users(), bind_to: "u".to_string() }),
    ];
    let b = bindings();
    let mut run = sparrow_db::execution::RequestRun::new();
    let a = run.plan_step(&ops, &b, &no_indices(), StepEvent::Start);
    assert!(matches!(a, sparrow_db::execution::RequestAction::Op(StepAction::AddNode { indices: None })));
    let a = run.plan_step(&ops, &b, &no_indices(), StepEvent::Items(vec![node(5, "User")]));
    assert!(matches!(a, sparrow_db::execution::RequestAction::CommitOp(StepAction::Bind(v)) if v.len() == 1));
    let a = run.plan_step(&ops, &b, &no_indices(), StepEvent::Start);
    assert!(matches!(a, sparrow_db::execution::RequestAction::Op(StepAction::Traverse)));
    let a = run.plan_step(&ops, &b, &no_indices(), StepEvent::Items(vec![]));
    assert!(matches!(a, sparrow_db::execution::RequestAction::Op(StepAction::Bind(_))));
    let a = run.plan_step(&ops, &b, &no_indices(), StepEvent::Start);
    assert!(matches!(a, sparrow_db::execution::RequestAction::Commit));
}
