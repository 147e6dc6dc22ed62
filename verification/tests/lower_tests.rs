use sparrow_db::hql::{
    Expression, FieldAddition, FieldType, FieldValue, GraphStepType, IdType, Parameter, Query, ReturnType, Source,
    StartNode, Statement, StepType, Traversal, ValueType,
};
use sparrow_db::lower::{lower_query, LowerErrorKind, LoweredOp, MutationOp};
use sparrow_db::tools::ToolArgs;
use sparrow_db::value::{PropMap, Value};

fn params(pairs: &[(&str, &str)]) -> PropMap {
    let mut m = PropMap::new();
    for (k, v) in pairs {
        m.insert(k.to_string(), Value::String(v.to_string()));
    }
    m
}

fn string_param(name: &str) -> Parameter {
    Parameter { name: name.to_string(), param_type: FieldType::String }
}

fn by_index(field: &str, param: &str) -> Option<Vec<IdType>> {
    Some(vec![IdType::ByIndex {
        index: Box::new(IdType::Identifier { value: field.to_string() }),
        value: Box::new(ValueType::Identifier { value: param.to_string() }),
    }])
}

fn traversal(start: StartNode, steps: Vec<StepType>) -> Expression {
    Expression::Traversal(Box::new(Traversal { start, steps }))
}

fn assign(variable: &str, value: Expression) -> Statement {
    Statement::Assignment { variable: variable.to_string(), value }
}

fn returning(name: &str) -> Vec<ReturnType> {
    vec![ReturnType::Expression(Expression::Identifier(name.to_string()))]
}

fn source(name: &str, parameters: Vec<Parameter>, statements: Vec<Statement>, return_values: Vec<ReturnType>) -> Source {
    Source { queries: vec![Query { name: name.to_string(), parameters, statements, return_values }] }
}

fn item_lookup(param: &str) -> Expression {
    traversal(StartNode::Node { node_type: "Item".to_string(), ids: by_index("item_id", param) }, vec![])
}

// QUERY getAll() => p <- N<People> RETURN p
#[test]
fn test_lower_n_scan() {
    let src = source(
        "getAll",
        vec![],
        vec![assign("p", traversal(StartNode::Node { node_type: "People".to_string(), ids: None }, vec![]))],
        returning("p"),
    );
    let (ops, ret) = lower_query(&src, &params(&[])).unwrap();
    assert_eq!(ops.len(), 1);
    assert!(matches!(
        &ops[0],
        LoweredOp::Traversal(step) if matches!(step.tool_args[0], ToolArgs::NFromType { .. })
    ));
    assert_eq!(ret, vec!["p"]);
}

// QUERY get(pid: String) => p <- N<People>({person_id: pid}) RETURN p
#[test]
fn test_lower_n_with_index_filter() {
    let src = source(
        "get",
        vec![string_param("pid")],
        vec![assign(
            "p",
            traversal(StartNode::Node { node_type: "People".to_string(), ids: by_index("person_id", "pid") }, vec![]),
        )],
        returning("p"),
    );
    let (ops, _) = lower_query(&src, &params(&[("pid", "alice")])).unwrap();
    assert!(matches!(&ops[0], LoweredOp::Traversal(step) if step.tool_args.len() == 2));
    assert!(matches!(
        &ops[0],
        LoweredOp::Traversal(step) if matches!(step.tool_args[0], ToolArgs::NFromType { .. })
    ));
    assert!(matches!(
        &ops[0],
        LoweredOp::Traversal(step) if matches!(step.tool_args[1], ToolArgs::FilterItems { .. })
    ));
}

// QUERY getFriends(pid: String) =>
//     p <- N<People>({person_id: pid})
//     friends <- p::Out<Knows>
// RETURN friends
#[test]
fn test_lower_traversal_chain() {
    let src = source(
        "getFriends",
        vec![string_param("pid")],
        vec![
            assign(
                "p",
                traversal(StartNode::Node { node_type: "People".to_string(), ids: by_index("person_id", "pid") }, vec![]),
            ),
            assign(
                "friends",
                traversal(
                    StartNode::Identifier("p".to_string()),
                    vec![StepType::Node(GraphStepType::Out("Knows".to_string()))],
                ),
            ),
        ],
        returning("friends"),
    );
    let (ops, ret) = lower_query(&src, &params(&[("pid", "alice")])).unwrap();
    assert_eq!(ops.len(), 2);
    assert!(matches!(&ops[1], LoweredOp::Traversal(step) if step.seed_var.as_deref() == Some("p")));
    assert!(matches!(&ops[1], LoweredOp::Traversal(step) if matches!(step.tool_args[0], ToolArgs::OutStep { .. })));
    assert_eq!(ret, vec!["friends"]);
}

// QUERY create(item_id: String, item_label: String) =>
//     item <- AddN<Item>({item_id: item_id, item_label: item_label})
// RETURN item
#[test]
fn test_lower_add_node() {
    let src = source(
        "create",
        vec![string_param("item_id"), string_param("item_label")],
        vec![assign(
            "item",
            Expression::AddNode {
                node_type: Some("Item".to_string()),
                fields: Some(vec![
                    ("item_id".to_string(), ValueType::Identifier { value: "item_id".to_string() }),
                    ("item_label".to_string(), ValueType::Identifier { value: "item_label".to_string() }),
                ]),
            },
        )],
        returning("item"),
    );
    let (ops, ret) = lower_query(&src, &params(&[("item_id", "x1"), ("item_label", "hello")])).unwrap();
    assert_eq!(ops.len(), 1);
    assert!(matches!(ops[0], LoweredOp::Mutation { op: MutationOp::AddNode { .. }, .. }));
    if let LoweredOp::Mutation { op: MutationOp::AddNode { node_type, fields }, bind_to } = &ops[0] {
        assert_eq!(node_type, "Item");
        assert_eq!(bind_to, "item");
        assert_eq!(fields.get("item_label"), Some(&Value::String("hello".to_string())));
    }
    assert_eq!(ret, vec!["item"]);
}

// QUERY link(a_id: String, b_id: String) =>
//     a <- N<Item>({item_id: a_id})
//     b <- N<Item>({item_id: b_id})
//     edge <- AddE<Links>()::From(a)::To(b)
// RETURN edge
#[test]
fn test_lower_add_edge() {
    let src = source(
        "link",
        vec![string_param("a_id"), string_param("b_id")],
        vec![
            assign("a", item_lookup("a_id")),
            assign("b", item_lookup("b_id")),
            assign(
                "edge",
                Expression::AddEdge {
                    edge_type: Some("Links".to_string()),
                    from_id: Some(IdType::Identifier { value: "a".to_string() }),
                    to_id: Some(IdType::Identifier { value: "b".to_string() }),
                    fields: None,
                },
            ),
        ],
        returning("edge"),
    );
    let (ops, ret) = lower_query(&src, &params(&[("a_id", "a1"), ("b_id", "b1")])).unwrap();
    assert_eq!(ops.len(), 3); // two N lookups + one AddEdge mutation
    assert!(matches!(
        &ops[2],
        LoweredOp::Mutation { op: MutationOp::AddEdge { from_var, to_var, .. }, .. }
            if from_var == "a" && to_var == "b"
    ));
    assert_eq!(ret, vec!["edge"]);
}

// QUERY del(item_id: String) => DROP N<Item>({item_id: item_id}) RETURN NONE
#[test]
fn test_lower_drop() {
    let src = source(
        "del",
        vec![string_param("item_id")],
        vec![Statement::Drop(item_lookup("item_id"))],
        vec![ReturnType::Empty],
    );
    let (ops, _) = lower_query(&src, &params(&[("item_id", "x1")])).unwrap();
    assert!(ops.iter().any(|op| matches!(op, LoweredOp::Mutation { op: MutationOp::DropNodes { .. }, .. })));
}

// QUERY updateLabel(item_id: String, new_label: String) =>
//     item <- N<Item>({item_id: item_id})::UPDATE({item_label: new_label})
// RETURN item
#[test]
fn test_lower_update() {
    let update = traversal(
        StartNode::Node { node_type: "Item".to_string(), ids: by_index("item_id", "item_id") },
        vec![StepType::Update(vec![FieldAddition {
            key: "item_label".to_string(),
            value: FieldValue::Identifier("new_label".to_string()),
        }])],
    );
    let src = source(
        "updateLabel",
        vec![string_param("item_id"), string_param("new_label")],
        vec![assign("item", update)],
        returning("item"),
    );
    let (ops, ret) = lower_query(&src, &params(&[("item_id", "x1"), ("new_label", "updated")])).unwrap();
    assert_eq!(ops.len(), 1);
    assert!(matches!(ops[0], LoweredOp::Mutation { op: MutationOp::UpdateNodes { .. }, .. }));
    if let LoweredOp::Mutation { op: MutationOp::UpdateNodes { updates, .. }, .. } = &ops[0] {
        assert_eq!(updates.get("item_label"), Some(&Value::String("updated".to_string())));
    }
    assert_eq!(ret, vec!["item"]);
}

#[test]
fn lower_reports_missing_parameter_and_empty_source() {
    let src = source(
        "get",
        vec![string_param("pid")],
        vec![assign(
            "p",
            traversal(StartNode::Node { node_type: "People".to_string(), ids: by_index("person_id", "pid") }, vec![]),
        )],
        returning("p"),
    );
    let err = lower_query(&src, &params(&[])).unwrap_err();
    assert_eq!(err.kind, LowerErrorKind::MissingParameter);
    assert_eq!(err.name, "pid");
    assert_eq!(err.message(), "parameter 'pid' not provided");
    let empty = Source { queries: vec![] };
    let err = lower_query(&empty, &params(&[])).unwrap_err();
    assert_eq!(err.kind, LowerErrorKind::NoQueries);
    assert_eq!(err.message(), "source has no queries");
}
