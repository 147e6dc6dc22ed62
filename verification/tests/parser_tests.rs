use sparrow_db::hql::{EvaluatesToNumber, IdType, ParseNode, Rule, StartNode, ValueType, VectorData};
use sparrow_db::parser::{parse_search_node_vector, parse_start_node};
use sparrow_db::value::Value;

fn node(rule: Rule, text: &str, children: Vec<ParseNode>) -> ParseNode {
    ParseNode { rule, text: text.to_string(), float_bits: None, children }
}

fn leaf(rule: Rule, text: &str) -> ParseNode {
    node(rule, text, vec![])
}

fn wrap(inner: ParseNode) -> ParseNode {
    node(Rule::Other, "", vec![inner])
}

fn type_args(name: &str) -> ParseNode {
    node(Rule::TypeArgs, "", vec![leaf(Rule::Identifier, name)])
}

#[test]
fn start_node_with_type_only() {
    let p = node(Rule::StartNode, "N<User>", vec![type_args("User")]);
    match parse_start_node(p).unwrap() {
        StartNode::Node { node_type, ids } => {
            assert_eq!(node_type, "User");
            assert!(ids.is_none());
        },
        other => panic!("unexpected start {other:?}"),
    }
}

#[test]
fn start_node_with_ids() {
    let ids = node(
        Rule::IdArgs,
        "",
        vec![wrap(leaf(Rule::Identifier, "user_id")), wrap(leaf(Rule::StringLiteral, "abc"))],
    );
    let p = node(Rule::StartNode, "", vec![type_args("User"), ids]);
    match parse_start_node(p).unwrap() {
        StartNode::Node { ids: Some(ids), .. } => {
            assert_eq!(ids.len(), 2);
            assert!(matches!(&ids[0], IdType::Identifier { value } if value == "user_id"));
            assert!(matches!(&ids[1], IdType::Literal { value } if value == "abc"));
        },
        other => panic!("unexpected start {other:?}"),
    }
}

#[test]
fn start_node_by_index_literals() {
    let by_index = |value: ParseNode| {
        node(Rule::StartNode, "", vec![type_args("User"), node(Rule::ByIndex, "", vec![wrap(leaf(Rule::Identifier, "email")), wrap(value)])])
    };
    match parse_start_node(by_index(leaf(Rule::StringLiteral, "a@b.c"))).unwrap() {
        StartNode::Node { ids: Some(ids), .. } => match &ids[0] {
            IdType::ByIndex { index, value } => {
                assert!(matches!(&**index, IdType::Identifier { value } if value == "email"));
                assert!(matches!(&**value, ValueType::Literal { value: Value::String(s) } if s == "a@b.c"));
            },
            other => panic!("unexpected id {other:?}"),
        },
        other => panic!("unexpected start {other:?}"),
    }
    match parse_start_node(by_index(leaf(Rule::Integer, "-12"))).unwrap() {
        StartNode::Node { ids: Some(ids), .. } => {
            assert!(matches!(&ids[0], IdType::ByIndex { value, .. } if matches!(&**value, ValueType::Literal { value: Value::I64(-12) })));
        },
        other => panic!("unexpected start {other:?}"),
    }
    let mut float = leaf(Rule::Float, "1.5");
    float.float_bits = Some(1.5f64.to_bits());
    match parse_start_node(by_index(float)).unwrap() {
        StartNode::Node { ids: Some(ids), .. } => {
            let bits = 1.5f64.to_bits();
            assert!(matches!(&ids[0], IdType::ByIndex { value, .. } if matches!(&**value, ValueType::Literal { value: Value::F64Bits(b) } if *b == bits)));
        },
        other => panic!("unexpected start {other:?}"),
    }
    let err = parse_start_node(by_index(leaf(Rule::Integer, "12x"))).unwrap_err();
    assert_eq!(err.message, "Invalid integer value");
    let err = parse_start_node(by_index(leaf(Rule::Float, "nan?"))).unwrap_err();
    assert_eq!(err.message, "Invalid float value");
    let err = parse_start_node(by_index(leaf(Rule::Boolean, "yes"))).unwrap_err();
    assert_eq!(err.message, "Invalid boolean value");
}

#[test]
fn start_edge_refuses_by_index() {
    let p = node(
        Rule::StartEdge,
        "",
        vec![type_args("Knows"), node(Rule::ByIndex, "", vec![wrap(leaf(Rule::Identifier, "k")), wrap(leaf(Rule::Integer, "1"))])],
    );
    let err = parse_start_node(p).unwrap_err();
    assert_eq!(err.message, "Unexpected rule in start_edge: by_index");
}

#[test]
fn start_identifier_and_anonymous() {
    assert!(matches!(parse_start_node(leaf(Rule::Identifier, "users")).unwrap(), StartNode::Identifier(n) if n == "users"));
    assert!(matches!(parse_start_node(leaf(Rule::Other, "_")).unwrap(), StartNode::Anonymous));
    let err = parse_start_node(node(Rule::StartNode, "", vec![node(Rule::TypeArgs, "", vec![])])).unwrap_err();
    assert_eq!(err.message, "Expected an inner pair");
}

#[test]
fn search_node_vector() {
    let p = node(
        Rule::SearchNodeVector,
        "",
        vec![
            node(Rule::TypeDotField, "", vec![leaf(Rule::Identifier, "Doc"), leaf(Rule::Identifier, "embedding")]),
            node(Rule::VectorData, "", vec![leaf(Rule::Identifier, "query")]),
            leaf(Rule::Integer, "5"),
        ],
    );
    let s = parse_search_node_vector(p).unwrap();
    assert_eq!(s.node_type, "Doc");
    assert_eq!(s.field_name, "embedding");
    assert!(matches!(s.data, Some(VectorData::Identifier(ref q)) if q == "query"));
    assert!(matches!(s.k, Some(EvaluatesToNumber::I32(5))));

    let embed = node(
        Rule::SearchNodeVector,
        "",
        vec![node(Rule::VectorData, "", vec![leaf(Rule::EmbedMethod, "Embed(text)")])],
    );
    let err = parse_search_node_vector(embed).unwrap_err();
    assert_eq!(err.message, "Embed() is not supported in SearchN; use a Vec<f64> parameter");

    let bad = node(Rule::SearchNodeVector, "", vec![leaf(Rule::Boolean, "true")]);
    assert_eq!(parse_search_node_vector(bad).unwrap_err().message, "Unexpected rule in SearchN: boolean");
}
