use sparrow_db::hql::{FieldType, Parameter, Query, Source};
use sparrow_db::json::{Json, JsonNumber};
use sparrow_db::runtime::{
    check_query_text, coerce_params_to_schema, coerce_value, contains_text, json_val_to_value, parse_params,
    QueryTextError,
};
use sparrow_db::value::{PropMap, Value};

fn num(n: i64) -> Json {
    Json::Number(JsonNumber {
        as_u64: if n >= 0 { Some(n as u64) } else { None },
        as_i64: Some(n),
        as_f64_bits: Some((n as f64).to_bits()),
    })
}

#[test]
fn query_text_checks() {
    assert_eq!(check_query_text("  \n\t"), Err(QueryTextError::NoQuery));
    assert_eq!(check_query_text("N::User {}"), Err(QueryTextError::NoQueryDefinition));
    assert_eq!(check_query_text("QUERY get() => RETURN NONE"), Ok(()));
    assert!(contains_text("abcQUERY x", "QUERY "));
    assert!(!contains_text("QUER", "QUERY "));
}

#[test]
fn json_params() {
    assert_eq!(json_val_to_value(&Json::Str("a".to_string())), Some(Value::String("a".to_string())));
    assert_eq!(json_val_to_value(&num(-3)), Some(Value::I64(-3)));
    assert_eq!(json_val_to_value(&Json::Bool(false)), Some(Value::Boolean(false)));
    assert_eq!(json_val_to_value(&Json::Null), None);
    let params = Json::Object(vec![("a".to_string(), num(1)), ("b".to_string(), Json::Str("x".to_string()))]);
    let m = parse_params(&params).unwrap();
    assert_eq!(m.get("a"), Some(&Value::I64(1)));
    assert_eq!(m.get("b"), Some(&Value::String("x".to_string())));
    let bad = Json::Object(vec![("a".to_string(), num(1)), ("n".to_string(), Json::Null)]);
    assert_eq!(parse_params(&bad).unwrap_err(), "n");
}

#[test]
fn coercion_to_declared_types() {
    let mut v = Value::I64(7);
    coerce_value(&mut v, FieldType::I32);
    assert_eq!(v, Value::I32(7));
    let mut v = Value::I64(7);
    coerce_value(&mut v, FieldType::U64);
    assert_eq!(v, Value::U64(7));
    let mut v = Value::String("s".to_string());
    coerce_value(&mut v, FieldType::I32);
    assert_eq!(v, Value::String("s".to_string()));

    let src = Source {
        queries: vec![Query {
            name: "q".to_string(),
            parameters: vec![Parameter { name: "age".to_string(), param_type: FieldType::U32 }],
            statements: vec![],
            return_values: vec![],
        }],
    };
    let mut params = PropMap::new();
    params.insert("age".to_string(), Value::I64(30));
    params.insert("other".to_string(), Value::I64(1));
    coerce_params_to_schema(&mut params, &src);
    assert_eq!(params.get("age"), Some(&Value::U64(30)));
    assert_eq!(params.get("other"), Some(&Value::I64(1)));
}

#[test]
fn edge_end_reports_each_refusal() {
    let live = sparrow_db::names::NameMap {
        entries: vec![
            ("a".to_string(), vec![sparrow_db::engine::DropItem::Node { id: 7, label: "User".to_string() }]),
            ("b".to_string(), vec![]),
            ("e".to_string(), vec![sparrow_db::engine::DropItem::Edge { id: 9 }]),
        ],
    };
    assert_eq!(sparrow_db::runtime::edge_end(&live, "a", "From"), Ok(7));
    assert_eq!(
        sparrow_db::runtime::edge_end(&live, "x", "From"),
        Err("variable 'x' not found".to_string())
    );
    assert_eq!(
        sparrow_db::runtime::edge_end(&live, "b", "To"),
        Err("AddEdge To variable 'b' must contain exactly one node, got 0".to_string())
    );
    assert_eq!(
        sparrow_db::runtime::edge_end(&live, "e", "From"),
        Err("AddEdge From variable 'e' does not contain a node".to_string())
    );
}
