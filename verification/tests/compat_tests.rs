use sparrow_db::compat::{
    compat_request_parts, is_write_request, parse_typed_value, parse_uuid_ids, translate_named_query, CompatError,
    CompatStep, TranslateError,
};
use sparrow_db::json::{Json, JsonNumber};
use sparrow_db::tools::{EdgeType, Operator, ToolArgs};
use sparrow_db::value::Value;

fn obj(members: Vec<(&str, Json)>) -> Json {
    Json::Object(members.into_iter().map(|(k, v)| (k.to_string(), v)).collect())
}

fn s(t: &str) -> Json {
    Json::Str(t.to_string())
}

fn num(n: u64) -> Json {
    Json::Number(JsonNumber { as_u64: Some(n), as_i64: Some(n as i64), as_f64_bits: Some((n as f64).to_bits()) })
}

fn label_eq(label: &str) -> Json {
    obj(vec![("Eq", Json::Array(vec![s("$label"), obj(vec![("String", s(label))])]))])
}

#[test]
fn nwhere_then_out_is_one_traversal() {
    let steps = vec![obj(vec![("NWhere", label_eq("User"))]), obj(vec![("Out", s("Follows"))])];
    let out = translate_named_query("users", &steps).unwrap();
    assert_eq!(out.len(), 1);
    match &out[0] {
        CompatStep::Traverse { seed_var, tool_args, bind_to, count } => {
            assert!(seed_var.is_none());
            assert_eq!(bind_to, "users");
            assert!(!count);
            assert_eq!(tool_args.len(), 2);
            assert!(matches!(&tool_args[0], ToolArgs::NFromType { node_type } if node_type == "User"));
            assert!(matches!(
                &tool_args[1],
                ToolArgs::OutStep { edge_label, edge_type: EdgeType::Node, filter: None } if edge_label == "Follows"
            ));
        },
        other => panic!("unexpected step {other:?}"),
    }
}

#[test]
fn nwhere_with_property_filter() {
    let cond = obj(vec![(
        "And",
        Json::Array(vec![
            label_eq("User"),
            obj(vec![("Eq", Json::Array(vec![s("name"), obj(vec![("String", s("ann"))])]))]),
        ]),
    )]);
    let out = translate_named_query("u", &[obj(vec![("NWhere", cond)])]).unwrap();
    match &out[0] {
        CompatStep::Traverse { tool_args, .. } => {
            assert_eq!(tool_args.len(), 2);
            match &tool_args[1] {
                ToolArgs::FilterItems { filter } => {
                    let rows = filter.properties.as_ref().unwrap();
                    assert_eq!(rows.len(), 1);
                    assert_eq!(rows[0][0].key, "name");
                    assert_eq!(rows[0][0].value, Value::String("ann".to_string()));
                    assert_eq!(rows[0][0].operator, Some(Operator::Eq));
                },
                other => panic!("unexpected arg {other:?}"),
            }
        },
        other => panic!("unexpected step {other:?}"),
    }
}

#[test]
fn count_marks_the_final_traversal() {
    let steps = vec![obj(vec![("NWhere", label_eq("User"))]), s("Count")];
    let out = translate_named_query("n", &steps).unwrap();
    assert_eq!(out.len(), 1);
    assert!(matches!(&out[0], CompatStep::Traverse { count: true, .. }));
}

#[test]
fn inject_then_add_edge() {
    let steps = vec![
        obj(vec![("Inject", s("a"))]),
        obj(vec![("AddE", obj(vec![("label", s("Knows")), ("to", obj(vec![("Var", s("b"))]))]))]),
    ];
    let out = translate_named_query("e", &steps).unwrap();
    assert_eq!(out.len(), 1);
    assert!(matches!(
        &out[0],
        CompatStep::AddEdge { edge_type, from_var, to_var, bind_to, .. }
            if edge_type == "Knows" && from_var == "a" && to_var == "b" && bind_to == "e"
    ));
}

#[test]
fn add_edge_without_inject_is_refused() {
    let steps = vec![obj(vec![("AddE", obj(vec![("to", obj(vec![("Var", s("b"))]))]))])];
    match translate_named_query("e", &steps) {
        Err(CompatError::Translation(e)) => {
            assert_eq!(e, TranslateError::AddEWithoutInject);
            assert_eq!(e.message(), "AddE requires Inject before it");
        },
        other => panic!("unexpected result {other:?}"),
    }
}

#[test]
fn add_node_ends_the_query() {
    let steps = vec![
        obj(vec![(
            "AddN",
            obj(vec![
                ("label", s("User")),
                ("properties", Json::Array(vec![Json::Array(vec![s("age"), obj(vec![("Value", obj(vec![("U64", num(7))]))])])])),
            ]),
        )]),
        obj(vec![("Out", s("ignored"))]),
    ];
    let out = translate_named_query("u", &steps).unwrap();
    assert_eq!(out.len(), 1);
    match &out[0] {
        CompatStep::AddNode { node_type, fields, bind_to } => {
            assert_eq!(node_type, "User");
            assert_eq!(bind_to, "u");
            assert_eq!(fields.get("age"), Some(&Value::U64(7)));
        },
        other => panic!("unexpected step {other:?}"),
    }
    let missing = translate_named_query("u", &[obj(vec![("AddN", obj(vec![]))])]);
    assert!(matches!(missing, Err(CompatError::Translation(TranslateError::AddNMissingLabel))));
}

#[test]
fn ids_lookup_then_drop() {
    let steps = vec![
        obj(vec![("N", obj(vec![("Ids", Json::Array(vec![s("00000000-0000-0000-0000-00000000002a")]))]))]),
        obj(vec![("Drop", Json::Null)]),
    ];
    let out = translate_named_query("d", &steps).unwrap();
    assert_eq!(out.len(), 2);
    assert!(matches!(&out[0], CompatStep::LookupByUuid { ids, bind_to } if ids == &vec![42u128] && bind_to == "d"));
    assert!(matches!(
        &out[1],
        CompatStep::DropNodes { seed_var: Some(v), tool_args } if v == "d" && tool_args.is_empty()
    ));
}

#[test]
fn uuid_ids_parse_strings_and_numbers() {
    let ids = parse_uuid_ids(&Json::Array(vec![s("67e55044-10b1-426f-9247-bb680e5fe0c8"), num(5), Json::Null])).unwrap();
    assert_eq!(ids, vec![0x67e5504410b1426f9247bb680e5fe0c8u128, 5]);
    assert_eq!(parse_uuid_ids(&Json::Array(vec![s("not-a-uuid")])).unwrap_err(), TranslateError::InvalidUuid);
}

#[test]
fn typed_values() {
    assert_eq!(parse_typed_value(&obj(vec![("String", s("x"))])).unwrap(), Value::String("x".to_string()));
    assert_eq!(parse_typed_value(&obj(vec![("I64", num(3))])).unwrap(), Value::I64(3));
    assert_eq!(parse_typed_value(&Json::Bool(true)).unwrap(), Value::Boolean(true));
}

#[test]
fn request_routing() {
    let write = obj(vec![
        ("request_type", s("write")),
        ("query", obj(vec![("queries", Json::Array(vec![Json::Null])), ("returns", Json::Array(vec![s("u"), num(1)]))])),
    ]);
    let read = obj(vec![("request_type", s("read"))]);
    assert!(is_write_request(&write));
    assert!(!is_write_request(&read));
    let (queries, returns) = compat_request_parts(&write).unwrap();
    assert_eq!(queries.len(), 1);
    assert_eq!(returns, vec!["u".to_string()]);
    assert!(compat_request_parts(&read).is_err());
}

#[test]
fn compat_error_messages() {
    assert_eq!(
        CompatError::Translation(TranslateError::AddEWithoutInject).message(),
        "v1_compat translation: AddE requires Inject before it"
    );
    assert_eq!(
        CompatError::Execution("node not found".to_string()).message(),
        "v1_compat execution: node not found"
    );
}

#[test]
fn indexed_fields_keeps_field_order() {
    let fields = sparrow_db::value::PropMap {
        entries: vec![
            ("name".to_string(), Value::String("Ada".to_string())),
            ("age".to_string(), Value::I64(36)),
            ("email".to_string(), Value::String("a@b.c".to_string())),
        ],
    };
    let indices = sparrow_db::names::NameMap { entries: vec![("email".to_string(), ()), ("name".to_string(), ())] };
    assert_eq!(sparrow_db::compat::indexed_fields(&fields, &indices), Some(vec!["name".to_string(), "email".to_string()]));
    let none = sparrow_db::names::NameMap::<()> { entries: vec![("city".to_string(), ())] };
    assert_eq!(sparrow_db::compat::indexed_fields(&fields, &none), None);
}
