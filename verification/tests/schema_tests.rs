use sparrow_db::schemas::{EdgeSchema, FieldPrefix, GeneratedType, NodeSchema, RustType, SchemaProperty, VectorSchema};

#[test]
fn test_vector_field_codegen() {
    let person_schema = NodeSchema {
        name: "Person".to_string(),
        properties: vec![SchemaProperty {
            name: "embedding".to_string(),
            field_type: GeneratedType::VectorF32(1536),
            default_value: None,
            field_prefix: FieldPrefix::Empty,
        }],
    };
    let embedding_prop = person_schema
        .properties
        .iter()
        .find(|p| p.name == "embedding")
        .expect("embedding property should exist on Person schema");
    assert!(
        matches!(embedding_prop.field_type, GeneratedType::VectorF32(1536)),
        "expected VectorF32(1536) for the embedding property"
    );
    let rust_output = person_schema.display_text();
    assert!(
        rust_output.contains("Vec<f32>"),
        "Rust struct for Person should contain Vec<f32>, got:\n{rust_output}"
    );
    let ts_output = person_schema.to_typescript();
    assert!(
        ts_output.contains("Array<number> /* vector(1536) */"),
        "TypeScript for Person should contain Array<number> /* vector(1536) */, got:\n{ts_output}"
    );
}

#[test]
fn test_node_schema_display_simple() {
    let schema = NodeSchema {
        name: "Person".to_string(),
        properties: vec![
            SchemaProperty {
                name: "name".to_string(),
                field_type: GeneratedType::RustType(RustType::String),
                default_value: None,
                field_prefix: FieldPrefix::Empty,
            },
            SchemaProperty {
                name: "age".to_string(),
                field_type: GeneratedType::RustType(RustType::U32),
                default_value: None,
                field_prefix: FieldPrefix::Empty,
            },
        ],
    };
    let output = schema.display_text();
    assert!(output.contains("pub struct Person {"));
    assert!(output.contains("pub name: String,"));
    assert!(output.contains("pub age: u32,"));
}

#[test]
fn test_node_schema_display_empty_properties() {
    let schema = NodeSchema { name: "Empty".to_string(), properties: vec![] };
    let output = schema.display_text();
    assert!(output.contains("pub struct Empty {"));
    assert!(output.contains("}"));
}

#[test]
fn test_node_schema_typescript_generation() {
    let schema = NodeSchema {
        name: "User".to_string(),
        properties: vec![
            SchemaProperty {
                name: "email".to_string(),
                field_type: GeneratedType::RustType(RustType::String),
                default_value: None,
                field_prefix: FieldPrefix::Empty,
            },
            SchemaProperty {
                name: "active".to_string(),
                field_type: GeneratedType::RustType(RustType::Bool),
                default_value: None,
                field_prefix: FieldPrefix::Empty,
            },
        ],
    };
    let output = schema.to_typescript();
    assert!(output.contains("interface User {"));
    assert!(output.contains("id: string;"));
    assert!(output.contains("email: string;"));
    assert!(output.contains("active: boolean;"));
}

#[test]
fn test_node_schema_with_numeric_types() {
    let schema = NodeSchema {
        name: "Stats".to_string(),
        properties: vec![
            SchemaProperty {
                name: "count".to_string(),
                field_type: GeneratedType::RustType(RustType::I32),
                default_value: None,
                field_prefix: FieldPrefix::Empty,
            },
            SchemaProperty {
                name: "score".to_string(),
                field_type: GeneratedType::RustType(RustType::F64),
                default_value: None,
                field_prefix: FieldPrefix::Empty,
            },
        ],
    };
    let output = schema.display_text();
    assert!(output.contains("pub count: i32,"));
    assert!(output.contains("pub score: f64,"));
}

#[test]
fn test_edge_schema_display_simple() {
    let schema = EdgeSchema {
        name: "Knows".to_string(),
        from: "Person".to_string(),
        to: "Person".to_string(),
        properties: vec![SchemaProperty {
                name: "since".to_string(),
                field_type: GeneratedType::RustType(RustType::U32),
                default_value: None,
                field_prefix: FieldPrefix::Empty,
            }],
        is_unique: false,
    };
    let output = schema.display_text();
    assert!(output.contains("pub struct Knows {"));
    assert!(output.contains("pub from: Person,"));
    assert!(output.contains("pub to: Person,"));
    assert!(output.contains("pub since: u32,"));
}

#[test]
fn test_edge_schema_display_no_properties() {
    let schema = EdgeSchema {
        name: "Follows".to_string(),
        from: "User".to_string(),
        to: "User".to_string(),
        properties: vec![],
        is_unique: false,
    };
    let output = schema.display_text();
    assert!(output.contains("pub struct Follows {"));
    assert!(output.contains("pub from: User,"));
    assert!(output.contains("pub to: User,"));
}

#[test]
fn test_edge_schema_typescript_generation() {
    let schema = EdgeSchema {
        name: "WorksAt".to_string(),
        from: "Person".to_string(),
        to: "Company".to_string(),
        properties: vec![SchemaProperty {
                name: "role".to_string(),
                field_type: GeneratedType::RustType(RustType::String),
                default_value: None,
                field_prefix: FieldPrefix::Empty,
            }],
        is_unique: false,
    };
    let output = schema.to_typescript();
    assert!(output.contains("interface WorksAt {"));
    assert!(output.contains("from: Person;"));
    assert!(output.contains("to: Company;"));
    assert!(output.contains("role: string"));
}

#[test]
fn test_edge_schema_with_multiple_properties() {
    let schema = EdgeSchema {
        name: "Rated".to_string(),
        from: "User".to_string(),
        to: "Movie".to_string(),
        is_unique: false,
        properties: vec![
            SchemaProperty {
                name: "rating".to_string(),
                field_type: GeneratedType::RustType(RustType::F32),
                default_value: None,
                field_prefix: FieldPrefix::Empty,
            },
            SchemaProperty {
                name: "comment".to_string(),
                field_type: GeneratedType::RustType(RustType::String),
                default_value: None,
                field_prefix: FieldPrefix::Empty,
            },
        ],
    };
    let output = schema.display_text();
    assert!(output.contains("pub rating: f32,"));
    assert!(output.contains("pub comment: String,"));
}

#[test]
fn test_vector_schema_display_simple() {
    let schema = VectorSchema {
        name: "Embedding".to_string(),
        properties: vec![SchemaProperty {
                name: "metadata".to_string(),
                field_type: GeneratedType::RustType(RustType::String),
                default_value: None,
                field_prefix: FieldPrefix::Empty,
            }],
    };
    let output = schema.display_text();
    assert!(output.contains("pub struct Embedding {"));
    assert!(output.contains("pub metadata: String,"));
}

#[test]
fn test_vector_schema_display_empty_properties() {
    let schema = VectorSchema { name: "Vector".to_string(), properties: vec![] };
    let output = schema.display_text();
    assert!(output.contains("pub struct Vector {"));
    assert!(output.contains("}"));
}

#[test]
fn test_vector_schema_typescript_generation() {
    let schema = VectorSchema {
        name: "DocVector".to_string(),
        properties: vec![
            SchemaProperty {
                name: "source".to_string(),
                field_type: GeneratedType::RustType(RustType::String),
                default_value: None,
                field_prefix: FieldPrefix::Empty,
            },
            SchemaProperty {
                name: "chunk_index".to_string(),
                field_type: GeneratedType::RustType(RustType::U32),
                default_value: None,
                field_prefix: FieldPrefix::Empty,
            },
        ],
    };
    let output = schema.to_typescript();
    assert!(output.contains("interface DocVector {"));
    assert!(output.contains("id: string;"));
    assert!(output.contains("data: Array<number>;"));
    assert!(output.contains("source: string;"));
    assert!(output.contains("chunk_index: number;"));
}

#[test]
fn test_vector_schema_with_bool_property() {
    let schema = VectorSchema {
        name: "FeatureVector".to_string(),
        properties: vec![SchemaProperty {
                name: "is_normalized".to_string(),
                field_type: GeneratedType::RustType(RustType::Bool),
                default_value: None,
                field_prefix: FieldPrefix::Empty,
            }],
    };
    let output = schema.display_text();
    assert!(output.contains("pub is_normalized: bool,"));
}

#[test]
fn node_schema_display_exact_text() {
    let schema = NodeSchema {
        name: "Person".to_string(),
        properties: vec![SchemaProperty {
                name: "age".to_string(),
                field_type: GeneratedType::RustType(RustType::U32),
                default_value: None,
                field_prefix: FieldPrefix::Empty,
            }],
    };
    assert_eq!(schema.display_text(), "pub struct Person {\n    pub age: u32,\n}\n");
}
