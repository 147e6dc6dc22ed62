//! The syntax tree of the query language (HQL), as far as the runtime interpreter and
//! the start-node parser read it. Source locations are not kept.
use vstd::prelude::*;
use crate::value::Value;

verus! {

/// The type declared for a query parameter.
#[derive(Debug, Clone, Copy, PartialEq, Eq, Structural)]
pub enum FieldType {
    String,
    Boolean,
    F32,
    F64,
    I8,
    I16,
    I32,
    I64,
    U8,
    U16,
    U32,
    U64,
    U128,
    Uuid,
    Date,
    Other,
}

/// A value written in a query: a literal, a parameter name, or an object.
#[derive(Debug)]
pub enum ValueType {
    Literal { value: Value },
    Identifier { value: String },
    Object,
}

/// How a start node names the items it starts from.
#[derive(Debug)]
pub enum IdType {
    /// A literal id.
    Literal { value: String },
    /// An id held by a variable or parameter.
    Identifier { value: String },
    /// A lookup through a secondary index: `{index: value}`.
    ByIndex { index: Box<IdType>, value: Box<ValueType> },
}

/// A number given to a vector search: a literal or a parameter name.
#[derive(Debug)]
pub enum EvaluatesToNumber {
    I32(i32),
    Identifier(String),
}

/// A node of the parse tree produced by the grammar: the rule it matched, the text it
/// spans and its children in order. A float literal also carries the number that the
/// tokenizer read from its text, as an IEEE-754 bit pattern (`None` where the text is
/// not a number, and for every other rule).
#[derive(Debug)]
pub struct ParseNode {
    pub rule: Rule,
    pub text: String,
    pub float_bits: Option<u64>,
    pub children: Vec<ParseNode>,
}

/// The grammar rules the start-node parser tells apart.
#[derive(Debug, Clone, Copy, PartialEq, Eq, Structural)]
pub enum Rule {
    StartNode,
    StartEdge,
    StartVector,
    Identifier,
    SearchNodeVector,
    SearchVector,
    TypeArgs,
    IdArgs,
    ByIndex,
    StringLiteral,
    Integer,
    Float,
    Boolean,
    TypeDotField,
    VectorData,
    VecLiteral,
    EmbedMethod,
    Other,
}

/// The vector a node vector search compares with.
#[derive(Debug)]
pub enum VectorData {
    /// A parameter holding the vector.
    Identifier(String),
    /// A vector literal, kept as parsed.
    Literal(ParseNode),
}

/// `SearchN<Type.field>(vector, k)`.
#[derive(Debug)]
pub struct SearchNodeVector {
    pub node_type: String,
    pub field_name: String,
    pub data: Option<VectorData>,
    pub k: Option<EvaluatesToNumber>,
}

/// Where a traversal starts.
#[derive(Debug)]
pub enum StartNode {
    Node { node_type: String, ids: Option<Vec<IdType>> },
    Edge { edge_type: String, ids: Option<Vec<IdType>> },
    Vector { vector_type: String, ids: Option<Vec<IdType>> },
    /// A vector search start, kept as parsed.
    SearchVector(ParseNode),
    SearchNodeVector(SearchNodeVector),
    Identifier(String),
    Anonymous,
}

/// A step along the graph.
#[derive(Debug)]
pub enum GraphStepType {
    Out(String),
    In(String),
    OutE(String),
    InE(String),
    /// Any other graph step (`FromN`, `ToN`, `ShortestPath`, ...).
    Other,
}

/// A comparison against the value of an expression.
#[derive(Debug)]
pub enum BooleanOpType {
    Equal(Box<Expression>),
    NotEqual(Box<Expression>),
    GreaterThan(Box<Expression>),
    GreaterThanOrEqual(Box<Expression>),
    LessThan(Box<Expression>),
    LessThanOrEqual(Box<Expression>),
    /// Any other boolean operation (`AND`, `OR`, `CONTAINS`, ...).
    Other,
}

/// The value given to a field in an object or an update.
#[derive(Debug)]
pub enum FieldValue {
    Literal(Value),
    Identifier(String),
    Expression(Box<Expression>),
    /// Any other field value (nested objects, traversals, ...).
    Other,
}

/// `key: value` in an object or an update.
#[derive(Debug)]
pub struct FieldAddition {
    pub key: String,
    pub value: FieldValue,
}

/// One step of a traversal.
#[derive(Debug)]
pub enum StepType {
    Node(GraphStepType),
    Edge(GraphStepType),
    Where(Box<Expression>),
    Update(Vec<FieldAddition>),
    Object(Vec<FieldAddition>),
    BooleanOperation(BooleanOpType),
    /// Any other step (`COUNT`, `RANGE`, `ORDER`, ...).
    Other,
}

/// A start node followed by steps.
#[derive(Debug)]
pub struct Traversal {
    pub start: StartNode,
    pub steps: Vec<StepType>,
}

/// An expression.
#[derive(Debug)]
pub enum Expression {
    Traversal(Box<Traversal>),
    AddNode { node_type: Option<String>, fields: Option<Vec<(String, ValueType)>> },
    AddEdge {
        edge_type: Option<String>,
        from_id: Option<IdType>,
        to_id: Option<IdType>,
        fields: Option<Vec<(String, ValueType)>>,
    },
    Identifier(String),
    StringLiteral(String),
    IntegerLiteral(i32),
    /// A float literal, by its bit pattern.
    FloatLiteral(u64),
    BooleanLiteral(bool),
    /// Any other expression (`AddV`, `Exists`, `SearchV`, ...).
    Other,
}

/// A statement of a query body.
#[derive(Debug)]
pub enum Statement {
    Assignment { variable: String, value: Expression },
    Drop(Expression),
    Expression(Expression),
    ForLoop,
}

/// One value a query returns.
#[derive(Debug)]
pub enum ReturnType {
    Expression(Expression),
    Array,
    Object,
    Empty,
}

/// A declared parameter of a query.
#[derive(Debug)]
pub struct Parameter {
    pub name: String,
    pub param_type: FieldType,
}

/// A query: `QUERY name(params) => statements RETURN values`.
#[derive(Debug)]
pub struct Query {
    pub name: String,
    pub parameters: Vec<Parameter>,
    pub statements: Vec<Statement>,
    pub return_values: Vec<ReturnType>,
}

/// A parsed source: its queries, in order.
#[derive(Debug)]
pub struct Source {
    pub queries: Vec<Query>,
}

} // verus!
