//! Parsing of traversal start nodes from the parse tree of the query language:
//! `N<Type>`, `N<Type>(ids)`, `N<Type>({index: value})`, `E<Type>(...)`, `V<Type>(...)`,
//! a variable, and `SearchN<Type.field>(vector, k)`.
use vstd::prelude::*;
use crate::folds::{fold_list, lemma_list_next, lemma_list_stops, lemma_list_all};
use crate::hql::{
    EvaluatesToNumber, IdType, ParseNode, Rule, SearchNodeVector, StartNode, ValueType, VectorData,
};
use crate::text::{parse_bool, parse_bool_spec, parse_i32, parse_i64, parse_signed, push_str, to_owned_string};
use crate::value::{Value, ValueV};

verus! {

// ─── errors ──────────────────────────────────────────────────────────────────

/// A parse error, with its message.
#[derive(Debug)]
pub struct ParserError {
    pub message: String,
}

/// The grammar name of a rule, as parse errors print it.
pub open spec fn rule_name(r: Rule) -> Seq<char> {
    match r {
        Rule::StartNode => "start_node"@,
        Rule::StartEdge => "start_edge"@,
        Rule::StartVector => "start_vector"@,
        Rule::Identifier => "identifier"@,
        Rule::SearchNodeVector => "search_node_vector"@,
        Rule::SearchVector => "search_vector"@,
        Rule::TypeArgs => "type_args"@,
        Rule::IdArgs => "id_args"@,
        Rule::ByIndex => "by_index"@,
        Rule::StringLiteral => "string_literal"@,
        Rule::Integer => "integer"@,
        Rule::Float => "float"@,
        Rule::Boolean => "boolean"@,
        Rule::TypeDotField => "type_dot_field"@,
        Rule::VectorData => "vector_data"@,
        Rule::VecLiteral => "vec_literal"@,
        Rule::EmbedMethod => "embed_method"@,
        Rule::Other => "other"@,
    }
}

impl Rule {
    /// The grammar name of the rule.
    pub fn name(&self) -> (r: &'static str)
        ensures
            r@ == rule_name(*self),
    {
        match self {
            Rule::StartNode => "start_node",
            Rule::StartEdge => "start_edge",
            Rule::StartVector => "start_vector",
            Rule::Identifier => "identifier",
            Rule::SearchNodeVector => "search_node_vector",
            Rule::SearchVector => "search_vector",
            Rule::TypeArgs => "type_args",
            Rule::IdArgs => "id_args",
            Rule::ByIndex => "by_index",
            Rule::StringLiteral => "string_literal",
            Rule::Integer => "integer",
            Rule::Float => "float",
            Rule::Boolean => "boolean",
            Rule::TypeDotField => "type_dot_field",
            Rule::VectorData => "vector_data",
            Rule::VecLiteral => "vec_literal",
            Rule::EmbedMethod => "embed_method",
            Rule::Other => "other",
        }
    }
}

fn error(message: &str) -> (e: ParserError)
    ensures
        e.message@ == message@,
{
    ParserError { message: to_owned_string(message) }
}

fn error_with_rule(prefix: &str, r: Rule) -> (e: ParserError)
    ensures
        e.message@ == prefix@ + rule_name(r),
{
    let mut m = to_owned_string(prefix);
    push_str(&mut m, r.name());
    ParserError { message: m }
}

/// The message when a node has no inner node where one is expected.
pub open spec fn missing_inner() -> Seq<char> {
    "Expected an inner pair"@
}

// ─── views ───────────────────────────────────────────────────────────────────

/// The content of a value written in a query.
pub enum ValueTypeV {
    Literal(ValueV),
    Identifier(Seq<char>),
    Object,
}

/// The content of an id of a start node.
pub enum IdTypeV {
    Literal(Seq<char>),
    Identifier(Seq<char>),
    ByIndex(Box<IdTypeV>, ValueTypeV),
}

/// The content of a value type.
pub open spec fn value_type_view(v: ValueType) -> ValueTypeV {
    match v {
        ValueType::Literal { value } => ValueTypeV::Literal(value@),
        ValueType::Identifier { value } => ValueTypeV::Identifier(value@),
        ValueType::Object => ValueTypeV::Object,
    }
}

/// The content of an id.
pub open spec fn id_view(id: IdType) -> IdTypeV
    decreases id,
{
    match id {
        IdType::Literal { value } => IdTypeV::Literal(value@),
        IdType::Identifier { value } => IdTypeV::Identifier(value@),
        IdType::ByIndex { index, value } => IdTypeV::ByIndex(Box::new(id_view(*index)), value_type_view(*value)),
    }
}

/// The content of a list of ids.
pub open spec fn ids_view(ids: Seq<IdType>) -> Seq<IdTypeV> {
    ids.map_values(|id: IdType| id_view(id))
}

/// The content of optional ids.
pub open spec fn opt_ids_view(ids: Option<Vec<IdType>>) -> Option<Seq<IdTypeV>> {
    match ids {
        Some(v) => Some(ids_view(v@)),
        None => None,
    }
}

// ─── ids ─────────────────────────────────────────────────────────────────────

/// An id of `id_args`: the identifier or string literal inside the node.
pub open spec fn simple_id_spec(w: ParseNode) -> Result<IdTypeV, Seq<char>> {
    if w.children@.len() == 0 {
        Err(missing_inner())
    } else {
        let id = w.children@[0];
        match id.rule {
            Rule::Identifier => Ok(IdTypeV::Identifier(id.text@)),
            Rule::StringLiteral => Ok(IdTypeV::Literal(id.text@)),
            _ => Err("Should be identifier or string literal"@),
        }
    }
}

/// Adds one id of `id_args`.
pub open spec fn id_arg_step(acc: Seq<IdTypeV>, w: ParseNode) -> Result<Seq<IdTypeV>, Seq<char>> {
    match simple_id_spec(w) {
        Err(e) => Err(e),
        Ok(id) => Ok(acc.push(id)),
    }
}

/// [`id_arg_step`] as a function value.
pub open spec fn id_arg_stepper() -> spec_fn(Seq<IdTypeV>, ParseNode) -> Result<Seq<IdTypeV>, Seq<char>> {
    |acc: Seq<IdTypeV>, w: ParseNode| id_arg_step(acc, w)
}

/// The ids of an `id_args` node.
pub open spec fn id_args_spec(p: ParseNode) -> Result<Seq<IdTypeV>, Seq<char>> {
    fold_list(p.children@, Seq::empty(), id_arg_stepper())
}

/// The content of a parse result holding ids.
pub open spec fn ids_res(r: Result<Vec<IdType>, ParserError>) -> Result<Seq<IdTypeV>, Seq<char>> {
    match r {
        Ok(v) => Ok(ids_view(v@)),
        Err(e) => Err(e.message@),
    }
}

fn parse_id_args(p: &ParseNode) -> (r: Result<Vec<IdType>, ParserError>)
    ensures
        ids_res(r) == id_args_spec(*p),
{
    let mut ids: Vec<IdType> = Vec::new();
    let ghost step = id_arg_stepper();
    let mut i: usize = 0;
    assert(ids_view(ids@) =~= Seq::<IdTypeV>::empty());
    while i < p.children.len()
        invariant
            i <= p.children@.len(),
            step == id_arg_stepper(),
            fold_list(p.children@.take(i as int), Seq::empty(), step) == Ok::<Seq<IdTypeV>, Seq<char>>(
                ids_view(ids@),
            ),
        decreases p.children@.len() - i,
    {
        proof {
            lemma_list_next(p.children@, Seq::empty(), step, i as int);
        }
        let w = &p.children[i];
        if w.children.len() == 0 {
            proof {
                lemma_list_stops(p.children@, Seq::empty(), step, i + 1);
            }
            return Err(error("Expected an inner pair"));
        }
        let id = &w.children[0];
        let ghost before = ids@;
        match id.rule {
            Rule::Identifier => ids.push(IdType::Identifier { value: id.text.clone() }),
            Rule::StringLiteral => ids.push(IdType::Literal { value: id.text.clone() }),
            _ => {
                proof {
                    lemma_list_stops(p.children@, Seq::empty(), step, i + 1);
                }
                return Err(error("Should be identifier or string literal"));
            },
        }
        assert(ids_view(ids@) =~= ids_view(before).push(id_view(ids@.last())));
        i = i + 1;
    }
    proof {
        lemma_list_all(p.children@, Seq::empty(), step);
    }
    Ok(ids)
}

// ─── literal values ──────────────────────────────────────────────────────────

/// The value of a literal node: an identifier, a string, an integer (`i64`), a float or
/// a boolean; `None` for any other rule. `other_message` is the error for other rules.
pub open spec fn literal_value_spec(val: ParseNode, other_message: Seq<char>) -> Result<ValueTypeV, Seq<char>> {
    match val.rule {
        Rule::Identifier => Ok(ValueTypeV::Identifier(val.text@)),
        Rule::StringLiteral => Ok(ValueTypeV::Literal(ValueV::String(val.text@))),
        Rule::Integer => match parse_signed(val.text@, i64::MIN as int, i64::MAX as int) {
            Some(n) => Ok(ValueTypeV::Literal(ValueV::I64(n as i64))),
            None => Err("Invalid integer value"@),
        },
        Rule::Float => match val.float_bits {
            Some(b) => Ok(ValueTypeV::Literal(ValueV::F64Bits(b))),
            None => Err("Invalid float value"@),
        },
        Rule::Boolean => match parse_bool_spec(val.text@) {
            Some(b) => Ok(ValueTypeV::Literal(ValueV::Boolean(b))),
            None => Err("Invalid boolean value"@),
        },
        _ => Err(other_message),
    }
}

/// The content of a parse result holding a value.
pub open spec fn value_res(r: Result<ValueType, ParserError>) -> Result<ValueTypeV, Seq<char>> {
    match r {
        Ok(v) => Ok(value_type_view(v)),
        Err(e) => Err(e.message@),
    }
}

fn parse_literal_value(val: &ParseNode, other_message: &str) -> (r: Result<ValueType, ParserError>)
    ensures
        value_res(r) == literal_value_spec(*val, other_message@),
{
    match val.rule {
        Rule::Identifier => Ok(ValueType::Identifier { value: val.text.clone() }),
        Rule::StringLiteral => Ok(ValueType::Literal { value: Value::String(val.text.clone()) }),
        Rule::Integer => match parse_i64(val.text.as_str()) {
            Some(n) => Ok(ValueType::Literal { value: Value::I64(n) }),
            None => Err(error("Invalid integer value")),
        },
        Rule::Float => match val.float_bits {
            Some(b) => Ok(ValueType::Literal { value: Value::F64Bits(b) }),
            None => Err(error("Invalid float value")),
        },
        Rule::Boolean => match parse_bool(val.text.as_str()) {
            Some(b) => Ok(ValueType::Literal { value: Value::Boolean(b) }),
            None => Err(error("Invalid boolean value")),
        },
        _ => Err(error(other_message)),
    }
}

/// The first child of the first child of a node.
pub open spec fn first_grandchild(n: ParseNode, k: int) -> Option<ParseNode> {
    if n.children@.len() > k && n.children@[k].children@.len() > 0 {
        Some(n.children@[k].children@[0])
    } else {
        None
    }
}

/// The index name of a `by_index` node.
pub open spec fn index_name_spec(index: ParseNode, msg_other: Seq<char>) -> Result<IdTypeV, Seq<char>> {
    match index.rule {
        Rule::Identifier => Ok(IdTypeV::Identifier(index.text@)),
        Rule::StringLiteral => Ok(IdTypeV::Literal(index.text@)),
        _ => Err(msg_other),
    }
}

/// The single id of a `by_index` child of `start_node`: `{index: value}`.
pub open spec fn node_by_index_spec(p: ParseNode) -> Result<IdTypeV, Seq<char>> {
    match first_grandchild(p, 0) {
        None => Err(missing_inner()),
        Some(index) => match index_name_spec(
            index,
            "Should be identifier or string literal: "@ + rule_name(index.rule),
        ) {
            Err(e) => Err(e),
            Ok(idx) => {
                if p.children@.len() < 2 {
                    Err(missing_inner())
                } else {
                    match first_grandchild(p, 1) {
                        None => Err("Unexpected rule in start_node by_index: None"@),
                        Some(val) => match literal_value_spec(val, "Should be identifier or string literal"@) {
                            Err(e) => Err(e),
                            Ok(v) => Ok(IdTypeV::ByIndex(Box::new(idx), v)),
                        },
                    }
                }
            },
        },
    }
}

fn parse_index_name(index: &ParseNode, other: ParserError) -> (r: Result<IdType, ParserError>)
    ensures
        match r {
            Ok(id) => index_name_spec(*index, other.message@) == Ok::<IdTypeV, Seq<char>>(id_view(id)),
            Err(e) => index_name_spec(*index, other.message@) == Err::<IdTypeV, Seq<char>>(e.message@),
        },
{
    match index.rule {
        Rule::Identifier => Ok(IdType::Identifier { value: index.text.clone() }),
        Rule::StringLiteral => Ok(IdType::Literal { value: index.text.clone() }),
        _ => Err(other),
    }
}

/// The content of a parse result holding an id.
pub open spec fn id_res(r: Result<IdType, ParserError>) -> Result<IdTypeV, Seq<char>> {
    match r {
        Ok(v) => Ok(id_view(v)),
        Err(e) => Err(e.message@),
    }
}

fn parse_node_by_index(p: &ParseNode) -> (r: Result<IdType, ParserError>)
    ensures
        id_res(r) == node_by_index_spec(*p),
{
    if p.children.len() == 0 || p.children[0].children.len() == 0 {
        return Err(error("Expected an inner pair"));
    }
    let index_node = &p.children[0].children[0];
    let index = match parse_index_name(
        index_node,
        error_with_rule("Should be identifier or string literal: ", index_node.rule),
    ) {
        Ok(i) => i,
        Err(e) => {
            return Err(e);
        },
    };
    if p.children.len() < 2 {
        return Err(error("Expected an inner pair"));
    }
    if p.children[1].children.len() == 0 {
        return Err(error("Unexpected rule in start_node by_index: None"));
    }
    let value = match parse_literal_value(&p.children[1].children[0], "Should be identifier or string literal") {
        Ok(v) => v,
        Err(e) => {
            return Err(e);
        },
    };
    Ok(IdType::ByIndex { index: Box::new(index), value: Box::new(value) })
}

/// One id of a `by_index` child of `start_vector`: `{index: value}`.
pub open spec fn vector_by_index_spec(p: ParseNode) -> Result<IdTypeV, Seq<char>> {
    match first_grandchild(p, 0) {
        None => Err(missing_inner()),
        Some(index) => match index_name_spec(index, "Should be identifier or string literal"@) {
            Err(e) => Err(e),
            Ok(idx) => match first_grandchild(p, 1) {
                None => Err(missing_inner()),
                Some(val) => match literal_value_spec(val, "Should be identifier or literal"@) {
                    Err(e) => Err(e),
                    Ok(v) => Ok(IdTypeV::ByIndex(Box::new(idx), v)),
                },
            },
        },
    }
}

fn parse_vector_by_index_entry(p: &ParseNode) -> (r: Result<IdType, ParserError>)
    ensures
        id_res(r) == vector_by_index_spec(*p),
{
    if p.children.len() == 0 || p.children[0].children.len() == 0 {
        return Err(error("Expected an inner pair"));
    }
    let index = match parse_index_name(&p.children[0].children[0], error("Should be identifier or string literal")) {
        Ok(i) => i,
        Err(e) => {
            return Err(e);
        },
    };
    if p.children.len() < 2 || p.children[1].children.len() == 0 {
        return Err(error("Expected an inner pair"));
    }
    let value = match parse_literal_value(&p.children[1].children[0], "Should be identifier or literal") {
        Ok(v) => v,
        Err(e) => {
            return Err(e);
        },
    };
    Ok(IdType::ByIndex { index: Box::new(index), value: Box::new(value) })
}

/// Adds one id of a `by_index` child of `start_vector`.
pub open spec fn vector_index_step(acc: Seq<IdTypeV>, p: ParseNode) -> Result<Seq<IdTypeV>, Seq<char>> {
    match vector_by_index_spec(p) {
        Err(e) => Err(e),
        Ok(id) => Ok(acc.push(id)),
    }
}

/// [`vector_index_step`] as a function value.
pub open spec fn vector_index_stepper() -> spec_fn(Seq<IdTypeV>, ParseNode) -> Result<Seq<IdTypeV>, Seq<char>> {
    |acc: Seq<IdTypeV>, p: ParseNode| vector_index_step(acc, p)
}

fn parse_vector_by_index(p: &ParseNode) -> (r: Result<Vec<IdType>, ParserError>)
    ensures
        ids_res(r) == fold_list(p.children@, Seq::empty(), vector_index_stepper()),
{
    let mut ids: Vec<IdType> = Vec::new();
    let ghost step = vector_index_stepper();
    let mut i: usize = 0;
    assert(ids_view(ids@) =~= Seq::<IdTypeV>::empty());
    while i < p.children.len()
        invariant
            i <= p.children@.len(),
            step == vector_index_stepper(),
            fold_list(p.children@.take(i as int), Seq::empty(), step) == Ok::<Seq<IdTypeV>, Seq<char>>(
                ids_view(ids@),
            ),
        decreases p.children@.len() - i,
    {
        proof {
            lemma_list_next(p.children@, Seq::empty(), step, i as int);
        }
        match parse_vector_by_index_entry(&p.children[i]) {
            Ok(id) => {
                let ghost before = ids@;
                ids.push(id);
                assert(ids_view(ids@) =~= ids_view(before).push(id_view(ids@.last())));
            },
            Err(e) => {
                proof {
                    lemma_list_stops(p.children@, Seq::empty(), step, i + 1);
                }
                return Err(e);
            },
        }
        i = i + 1;
    }
    proof {
        lemma_list_all(p.children@, Seq::empty(), step);
    }
    Ok(ids)
}

// ─── typed starts ────────────────────────────────────────────────────────────

/// What a typed start (`N`, `E` or `V`) has read so far: its type and its ids.
pub struct TypedStart {
    pub node_type: Seq<char>,
    pub ids: Option<Seq<IdTypeV>>,
}

/// The kinds of typed start.
#[derive(Debug, Clone, Copy, PartialEq, Eq, Structural)]
pub enum StartKind {
    Node,
    Edge,
    Vector,
}

/// Reads one child of a typed start: `type_args` sets the type, `id_args` and (for nodes
/// and vectors) `by_index` set the ids; any other child is an error.
pub open spec fn typed_step(kind: StartKind, st: TypedStart, p: ParseNode) -> Result<TypedStart, Seq<char>> {
    match p.rule {
        Rule::TypeArgs => if p.children@.len() == 0 {
            Err(missing_inner())
        } else {
            Ok(TypedStart { node_type: p.children@[0].text@, ..st })
        },
        Rule::IdArgs => match id_args_spec(p) {
            Err(e) => Err(e),
            Ok(ids) => Ok(TypedStart { ids: Some(ids), ..st }),
        },
        Rule::ByIndex => match kind {
            StartKind::Node => match node_by_index_spec(p) {
                Err(e) => Err(e),
                Ok(id) => Ok(TypedStart { ids: Some(seq![id]), ..st }),
            },
            StartKind::Vector => match fold_list(p.children@, Seq::empty(), vector_index_stepper()) {
                Err(e) => Err(e),
                Ok(ids) => Ok(TypedStart { ids: Some(ids), ..st }),
            },
            StartKind::Edge => Err("Unexpected rule in start_edge: "@ + rule_name(p.rule)),
        },
        _ => Err(
            (match kind {
                StartKind::Node => "Unexpected rule in start_node: "@,
                StartKind::Edge => "Unexpected rule in start_edge: "@,
                StartKind::Vector => "Unexpected rule in start_vector: "@,
            }) + rule_name(p.rule),
        ),
    }
}

/// [`typed_step`] for one kind, as a function value.
pub open spec fn typed_stepper(kind: StartKind) -> spec_fn(TypedStart, ParseNode) -> Result<TypedStart, Seq<char>> {
    |st: TypedStart, p: ParseNode| typed_step(kind, st, p)
}

/// The type and ids of a typed start node.
pub open spec fn typed_start_spec(kind: StartKind, n: ParseNode) -> Result<TypedStart, Seq<char>> {
    fold_list(n.children@, TypedStart { node_type: Seq::empty(), ids: None }, typed_stepper(kind))
}

fn unexpected_child(kind: StartKind, r: Rule) -> (e: ParserError)
    ensures
        e.message@ == (match kind {
            StartKind::Node => "Unexpected rule in start_node: "@,
            StartKind::Edge => "Unexpected rule in start_edge: "@,
            StartKind::Vector => "Unexpected rule in start_vector: "@,
        }) + rule_name(r),
{
    match kind {
        StartKind::Node => error_with_rule("Unexpected rule in start_node: ", r),
        StartKind::Edge => error_with_rule("Unexpected rule in start_edge: ", r),
        StartKind::Vector => error_with_rule("Unexpected rule in start_vector: ", r),
    }
}

fn parse_typed_start(kind: StartKind, n: &ParseNode) -> (r: Result<(String, Option<Vec<IdType>>), ParserError>)
    ensures
        match r {
            Ok((t, ids)) => typed_start_spec(kind, *n) == Ok::<TypedStart, Seq<char>>(
                TypedStart { node_type: t@, ids: opt_ids_view(ids) },
            ),
            Err(e) => typed_start_spec(kind, *n) == Err::<TypedStart, Seq<char>>(e.message@),
        },
{
    let mut node_type = String::new();
    let mut ids: Option<Vec<IdType>> = None;
    let ghost step = typed_stepper(kind);
    let ghost init = TypedStart { node_type: Seq::empty(), ids: None };
    let mut i: usize = 0;
    while i < n.children.len()
        invariant
            i <= n.children@.len(),
            step == typed_stepper(kind),
            init == (TypedStart { node_type: Seq::empty(), ids: None }),
            fold_list(n.children@.take(i as int), init, step) == Ok::<TypedStart, Seq<char>>(
                TypedStart { node_type: node_type@, ids: opt_ids_view(ids) },
            ),
        decreases n.children@.len() - i,
    {
        proof {
            lemma_list_next(n.children@, init, step, i as int);
        }
        let p = &n.children[i];
        match p.rule {
            Rule::TypeArgs => {
                if p.children.len() == 0 {
                    proof {
                        lemma_list_stops(n.children@, init, step, i + 1);
                    }
                    return Err(error("Expected an inner pair"));
                }
                node_type = p.children[0].text.clone();
            },
            Rule::IdArgs => {
                match parse_id_args(p) {
                    Ok(v) => {
                        ids = Some(v);
                    },
                    Err(e) => {
                        proof {
                            lemma_list_stops(n.children@, init, step, i + 1);
                        }
                        return Err(e);
                    },
                }
            },
            Rule::ByIndex => {
                match kind {
                    StartKind::Node => match parse_node_by_index(p) {
                        Ok(id) => {
                            let mut v: Vec<IdType> = Vec::new();
                            v.push(id);
                            assert(ids_view(v@) =~= seq![id_view(v@[0])]);
                            ids = Some(v);
                        },
                        Err(e) => {
                            proof {
                                lemma_list_stops(n.children@, init, step, i + 1);
                            }
                            return Err(e);
                        },
                    },
                    StartKind::Vector => match parse_vector_by_index(p) {
                        Ok(v) => {
                            ids = Some(v);
                        },
                        Err(e) => {
                            proof {
                                lemma_list_stops(n.children@, init, step, i + 1);
                            }
                            return Err(e);
                        },
                    },
                    StartKind::Edge => {
                        proof {
                            lemma_list_stops(n.children@, init, step, i + 1);
                        }
                        return Err(error_with_rule("Unexpected rule in start_edge: ", p.rule));
                    },
                }
            },
            _ => {
                proof {
                    lemma_list_stops(n.children@, init, step, i + 1);
                }
                return Err(unexpected_child(kind, p.rule));
            },
        }
        i = i + 1;
    }
    proof {
        lemma_list_all(n.children@, init, step);
    }
    Ok((node_type, ids))
}

// ─── SearchN ─────────────────────────────────────────────────────────────────

/// The content of the number given to a vector search.
pub enum NumberV {
    I32(i32),
    Identifier(Seq<char>),
}

/// The content of the vector data of a search: a parameter name, or the literal node
/// itself.
pub enum VectorDataV {
    Identifier(Seq<char>),
    Literal(ParseNode),
}

/// What `SearchN` has read so far.
pub struct SearchState {
    pub node_type: Seq<char>,
    pub field_name: Seq<char>,
    pub data: Option<VectorDataV>,
    pub k: Option<NumberV>,
}

/// Reads one child of `SearchN<Type.field>(vector, k)`.
pub open spec fn search_step(st: SearchState, p: ParseNode) -> Result<SearchState, Seq<char>> {
    match p.rule {
        Rule::TypeDotField => if p.children@.len() < 1 {
            Err("missing node type in SearchN"@)
        } else if p.children@.len() < 2 {
            Err("missing field name in SearchN"@)
        } else {
            Ok(SearchState { node_type: p.children@[0].text@, field_name: p.children@[1].text@, ..st })
        },
        Rule::VectorData => if p.children@.len() == 0 {
            Err("empty vector_data in SearchN"@)
        } else {
            let inner = p.children@[0];
            match inner.rule {
                Rule::Identifier => Ok(SearchState { data: Some(VectorDataV::Identifier(inner.text@)), ..st }),
                Rule::VecLiteral => Ok(SearchState { data: Some(VectorDataV::Literal(inner)), ..st }),
                Rule::EmbedMethod => Err("Embed() is not supported in SearchN; use a Vec<f64> parameter"@),
                _ => Err("Unexpected rule in SearchN vector_data: "@ + rule_name(inner.rule)),
            }
        },
        Rule::Integer => match parse_signed(p.text@, i32::MIN as int, i32::MAX as int) {
            Some(k) => Ok(SearchState { k: Some(NumberV::I32(k as i32)), ..st }),
            None => Err("Invalid integer k in SearchN"@),
        },
        Rule::Identifier => Ok(SearchState { k: Some(NumberV::Identifier(p.text@)), ..st }),
        _ => Err("Unexpected rule in SearchN: "@ + rule_name(p.rule)),
    }
}

/// [`search_step`] as a function value.
pub open spec fn search_stepper() -> spec_fn(SearchState, ParseNode) -> Result<SearchState, Seq<char>> {
    |st: SearchState, p: ParseNode| search_step(st, p)
}

/// The search that a `search_node_vector` node describes.
pub open spec fn search_spec(n: ParseNode) -> Result<SearchState, Seq<char>> {
    fold_list(
        n.children@,
        SearchState { node_type: Seq::empty(), field_name: Seq::empty(), data: None, k: None },
        search_stepper(),
    )
}

/// The content of a search node vector.
pub open spec fn search_view(s: SearchNodeVector) -> SearchState {
    SearchState {
        node_type: s.node_type@,
        field_name: s.field_name@,
        data: match s.data {
            Some(VectorData::Identifier(x)) => Some(VectorDataV::Identifier(x@)),
            Some(VectorData::Literal(n)) => Some(VectorDataV::Literal(n)),
            None => None,
        },
        k: match s.k {
            Some(EvaluatesToNumber::I32(k)) => Some(NumberV::I32(k)),
            Some(EvaluatesToNumber::Identifier(x)) => Some(NumberV::Identifier(x@)),
            None => None,
        },
    }
}

/// Parses `SearchN<Type.field>(vector, k)`. The node is consumed: a vector literal is
/// kept as it was parsed.
/// Reads one child of a search node into `out`.
fn read_search_child(out: &mut SearchNodeVector, p: ParseNode) -> (r: Result<(), ParserError>)
    ensures
        match r {
            Ok(()) => search_step(search_view(*old(out)), p) == Ok::<SearchState, Seq<char>>(search_view(*final(out))),
            Err(e) => search_step(search_view(*old(out)), p) == Err::<SearchState, Seq<char>>(e.message@),
        },
{
    match p.rule {
        Rule::TypeDotField => {
            if p.children.len() < 1 {
                return Err(error("missing node type in SearchN"));
            }
            if p.children.len() < 2 {
                return Err(error("missing field name in SearchN"));
            }
            out.node_type = p.children[0].text.clone();
            out.field_name = p.children[1].text.clone();
            Ok(())
        },
        Rule::VectorData => {
            let mut inner_children = p.children;
            if inner_children.len() == 0 {
                return Err(error("empty vector_data in SearchN"));
            }
            let inner = inner_children.remove(0);
            match inner.rule {
                Rule::Identifier => {
                    out.data = Some(VectorData::Identifier(inner.text));
                    Ok(())
                },
                Rule::VecLiteral => {
                    out.data = Some(VectorData::Literal(inner));
                    Ok(())
                },
                Rule::EmbedMethod => {
                    Err(error("Embed() is not supported in SearchN; use a Vec<f64> parameter"))
                },
                _ => Err(error_with_rule("Unexpected rule in SearchN vector_data: ", inner.rule)),
            }
        },
        Rule::Integer => {
            match parse_i32(p.text.as_str()) {
                Some(k) => {
                    out.k = Some(EvaluatesToNumber::I32(k));
                    Ok(())
                },
                None => Err(error("Invalid integer k in SearchN")),
            }
        },
        Rule::Identifier => {
            out.k = Some(EvaluatesToNumber::Identifier(p.text));
            Ok(())
        },
        _ => Err(error_with_rule("Unexpected rule in SearchN: ", p.rule)),
    }
}

/// Parses `SearchN<Type.field>(vector, k)`. The node is consumed: a vector literal is
/// kept as it was parsed.
pub fn parse_search_node_vector(pair: ParseNode) -> (r: Result<SearchNodeVector, ParserError>)
    ensures
        match r {
            Ok(s) => search_spec(pair) == Ok::<SearchState, Seq<char>>(search_view(s)),
            Err(e) => search_spec(pair) == Err::<SearchState, Seq<char>>(e.message@),
        },
{
    let ghost whole = pair;
    let mut children = pair.children;
    let mut out = SearchNodeVector { node_type: String::new(), field_name: String::new(), data: None, k: None };
    let ghost step = search_stepper();
    let ghost init = SearchState { node_type: Seq::empty(), field_name: Seq::empty(), data: None, k: None };
    let ghost all = whole.children@;
    let ghost mut i: int = 0;
    while children.len() > 0
        invariant
            whole == pair,
            all == whole.children@,
            0 <= i <= all.len(),
            children@ == all.skip(i),
            step == search_stepper(),
            init == (SearchState { node_type: Seq::empty(), field_name: Seq::empty(), data: None, k: None }),
            fold_list(all.take(i), init, step) == Ok::<SearchState, Seq<char>>(search_view(out)),
        decreases children@.len(),
    {
        proof {
            lemma_list_next(all, init, step, i);
            assert(all.skip(i)[0] == all[i]);
            assert(all.skip(i).drop_first() =~= all.skip(i + 1));
        }
        let p = children.remove(0);
        match read_search_child(&mut out, p) {
            Ok(()) => {},
            Err(e) => {
                proof {
                    lemma_list_stops(all, init, step, i + 1);
                }
                return Err(e);
            },
        }
        proof {
            i = i + 1;
        }
    }
    proof {
        assert(all.skip(i).len() == 0);
        assert(i == all.len());
        lemma_list_all(all, init, step);
    }
    Ok(out)
}


/// In `SearchN<Type.field>(vector, k)`, a parameter name given as `k` is the number of
/// results asked for: reading one more child that is an identifier sets `k` to that
/// name and keeps everything read before (type, field and vector data), whatever came
/// before it; a search that failed before still fails.
pub proof fn lemma_search_identifier_is_k(n: ParseNode, m: ParseNode, p: ParseNode)
    requires
        p.rule == Rule::Identifier,
        m.children@ == n.children@.push(p),
    ensures
        search_spec(n) matches Ok(s0) ==> search_spec(m) == Ok::<SearchState, Seq<char>>(
            SearchState {
                node_type: s0.node_type,
                field_name: s0.field_name,
                data: s0.data,
                k: Some(NumberV::Identifier(p.text@)),
            },
        ),
        search_spec(n) is Err ==> search_spec(m) == search_spec(n),
{
    assert(m.children@.drop_last() =~= n.children@);
    assert(m.children@.last() == p);
}


/// In `SearchN<Type.field>(vector, k)`, the `Type.field` child names the node type and
/// the field searched, and a vector given by a parameter name is that parameter: reading
/// such a child keeps everything else read before.
pub proof fn lemma_search_type_and_vector(n: ParseNode, m: ParseNode, p: ParseNode)
    requires
        m.children@ == n.children@.push(p),
        search_spec(n) is Ok,
    ensures
        p.rule == Rule::TypeDotField && p.children@.len() >= 2 ==> search_spec(m) == Ok::<SearchState, Seq<char>>(
            SearchState {
                node_type: p.children@[0].text@,
                field_name: p.children@[1].text@,
                data: search_spec(n)->Ok_0.data,
                k: search_spec(n)->Ok_0.k,
            },
        ),
        p.rule == Rule::VectorData && p.children@.len() >= 1 && p.children@[0].rule == Rule::Identifier ==> search_spec(m)
            == Ok::<SearchState, Seq<char>>(
            SearchState {
                node_type: search_spec(n)->Ok_0.node_type,
                field_name: search_spec(n)->Ok_0.field_name,
                data: Some(VectorDataV::Identifier(p.children@[0].text@)),
                k: search_spec(n)->Ok_0.k,
            },
        ),
{
    assert(m.children@.drop_last() =~= n.children@);
    assert(m.children@.last() == p);
}

// ─── start nodes ─────────────────────────────────────────────────────────────

/// The content of a start node.
pub enum StartNodeV {
    Node { node_type: Seq<char>, ids: Option<Seq<IdTypeV>> },
    Edge { edge_type: Seq<char>, ids: Option<Seq<IdTypeV>> },
    Vector { vector_type: Seq<char>, ids: Option<Seq<IdTypeV>> },
    SearchVector(ParseNode),
    SearchNodeVector(SearchState),
    Identifier(Seq<char>),
    Anonymous,
}

/// The content of a [`StartNode`].
pub open spec fn start_view(s: StartNode) -> StartNodeV {
    match s {
        StartNode::Node { node_type, ids } => StartNodeV::Node { node_type: node_type@, ids: opt_ids_view(ids) },
        StartNode::Edge { edge_type, ids } => StartNodeV::Edge { edge_type: edge_type@, ids: opt_ids_view(ids) },
        StartNode::Vector { vector_type, ids } => StartNodeV::Vector {
            vector_type: vector_type@,
            ids: opt_ids_view(ids),
        },
        StartNode::SearchVector(n) => StartNodeV::SearchVector(n),
        StartNode::SearchNodeVector(s) => StartNodeV::SearchNodeVector(search_view(s)),
        StartNode::Identifier(x) => StartNodeV::Identifier(x@),
        StartNode::Anonymous => StartNodeV::Anonymous,
    }
}

/// The start a node of the parse tree stands for: `start_node`, `start_edge` and
/// `start_vector` read their type and ids; an identifier starts from a variable;
/// `search_node_vector` is a node vector search; `search_vector` is kept as parsed;
/// anything else is an anonymous start.
pub open spec fn start_spec(n: ParseNode) -> Result<StartNodeV, Seq<char>> {
    match n.rule {
        Rule::StartNode => match typed_start_spec(StartKind::Node, n) {
            Err(e) => Err(e),
            Ok(t) => Ok(StartNodeV::Node { node_type: t.node_type, ids: t.ids }),
        },
        Rule::StartEdge => match typed_start_spec(StartKind::Edge, n) {
            Err(e) => Err(e),
            Ok(t) => Ok(StartNodeV::Edge { edge_type: t.node_type, ids: t.ids }),
        },
        Rule::StartVector => match typed_start_spec(StartKind::Vector, n) {
            Err(e) => Err(e),
            Ok(t) => Ok(StartNodeV::Vector { vector_type: t.node_type, ids: t.ids }),
        },
        Rule::Identifier => Ok(StartNodeV::Identifier(n.text@)),
        Rule::SearchNodeVector => match search_spec(n) {
            Err(e) => Err(e),
            Ok(s) => Ok(StartNodeV::SearchNodeVector(s)),
        },
        Rule::SearchVector => Ok(StartNodeV::SearchVector(n)),
        _ => Ok(StartNodeV::Anonymous),
    }
}

/// Parses the start of a traversal from its node of the parse tree (see [`start_spec`]).
pub fn parse_start_node(pair: ParseNode) -> (r: Result<StartNode, ParserError>)
    ensures
        match r {
            Ok(s) => start_spec(pair) == Ok::<StartNodeV, Seq<char>>(start_view(s)),
            Err(e) => start_spec(pair) == Err::<StartNodeV, Seq<char>>(e.message@),
        },
{
    match pair.rule {
        Rule::StartNode => match parse_typed_start(StartKind::Node, &pair) {
            Ok((node_type, ids)) => Ok(StartNode::Node { node_type, ids }),
            Err(e) => Err(e),
        },
        Rule::StartEdge => match parse_typed_start(StartKind::Edge, &pair) {
            Ok((edge_type, ids)) => Ok(StartNode::Edge { edge_type, ids }),
            Err(e) => Err(e),
        },
        Rule::StartVector => match parse_typed_start(StartKind::Vector, &pair) {
            Ok((vector_type, ids)) => Ok(StartNode::Vector { vector_type, ids }),
            Err(e) => Err(e),
        },
        Rule::Identifier => Ok(StartNode::Identifier(pair.text)),
        Rule::SearchNodeVector => match parse_search_node_vector(pair) {
            Ok(s) => Ok(StartNode::SearchNodeVector(s)),
            Err(e) => Err(e),
        },
        Rule::SearchVector => Ok(StartNode::SearchVector(pair)),
        _ => Ok(StartNode::Anonymous),
    }
}

} // verus!
