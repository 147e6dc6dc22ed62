//! Lowering of a parsed query into traversal steps and mutations that the storage
//! layer executes, for the runtime query interpreter.
use vstd::prelude::*;
use crate::folds::{fold_list, lemma_list_next, lemma_list_stops, lemma_list_all};
use crate::hql::{
    BooleanOpType, Expression, FieldAddition, FieldValue, GraphStepType, IdType, ReturnType, Source,
    StartNode, Statement, StepType, Traversal, ValueType,
};
use crate::text::{push_str, to_owned_string};
use crate::tools::{
    EdgeType, FilterProperties, FilterPropertiesV, FilterTraversal, FilterTraversalV, Operator,
    ToolArgs, ToolArgsV, args_view, props_view, push_arg, extend_args, single_row_filter,
};
use crate::value::{PropMap, Value, ValueV};

verus! {

// ─── errors ──────────────────────────────────────────────────────────────────

/// Why a query could not be lowered.
#[derive(Debug, Clone, Copy, PartialEq, Eq, Structural)]
pub enum LowerErrorKind {
    NoQueries,
    DropWithoutTarget,
    UpdateWithoutTarget,
    AddNodeMissingType,
    AddEdgeMissingType,
    AddEdgeFromNotVariable,
    AddEdgeToNotVariable,
    MissingParameter,
    WhereMissingField,
    WhereMissingOperator,
    WhereMissingRhs,
    DropOfNonTraversal,
    UnsupportedStatement,
    UnsupportedExpression,
    UnsupportedStart,
    BareLiteralId,
    BareIdentifierId,
    ObjectValue,
    UnsupportedGraphStep,
    UnsupportedStep,
    WhereMultipleFields,
    UnsupportedBoolOp,
    NonTraversalWhere,
    ComplexRhs,
    ComplexFieldValue,
}

/// A lowering error: its kind, and the parameter or id it names (empty when none).
#[derive(Debug)]
pub struct LowerError {
    pub kind: LowerErrorKind,
    pub name: String,
}

/// The content of a lowering error.
pub type LowerErr = (LowerErrorKind, Seq<char>);

impl View for LowerError {
    type V = LowerErr;

    open spec fn view(&self) -> LowerErr {
        (self.kind, self.name@)
    }
}

impl LowerErrorKind {
    /// Whether the query uses a feature the interpreter does not support, as opposed to
    /// a query that is wrong.
    pub fn is_unsupported(&self) -> (r: bool)
        ensures
            r == (*self == LowerErrorKind::DropOfNonTraversal || *self
                == LowerErrorKind::UnsupportedStatement || *self
                == LowerErrorKind::UnsupportedExpression || *self == LowerErrorKind::UnsupportedStart
                || *self == LowerErrorKind::BareLiteralId || *self == LowerErrorKind::BareIdentifierId
                || *self == LowerErrorKind::ObjectValue || *self == LowerErrorKind::UnsupportedGraphStep
                || *self == LowerErrorKind::UnsupportedStep || *self
                == LowerErrorKind::WhereMultipleFields || *self == LowerErrorKind::UnsupportedBoolOp
                || *self == LowerErrorKind::NonTraversalWhere || *self == LowerErrorKind::ComplexRhs
                || *self == LowerErrorKind::ComplexFieldValue),
    {
        match self {
            LowerErrorKind::DropOfNonTraversal | LowerErrorKind::UnsupportedStatement
            | LowerErrorKind::UnsupportedExpression | LowerErrorKind::UnsupportedStart
            | LowerErrorKind::BareLiteralId | LowerErrorKind::BareIdentifierId
            | LowerErrorKind::ObjectValue | LowerErrorKind::UnsupportedGraphStep
            | LowerErrorKind::UnsupportedStep | LowerErrorKind::WhereMultipleFields
            | LowerErrorKind::UnsupportedBoolOp | LowerErrorKind::NonTraversalWhere
            | LowerErrorKind::ComplexRhs | LowerErrorKind::ComplexFieldValue => true,
            _ => false,
        }
    }
}

/// The message of a lowering error: what went wrong, with the parameter or id it names.
/// For the kinds that point at a part of the query, the part is not reproduced.
pub open spec fn lower_message(kind: LowerErrorKind, name: Seq<char>) -> Seq<char> {
    match kind {
        LowerErrorKind::NoQueries => "source has no queries"@,
        LowerErrorKind::DropWithoutTarget => "DROP requires a non-empty traversal (cannot drop without a target)"@,
        LowerErrorKind::UpdateWithoutTarget => "UPDATE requires a non-empty traversal (cannot update without a target)"@,
        LowerErrorKind::AddNodeMissingType => "AddNode missing type"@,
        LowerErrorKind::AddEdgeMissingType => "AddEdge missing type"@,
        LowerErrorKind::AddEdgeFromNotVariable => "AddEdge From must be a variable identifier"@,
        LowerErrorKind::AddEdgeToNotVariable => "AddEdge To must be a variable identifier"@,
        LowerErrorKind::MissingParameter => "parameter '"@ + name + "' not provided"@,
        LowerErrorKind::WhereMissingField => "WHERE missing field"@,
        LowerErrorKind::WhereMissingOperator => "WHERE missing operator"@,
        LowerErrorKind::WhereMissingRhs => "WHERE missing rhs value"@,
        LowerErrorKind::DropOfNonTraversal => "DROP with non-traversal expression"@,
        LowerErrorKind::UnsupportedStatement => "Expression/ForLoop statements not yet supported"@,
        LowerErrorKind::UnsupportedExpression => "expression type not supported"@,
        LowerErrorKind::UnsupportedStart => "SearchVector/Vector/SearchNodeVector start nodes not yet supported"@,
        LowerErrorKind::BareLiteralId => "bare literal id: "@ + name,
        LowerErrorKind::BareIdentifierId => "bare identifier id: "@ + name,
        LowerErrorKind::ObjectValue => "object value types"@,
        LowerErrorKind::UnsupportedGraphStep => "graph step variant"@,
        LowerErrorKind::UnsupportedStep => "step type"@,
        LowerErrorKind::WhereMultipleFields => "WHERE with multiple fields not yet supported"@,
        LowerErrorKind::UnsupportedBoolOp => "bool op"@,
        LowerErrorKind::NonTraversalWhere => "non-traversal WHERE expression"@,
        LowerErrorKind::ComplexRhs => "complex rhs expression"@,
        LowerErrorKind::ComplexFieldValue => "complex field value type"@,
    }
}

impl LowerError {
    /// The message answered for the error (see [`lower_message`]).
    pub fn message(&self) -> (r: String)
        ensures
            r@ == lower_message(self.kind, self.name@),
    {
        let fixed: &str = match self.kind {
            LowerErrorKind::NoQueries => "source has no queries",
            LowerErrorKind::DropWithoutTarget => "DROP requires a non-empty traversal (cannot drop without a target)",
            LowerErrorKind::UpdateWithoutTarget => "UPDATE requires a non-empty traversal (cannot update without a target)",
            LowerErrorKind::AddNodeMissingType => "AddNode missing type",
            LowerErrorKind::AddEdgeMissingType => "AddEdge missing type",
            LowerErrorKind::AddEdgeFromNotVariable => "AddEdge From must be a variable identifier",
            LowerErrorKind::AddEdgeToNotVariable => "AddEdge To must be a variable identifier",
            LowerErrorKind::MissingParameter => "parameter '",
            LowerErrorKind::WhereMissingField => "WHERE missing field",
            LowerErrorKind::WhereMissingOperator => "WHERE missing operator",
            LowerErrorKind::WhereMissingRhs => "WHERE missing rhs value",
            LowerErrorKind::DropOfNonTraversal => "DROP with non-traversal expression",
            LowerErrorKind::UnsupportedStatement => "Expression/ForLoop statements not yet supported",
            LowerErrorKind::UnsupportedExpression => "expression type not supported",
            LowerErrorKind::UnsupportedStart => "SearchVector/Vector/SearchNodeVector start nodes not yet supported",
            LowerErrorKind::BareLiteralId => "bare literal id: ",
            LowerErrorKind::BareIdentifierId => "bare identifier id: ",
            LowerErrorKind::ObjectValue => "object value types",
            LowerErrorKind::UnsupportedGraphStep => "graph step variant",
            LowerErrorKind::UnsupportedStep => "step type",
            LowerErrorKind::WhereMultipleFields => "WHERE with multiple fields not yet supported",
            LowerErrorKind::UnsupportedBoolOp => "bool op",
            LowerErrorKind::NonTraversalWhere => "non-traversal WHERE expression",
            LowerErrorKind::ComplexRhs => "complex rhs expression",
            LowerErrorKind::ComplexFieldValue => "complex field value type",
        };
        let mut s = to_owned_string(fixed);
        match self.kind {
            LowerErrorKind::MissingParameter => {
                push_str(&mut s, self.name.as_str());
                push_str(&mut s, "' not provided");
            },
            LowerErrorKind::BareLiteralId | LowerErrorKind::BareIdentifierId => {
                push_str(&mut s, self.name.as_str());
            },
            _ => {},
        }
        s
    }
}

/// An error of a kind that names nothing.
pub open spec fn lerr(kind: LowerErrorKind) -> LowerErr {
    (kind, Seq::empty())
}

fn error_of(kind: LowerErrorKind) -> (e: LowerError)
    ensures
        e@ == lerr(kind),
{
    LowerError { kind, name: String::new() }
}

fn error_naming(kind: LowerErrorKind, name: &str) -> (e: LowerError)
    ensures
        e@ == (kind, name@),
{
    LowerError { kind, name: to_owned_string(name) }
}

// ─── lowered operations ──────────────────────────────────────────────────────

/// A traversal whose result is bound to a name.
#[derive(Debug)]
pub struct LoweredStep {
    /// `None`: start from storage; `Some(var)`: start from the items bound to `var`.
    pub seed_var: Option<String>,
    pub tool_args: Vec<ToolArgs>,
    pub bind_to: String,
}

/// A change to the graph.
#[derive(Debug)]
pub enum MutationOp {
    AddNode { node_type: String, fields: PropMap },
    AddEdge { edge_type: String, from_var: String, to_var: String, fields: PropMap },
    DropNodes { seed_var: Option<String>, tool_args: Vec<ToolArgs> },
    UpdateNodes { seed_var: Option<String>, tool_args: Vec<ToolArgs>, updates: PropMap },
}

/// One operation of a lowered query.
#[derive(Debug)]
pub enum LoweredOp {
    Traversal(LoweredStep),
    Mutation { bind_to: String, op: MutationOp },
}

/// The content of a [`LoweredStep`].
pub struct LoweredStepV {
    pub seed_var: Option<Seq<char>>,
    pub tool_args: Seq<ToolArgsV>,
    pub bind_to: Seq<char>,
}

/// The content of a [`MutationOp`].
pub enum MutationOpV {
    AddNode { node_type: Seq<char>, fields: Map<Seq<char>, ValueV> },
    AddEdge { edge_type: Seq<char>, from_var: Seq<char>, to_var: Seq<char>, fields: Map<Seq<char>, ValueV> },
    DropNodes { seed_var: Option<Seq<char>>, tool_args: Seq<ToolArgsV> },
    UpdateNodes { seed_var: Option<Seq<char>>, tool_args: Seq<ToolArgsV>, updates: Map<Seq<char>, ValueV> },
}

/// The content of a [`LoweredOp`].
pub enum LoweredOpV {
    Traversal(LoweredStepV),
    Mutation { bind_to: Seq<char>, op: MutationOpV },
}

/// The content of an optional string.
pub open spec fn opt_text(o: Option<String>) -> Option<Seq<char>> {
    match o {
        Some(s) => Some(s@),
        None => None,
    }
}

impl View for LoweredStep {
    type V = LoweredStepV;

    open spec fn view(&self) -> LoweredStepV {
        LoweredStepV {
            seed_var: opt_text(self.seed_var),
            tool_args: args_view(self.tool_args@),
            bind_to: self.bind_to@,
        }
    }
}

impl View for MutationOp {
    type V = MutationOpV;

    open spec fn view(&self) -> MutationOpV {
        match self {
            MutationOp::AddNode { node_type, fields } => MutationOpV::AddNode {
                node_type: node_type@,
                fields: fields@,
            },
            MutationOp::AddEdge { edge_type, from_var, to_var, fields } => MutationOpV::AddEdge {
                edge_type: edge_type@,
                from_var: from_var@,
                to_var: to_var@,
                fields: fields@,
            },
            MutationOp::DropNodes { seed_var, tool_args } => MutationOpV::DropNodes {
                seed_var: opt_text(*seed_var),
                tool_args: args_view(tool_args@),
            },
            MutationOp::UpdateNodes { seed_var, tool_args, updates } => MutationOpV::UpdateNodes {
                seed_var: opt_text(*seed_var),
                tool_args: args_view(tool_args@),
                updates: updates@,
            },
        }
    }
}

impl View for LoweredOp {
    type V = LoweredOpV;

    open spec fn view(&self) -> LoweredOpV {
        match self {
            LoweredOp::Traversal(s) => LoweredOpV::Traversal(s@),
            LoweredOp::Mutation { bind_to, op } => LoweredOpV::Mutation { bind_to: bind_to@, op: op@ },
        }
    }
}

impl LoweredOp {
    /// Well-formedness: every property map is well formed.
    pub open spec fn wf(&self) -> bool {
        match self {
            LoweredOp::Traversal(_) => true,
            LoweredOp::Mutation { op, .. } => match op {
                MutationOp::AddNode { fields, .. } => fields.wf(),
                MutationOp::AddEdge { fields, .. } => fields.wf(),
                MutationOp::DropNodes { .. } => true,
                MutationOp::UpdateNodes { updates, .. } => updates.wf(),
            },
        }
    }
}

/// The content of a list of operations.
pub open spec fn ops_view(s: Seq<LoweredOp>) -> Seq<LoweredOpV> {
    s.map_values(|o: LoweredOp| o@)
}

/// The content of a list of names.
pub open spec fn names_view(s: Seq<String>) -> Seq<Seq<char>> {
    s.map_values(|n: String| n@)
}

// ─── values ──────────────────────────────────────────────────────────────────

/// The value of a parameter.
pub open spec fn param_spec(name: Seq<char>, params: Map<Seq<char>, ValueV>) -> Result<ValueV, LowerErr> {
    if params.contains_key(name) {
        Ok(params[name])
    } else {
        Err((LowerErrorKind::MissingParameter, name))
    }
}

/// The content of a value result.
pub open spec fn value_res(r: Result<Value, LowerError>) -> Result<ValueV, LowerErr> {
    match r {
        Ok(v) => Ok(v@),
        Err(e) => Err(e@),
    }
}

fn lookup_param(name: &str, params: &PropMap) -> (r: Result<Value, LowerError>)
    requires
        params.wf(),
    ensures
        value_res(r) == param_spec(name@, params@),
{
    match params.get(name) {
        Some(v) => Ok(v.duplicate()),
        None => Err(error_naming(LowerErrorKind::MissingParameter, name)),
    }
}

/// The value a value written in a query stands for.
pub open spec fn resolve_value_spec(vt: ValueType, params: Map<Seq<char>, ValueV>) -> Result<ValueV, LowerErr> {
    match vt {
        ValueType::Literal { value } => Ok(value@),
        ValueType::Identifier { value } => param_spec(value@, params),
        ValueType::Object => Err(lerr(LowerErrorKind::ObjectValue)),
    }
}

/// Resolves a value written in a query: a literal, or the value of a parameter.
pub fn resolve_value_type(vt: &ValueType, params: &PropMap) -> (r: Result<Value, LowerError>)
    requires
        params.wf(),
    ensures
        value_res(r) == resolve_value_spec(*vt, params@),
{
    match vt {
        ValueType::Literal { value } => Ok(value.duplicate()),
        ValueType::Identifier { value } => lookup_param(value.as_str(), params),
        ValueType::Object => Err(error_of(LowerErrorKind::ObjectValue)),
    }
}

/// The value of the right-hand side of a comparison.
pub open spec fn rhs_spec(e: Expression, params: Map<Seq<char>, ValueV>) -> Result<ValueV, LowerErr> {
    match e {
        Expression::Identifier(name) => param_spec(name@, params),
        Expression::StringLiteral(s) => Ok(ValueV::String(s@)),
        Expression::IntegerLiteral(i) => Ok(ValueV::I32(i)),
        Expression::FloatLiteral(f) => Ok(ValueV::F64Bits(f)),
        Expression::BooleanLiteral(b) => Ok(ValueV::Boolean(b)),
        _ => Err(lerr(LowerErrorKind::ComplexRhs)),
    }
}

/// Resolves the right-hand side of a comparison: a parameter or a literal.
pub fn resolve_rhs_expr(e: &Expression, params: &PropMap) -> (r: Result<Value, LowerError>)
    requires
        params.wf(),
    ensures
        value_res(r) == rhs_spec(*e, params@),
{
    match e {
        Expression::Identifier(name) => lookup_param(name.as_str(), params),
        Expression::StringLiteral(s) => Ok(Value::String(s.clone())),
        Expression::IntegerLiteral(i) => Ok(Value::I32(*i)),
        Expression::FloatLiteral(f) => Ok(Value::F64Bits(*f)),
        Expression::BooleanLiteral(b) => Ok(Value::Boolean(*b)),
        _ => Err(error_of(LowerErrorKind::ComplexRhs)),
    }
}

/// The value given to a field.
pub open spec fn field_value_spec(fv: FieldValue, params: Map<Seq<char>, ValueV>) -> Result<ValueV, LowerErr> {
    match fv {
        FieldValue::Literal(v) => Ok(v@),
        FieldValue::Identifier(name) => param_spec(name@, params),
        FieldValue::Expression(e) => rhs_spec(*e, params),
        FieldValue::Other => Err(lerr(LowerErrorKind::ComplexFieldValue)),
    }
}

/// Resolves the value given to a field.
pub fn resolve_field_value(fv: &FieldValue, params: &PropMap) -> (r: Result<Value, LowerError>)
    requires
        params.wf(),
    ensures
        value_res(r) == field_value_spec(*fv, params@),
{
    match fv {
        FieldValue::Literal(v) => Ok(v.duplicate()),
        FieldValue::Identifier(name) => lookup_param(name.as_str(), params),
        FieldValue::Expression(e) => resolve_rhs_expr(e, params),
        FieldValue::Other => Err(error_of(LowerErrorKind::ComplexFieldValue)),
    }
}

// ─── property maps ───────────────────────────────────────────────────────────

/// Adds one `name: value` entry of `AddN` / `AddE` fields.
pub open spec fn field_entry_step(
    m: Map<Seq<char>, ValueV>,
    entry: (String, ValueType),
    params: Map<Seq<char>, ValueV>,
) -> Result<Map<Seq<char>, ValueV>, LowerErr> {
    match resolve_value_spec(entry.1, params) {
        Err(e) => Err(e),
        Ok(v) => Ok(m.insert(entry.0@, v)),
    }
}

/// [`field_entry_step`] as a function value.
pub open spec fn field_entry_stepper(params: Map<Seq<char>, ValueV>) -> spec_fn(
    Map<Seq<char>, ValueV>,
    (String, ValueType),
) -> Result<Map<Seq<char>, ValueV>, LowerErr> {
    |m: Map<Seq<char>, ValueV>, entry: (String, ValueType)| field_entry_step(m, entry, params)
}

/// The properties of `AddN` / `AddE` fields; none when there are no fields.
pub open spec fn fields_map_spec(
    fields: Option<Vec<(String, ValueType)>>,
    params: Map<Seq<char>, ValueV>,
) -> Result<Map<Seq<char>, ValueV>, LowerErr> {
    match fields {
        Some(f) => fold_list(f@, Map::empty(), field_entry_stepper(params)),
        None => Ok(Map::empty()),
    }
}

/// The content of a map result.
pub open spec fn map_res(r: Result<PropMap, LowerError>) -> Result<Map<Seq<char>, ValueV>, LowerErr> {
    match r {
        Ok(m) => Ok(m@),
        Err(e) => Err(e@),
    }
}

/// Resolves the fields of `AddN` / `AddE`.
pub fn lower_fields_map(fields: Option<&Vec<(String, ValueType)>>, params: &PropMap) -> (r: Result<
    PropMap,
    LowerError,
>)
    requires
        params.wf(),
    ensures
        map_res(r) == fields_map_spec(
            match fields {
                Some(f) => Some(*f),
                None => None,
            },
            params@,
        ),
        r matches Ok(m) ==> m.wf(),
{
    let mut out = PropMap::new();
    if let Some(f) = fields {
        let ghost step = field_entry_stepper(params@);
        let mut i: usize = 0;
        while i < f.len()
            invariant
                i <= f@.len(),
                fields == Some(f),
                params.wf(),
                out.wf(),
                step == field_entry_stepper(params@),
                fold_list(f@.take(i as int), Map::empty(), step) == Ok::<
                    Map<Seq<char>, ValueV>,
                    LowerErr,
                >(out@),
            decreases f@.len() - i,
        {
            proof {
                lemma_list_next(f@, Map::empty(), step, i as int);
            }
            match resolve_value_type(&f[i].1, params) {
                Ok(v) => {
                    out.insert(f[i].0.clone(), v);
                },
                Err(e) => {
                    proof {
                        lemma_list_stops(f@, Map::empty(), step, i + 1);
                    }
                    return Err(e);
                },
            }
            i = i + 1;
        }
        proof {
            lemma_list_all(f@, Map::empty(), step);
        }
    }
    Ok(out)
}

/// Adds one `key: value` of an update.
pub open spec fn addition_step(
    m: Map<Seq<char>, ValueV>,
    fa: FieldAddition,
    params: Map<Seq<char>, ValueV>,
) -> Result<Map<Seq<char>, ValueV>, LowerErr> {
    match field_value_spec(fa.value, params) {
        Err(e) => Err(e),
        Ok(v) => Ok(m.insert(fa.key@, v)),
    }
}

/// [`addition_step`] as a function value.
pub open spec fn addition_stepper(params: Map<Seq<char>, ValueV>) -> spec_fn(
    Map<Seq<char>, ValueV>,
    FieldAddition,
) -> Result<Map<Seq<char>, ValueV>, LowerErr> {
    |m: Map<Seq<char>, ValueV>, fa: FieldAddition| addition_step(m, fa, params)
}

/// The updates of `UPDATE({...})`; a later entry for a key wins.
pub open spec fn additions_spec(fields: Seq<FieldAddition>, params: Map<Seq<char>, ValueV>) -> Result<
    Map<Seq<char>, ValueV>,
    LowerErr,
> {
    fold_list(fields, Map::empty(), addition_stepper(params))
}

/// Resolves the updates of `UPDATE({...})`.
pub fn lower_field_additions(fields: &Vec<FieldAddition>, params: &PropMap) -> (r: Result<
    PropMap,
    LowerError,
>)
    requires
        params.wf(),
    ensures
        map_res(r) == additions_spec(fields@, params@),
        r matches Ok(m) ==> m.wf(),
{
    let mut out = PropMap::new();
    let ghost step = addition_stepper(params@);
    let mut i: usize = 0;
    while i < fields.len()
        invariant
            i <= fields@.len(),
            params.wf(),
            out.wf(),
            step == addition_stepper(params@),
            fold_list(fields@.take(i as int), Map::empty(), step) == Ok::<
                Map<Seq<char>, ValueV>,
                LowerErr,
            >(out@),
        decreases fields@.len() - i,
    {
        proof {
            lemma_list_next(fields@, Map::empty(), step, i as int);
        }
        match resolve_field_value(&fields[i].value, params) {
            Ok(v) => {
                out.insert(fields[i].key.clone(), v);
            },
            Err(e) => {
                proof {
                    lemma_list_stops(fields@, Map::empty(), step, i + 1);
                }
                return Err(e);
            },
        }
        i = i + 1;
    }
    proof {
        lemma_list_all(fields@, Map::empty(), step);
    }
    Ok(out)
}


// ─── start nodes ─────────────────────────────────────────────────────────────

/// The field an index lookup reads: the text of the index name.
pub open spec fn index_key(id: IdType) -> Seq<char> {
    match id {
        IdType::Literal { value } => value@,
        IdType::Identifier { value } => value@,
        IdType::ByIndex { .. } => Seq::empty(),
    }
}

/// Adds the condition of one id of a start node; only index lookups are supported.
pub open spec fn id_condition_step(
    acc: Seq<FilterPropertiesV>,
    id: IdType,
    params: Map<Seq<char>, ValueV>,
) -> Result<Seq<FilterPropertiesV>, LowerErr> {
    match id {
        IdType::ByIndex { index, value } => match resolve_value_spec(*value, params) {
            Err(e) => Err(e),
            Ok(v) => Ok(
                acc.push(FilterPropertiesV { key: index_key(*index), value: v, operator: Some(Operator::Eq) }),
            ),
        },
        IdType::Literal { value } => Err((LowerErrorKind::BareLiteralId, value@)),
        IdType::Identifier { value } => Err((LowerErrorKind::BareIdentifierId, value@)),
    }
}

/// [`id_condition_step`] as a function value.
pub open spec fn id_condition_stepper(params: Map<Seq<char>, ValueV>) -> spec_fn(
    Seq<FilterPropertiesV>,
    IdType,
) -> Result<Seq<FilterPropertiesV>, LowerErr> {
    |acc: Seq<FilterPropertiesV>, id: IdType| id_condition_step(acc, id, params)
}

/// The filter a list of ids stands for: one conjunction of index equalities.
pub open spec fn ids_filter_spec(ids: Seq<IdType>, params: Map<Seq<char>, ValueV>) -> Result<
    FilterTraversalV,
    LowerErr,
> {
    match fold_list(ids, Seq::empty(), id_condition_stepper(params)) {
        Err(e) => Err(e),
        Ok(props) => Ok(FilterTraversalV { properties: Some(seq![props]) }),
    }
}

fn index_key_exec(id: &IdType) -> (r: String)
    ensures
        r@ == index_key(*id),
{
    match id {
        IdType::Literal { value } => value.clone(),
        IdType::Identifier { value } => value.clone(),
        IdType::ByIndex { .. } => String::new(),
    }
}

/// Turns the ids of a start node into a filter.
pub fn ids_to_filter(ids: &Vec<IdType>, params: &PropMap) -> (r: Result<FilterTraversal, LowerError>)
    requires
        params.wf(),
    ensures
        r matches Ok(f) ==> ids_filter_spec(ids@, params@) == Ok::<FilterTraversalV, LowerErr>(f@),
        r matches Err(e) ==> ids_filter_spec(ids@, params@) == Err::<FilterTraversalV, LowerErr>(e@),
{
    let mut props: Vec<FilterProperties> = Vec::new();
    let ghost step = id_condition_stepper(params@);
    let mut i: usize = 0;
    assert(props_view(props@) =~= Seq::<FilterPropertiesV>::empty());
    while i < ids.len()
        invariant
            i <= ids@.len(),
            params.wf(),
            step == id_condition_stepper(params@),
            fold_list(ids@.take(i as int), Seq::empty(), step) == Ok::<Seq<FilterPropertiesV>, LowerErr>(
                props_view(props@),
            ),
        decreases ids@.len() - i,
    {
        proof {
            lemma_list_next(ids@, Seq::empty(), step, i as int);
        }
        match &ids[i] {
            IdType::ByIndex { index, value } => {
                match resolve_value_type(value, params) {
                    Ok(v) => {
                        let ghost before = props@;
                        let key = index_key_exec(index);
                        props.push(FilterProperties { key, value: v, operator: Some(Operator::Eq) });
                        assert(props_view(props@) =~= props_view(before).push(props@.last()@));
                    },
                    Err(e) => {
                        proof {
                            lemma_list_stops(ids@, Seq::empty(), step, i + 1);
                        }
                        return Err(e);
                    },
                }
            },
            IdType::Literal { value } => {
                proof {
                    lemma_list_stops(ids@, Seq::empty(), step, i + 1);
                }
                return Err(error_naming(LowerErrorKind::BareLiteralId, value.as_str()));
            },
            IdType::Identifier { value } => {
                proof {
                    lemma_list_stops(ids@, Seq::empty(), step, i + 1);
                }
                return Err(error_naming(LowerErrorKind::BareIdentifierId, value.as_str()));
            },
        }
        i = i + 1;
    }
    proof {
        lemma_list_all(ids@, Seq::empty(), step);
    }
    Ok(single_row_filter(props))
}

/// The seed and first steps of a traversal.
pub open spec fn start_spec(start: StartNode, params: Map<Seq<char>, ValueV>) -> Result<
    (Option<Seq<char>>, Seq<ToolArgsV>),
    LowerErr,
> {
    match start {
        StartNode::Node { node_type, ids } => match ids {
            None => Ok((None, seq![ToolArgsV::NFromType { node_type: node_type@ }])),
            Some(l) => match ids_filter_spec(l@, params) {
                Err(e) => Err(e),
                Ok(f) => Ok(
                    (
                        None,
                        seq![
                            ToolArgsV::NFromType { node_type: node_type@ },
                            ToolArgsV::FilterItems { filter: f },
                        ],
                    ),
                ),
            },
        },
        StartNode::Edge { edge_type, ids } => match ids {
            None => Ok((None, seq![ToolArgsV::EFromType { edge_type: edge_type@ }])),
            Some(l) => match ids_filter_spec(l@, params) {
                Err(e) => Err(e),
                Ok(f) => Ok(
                    (
                        None,
                        seq![
                            ToolArgsV::EFromType { edge_type: edge_type@ },
                            ToolArgsV::FilterItems { filter: f },
                        ],
                    ),
                ),
            },
        },
        StartNode::Identifier(name) => Ok((Some(name@), Seq::empty())),
        StartNode::Anonymous => Ok((None, Seq::empty())),
        _ => Err(lerr(LowerErrorKind::UnsupportedStart)),
    }
}

/// The content of a start result.
pub open spec fn start_res(r: Result<(Option<String>, Vec<ToolArgs>), LowerError>) -> Result<
    (Option<Seq<char>>, Seq<ToolArgsV>),
    LowerErr,
> {
    match r {
        Ok((s, a)) => Ok((opt_text(s), args_view(a@))),
        Err(e) => Err(e@),
    }
}

fn start_args(first: ToolArgs, ids: &Option<Vec<IdType>>, params: &PropMap) -> (r: Result<
    Vec<ToolArgs>,
    LowerError,
>)
    requires
        params.wf(),
    ensures
        match *ids {
            None => r matches Ok(a) && args_view(a@) == seq![first@],
            Some(l) => match ids_filter_spec(l@, params@) {
                Err(e) => r matches Err(x) && x@ == e,
                Ok(f) => r matches Ok(a) && args_view(a@) == seq![
                    first@,
                    ToolArgsV::FilterItems { filter: f },
                ],
            },
        },
{
    let ghost fv = first@;
    let mut args: Vec<ToolArgs> = Vec::new();
    push_arg(&mut args, first);
    assert(args_view(args@) =~= seq![fv]);
    if let Some(l) = ids {
        match ids_to_filter(l, params) {
            Ok(filter) => {
                let ghost filt = filter@;
                push_arg(&mut args, ToolArgs::FilterItems { filter });
                assert(args_view(args@) =~= seq![fv, ToolArgsV::FilterItems { filter: filt }]);
            },
            Err(e) => {
                return Err(e);
            },
        }
    }
    Ok(args)
}

/// Lowers the start of a traversal: a label scan (with an index filter when ids are
/// given), a variable to start from, or nothing for an anonymous traversal.
pub fn lower_start(start: &StartNode, params: &PropMap) -> (r: Result<
    (Option<String>, Vec<ToolArgs>),
    LowerError,
>)
    requires
        params.wf(),
    ensures
        start_res(r) == start_spec(*start, params@),
{
    match start {
        StartNode::Node { node_type, ids } => {
            match start_args(ToolArgs::NFromType { node_type: node_type.clone() }, ids, params) {
                Ok(a) => Ok((None, a)),
                Err(e) => Err(e),
            }
        },
        StartNode::Edge { edge_type, ids } => {
            match start_args(ToolArgs::EFromType { edge_type: edge_type.clone() }, ids, params) {
                Ok(a) => Ok((None, a)),
                Err(e) => Err(e),
            }
        },
        StartNode::Identifier(name) => {
            let v: Vec<ToolArgs> = Vec::new();
            assert(args_view(v@) =~= Seq::<ToolArgsV>::empty());
            Ok((Some(name.clone()), v))
        },
        StartNode::Anonymous => {
            let v: Vec<ToolArgs> = Vec::new();
            assert(args_view(v@) =~= Seq::<ToolArgsV>::empty());
            Ok((None, v))
        },
        _ => Err(error_of(LowerErrorKind::UnsupportedStart)),
    }
}


// ─── steps ───────────────────────────────────────────────────────────────────

/// The steps a graph step lowers to.
pub open spec fn graph_step_spec(gs: GraphStepType) -> Result<Seq<ToolArgsV>, LowerErr> {
    match gs {
        GraphStepType::Out(l) => Ok(seq![ToolArgsV::OutStep { edge_label: l@, edge_type: EdgeType::Node, filter: None }]),
        GraphStepType::In(l) => Ok(seq![ToolArgsV::InStep { edge_label: l@, edge_type: EdgeType::Node, filter: None }]),
        GraphStepType::OutE(l) => Ok(seq![ToolArgsV::OutEStep { edge_label: l@, filter: None }]),
        GraphStepType::InE(l) => Ok(seq![ToolArgsV::InEStep { edge_label: l@, filter: None }]),
        GraphStepType::Other => Err(lerr(LowerErrorKind::UnsupportedGraphStep)),
    }
}

/// The comparison and right-hand side of a boolean operation, for those a filter can hold.
pub open spec fn bool_op_parts(b: BooleanOpType) -> Option<(Operator, Expression)> {
    match b {
        BooleanOpType::Equal(e) => Some((Operator::Eq, *e)),
        BooleanOpType::NotEqual(e) => Some((Operator::Neq, *e)),
        BooleanOpType::GreaterThan(e) => Some((Operator::Gt, *e)),
        BooleanOpType::GreaterThanOrEqual(e) => Some((Operator::Gte, *e)),
        BooleanOpType::LessThan(e) => Some((Operator::Lt, *e)),
        BooleanOpType::LessThanOrEqual(e) => Some((Operator::Lte, *e)),
        BooleanOpType::Other => None,
    }
}

/// What a `WHERE` has gathered: the field, the comparison and the value compared with.
pub struct WhereState {
    pub field: Option<Seq<char>>,
    pub op: Option<Operator>,
    pub rhs: Option<ValueV>,
}

/// Reads one step of the traversal inside a `WHERE`.
pub open spec fn where_step(st: WhereState, step: StepType, params: Map<Seq<char>, ValueV>) -> Result<
    WhereState,
    LowerErr,
> {
    match step {
        StepType::Object(fields) => if fields@.len() > 1 {
            Err(lerr(LowerErrorKind::WhereMultipleFields))
        } else if fields@.len() == 1 {
            Ok(WhereState { field: Some(fields@[0].key@), ..st })
        } else {
            Ok(st)
        },
        StepType::BooleanOperation(b) => match bool_op_parts(b) {
            None => Err(lerr(LowerErrorKind::UnsupportedBoolOp)),
            Some((op, e)) => match rhs_spec(e, params) {
                Err(x) => Err(x),
                Ok(v) => Ok(WhereState { op: Some(op), rhs: Some(v), ..st }),
            },
        },
        _ => Ok(st),
    }
}

/// [`where_step`] as a function value.
pub open spec fn where_stepper(params: Map<Seq<char>, ValueV>) -> spec_fn(WhereState, StepType) -> Result<
    WhereState,
    LowerErr,
> {
    |st: WhereState, step: StepType| where_step(st, step, params)
}

/// The filter step of `WHERE(_::{field}::EQ(value))` and the other comparisons.
pub open spec fn where_spec(e: Expression, params: Map<Seq<char>, ValueV>) -> Result<Seq<ToolArgsV>, LowerErr> {
    match e {
        Expression::Traversal(t) => match fold_list(
            t.steps@,
            WhereState { field: None, op: None, rhs: None },
            where_stepper(params),
        ) {
            Err(x) => Err(x),
            Ok(st) => match st.field {
                None => Err(lerr(LowerErrorKind::WhereMissingField)),
                Some(f) => match st.op {
                    None => Err(lerr(LowerErrorKind::WhereMissingOperator)),
                    Some(op) => match st.rhs {
                        None => Err(lerr(LowerErrorKind::WhereMissingRhs)),
                        Some(v) => Ok(
                            seq![
                                ToolArgsV::FilterItems {
                                    filter: FilterTraversalV {
                                        properties: Some(
                                            seq![seq![FilterPropertiesV { key: f, value: v, operator: Some(op) }]],
                                        ),
                                    },
                                },
                            ],
                        ),
                    },
                },
            },
        },
        _ => Err(lerr(LowerErrorKind::NonTraversalWhere)),
    }
}

/// The content of a steps result.
pub open spec fn args_res(r: Result<Vec<ToolArgs>, LowerError>) -> Result<Seq<ToolArgsV>, LowerErr> {
    match r {
        Ok(a) => Ok(args_view(a@)),
        Err(e) => Err(e@),
    }
}

spec fn where_view(field: Option<String>, op: Option<Operator>, rhs: Option<Value>) -> WhereState {
    WhereState {
        field: opt_text(field),
        op,
        rhs: match rhs {
            Some(v) => Some(v@),
            None => None,
        },
    }
}

fn one_step(a: ToolArgs) -> (v: Vec<ToolArgs>)
    ensures
        args_view(v@) == seq![a@],
{
    let ghost av = a@;
    let mut v: Vec<ToolArgs> = Vec::new();
    push_arg(&mut v, a);
    assert(args_view(v@) =~= seq![av]);
    v
}

/// Lowers a `WHERE` into a filter step holding one comparison.
pub fn lower_where_expr(e: &Expression, params: &PropMap) -> (r: Result<Vec<ToolArgs>, LowerError>)
    requires
        params.wf(),
    ensures
        args_res(r) == where_spec(*e, params@),
{
    match e {
        Expression::Traversal(t) => {
            let mut field: Option<String> = None;
            let mut op: Option<Operator> = None;
            let mut rhs: Option<Value> = None;
            let ghost step = where_stepper(params@);
            let ghost init = WhereState { field: None, op: None, rhs: None };
            let mut i: usize = 0;
            while i < t.steps.len()
                invariant
                    i <= t.steps@.len(),
                    *e == Expression::Traversal(*t),
                    init == (WhereState { field: None, op: None, rhs: None }),
                    params.wf(),
                    step == where_stepper(params@),
                    fold_list(t.steps@.take(i as int), init, step) == Ok::<WhereState, LowerErr>(
                        where_view(field, op, rhs),
                    ),
                decreases t.steps@.len() - i,
            {
                proof {
                    lemma_list_next(t.steps@, init, step, i as int);
                }
                match &t.steps[i] {
                    StepType::Object(fields) => {
                        if fields.len() > 1 {
                            proof {
                                lemma_list_stops(t.steps@, init, step, i + 1);
                            }
                            return Err(error_of(LowerErrorKind::WhereMultipleFields));
                        }
                        if fields.len() == 1 {
                            field = Some(fields[0].key.clone());
                        }
                    },
                    StepType::BooleanOperation(b) => {
                        let (o, rhs_e) = match b {
                            BooleanOpType::Equal(x) => (Operator::Eq, x),
                            BooleanOpType::NotEqual(x) => (Operator::Neq, x),
                            BooleanOpType::GreaterThan(x) => (Operator::Gt, x),
                            BooleanOpType::GreaterThanOrEqual(x) => (Operator::Gte, x),
                            BooleanOpType::LessThan(x) => (Operator::Lt, x),
                            BooleanOpType::LessThanOrEqual(x) => (Operator::Lte, x),
                            BooleanOpType::Other => {
                                proof {
                                    lemma_list_stops(t.steps@, init, step, i + 1);
                                }
                                return Err(error_of(LowerErrorKind::UnsupportedBoolOp));
                            },
                        };
                        match resolve_rhs_expr(rhs_e, params) {
                            Ok(v) => {
                                op = Some(o);
                                rhs = Some(v);
                            },
                            Err(x) => {
                                proof {
                                    lemma_list_stops(t.steps@, init, step, i + 1);
                                }
                                return Err(x);
                            },
                        }
                    },
                    _ => {},
                }
                i = i + 1;
            }
            proof {
                lemma_list_all(t.steps@, init, step);
            }
            let f = match field {
                Some(f) => f,
                None => {
                    return Err(error_of(LowerErrorKind::WhereMissingField));
                },
            };
            let o = match op {
                Some(o) => o,
                None => {
                    return Err(error_of(LowerErrorKind::WhereMissingOperator));
                },
            };
            let v = match rhs {
                Some(v) => v,
                None => {
                    return Err(error_of(LowerErrorKind::WhereMissingRhs));
                },
            };
            let mut row: Vec<FilterProperties> = Vec::new();
            row.push(FilterProperties { key: f, value: v, operator: Some(o) });
            assert(props_view(row@) =~= seq![row@[0]@]);
            let filter = single_row_filter(row);
            Ok(one_step(ToolArgs::FilterItems { filter }))
        },
        _ => Err(error_of(LowerErrorKind::NonTraversalWhere)),
    }
}

/// The steps one traversal step lowers to.
pub open spec fn step_spec(step: StepType, params: Map<Seq<char>, ValueV>) -> Result<Seq<ToolArgsV>, LowerErr> {
    match step {
        StepType::Node(gs) => graph_step_spec(gs),
        StepType::Edge(gs) => graph_step_spec(gs),
        StepType::Where(e) => where_spec(*e, params),
        _ => Err(lerr(LowerErrorKind::UnsupportedStep)),
    }
}

fn lower_graph_step(gs: &GraphStepType) -> (r: Result<Vec<ToolArgs>, LowerError>)
    ensures
        args_res(r) == graph_step_spec(*gs),
{
    match gs {
        GraphStepType::Out(l) => Ok(
            one_step(ToolArgs::OutStep { edge_label: l.clone(), edge_type: EdgeType::Node, filter: None }),
        ),
        GraphStepType::In(l) => Ok(
            one_step(ToolArgs::InStep { edge_label: l.clone(), edge_type: EdgeType::Node, filter: None }),
        ),
        GraphStepType::OutE(l) => Ok(one_step(ToolArgs::OutEStep { edge_label: l.clone(), filter: None })),
        GraphStepType::InE(l) => Ok(one_step(ToolArgs::InEStep { edge_label: l.clone(), filter: None })),
        GraphStepType::Other => Err(error_of(LowerErrorKind::UnsupportedGraphStep)),
    }
}

/// Lowers one traversal step: `Out`, `In`, `OutE`, `InE` and `WHERE` are supported.
pub fn lower_step(step: &StepType, params: &PropMap) -> (r: Result<Vec<ToolArgs>, LowerError>)
    requires
        params.wf(),
    ensures
        args_res(r) == step_spec(*step, params@),
{
    match step {
        StepType::Node(gs) => lower_graph_step(gs),
        StepType::Edge(gs) => lower_graph_step(gs),
        StepType::Where(e) => lower_where_expr(e, params),
        _ => Err(error_of(LowerErrorKind::UnsupportedStep)),
    }
}

/// Adds the steps of one traversal step.
pub open spec fn steps_step(acc: Seq<ToolArgsV>, step: StepType, params: Map<Seq<char>, ValueV>) -> Result<
    Seq<ToolArgsV>,
    LowerErr,
> {
    match step_spec(step, params) {
        Err(e) => Err(e),
        Ok(a) => Ok(acc + a),
    }
}

/// [`steps_step`] as a function value.
pub open spec fn steps_stepper(params: Map<Seq<char>, ValueV>) -> spec_fn(Seq<ToolArgsV>, StepType) -> Result<
    Seq<ToolArgsV>,
    LowerErr,
> {
    |acc: Seq<ToolArgsV>, step: StepType| steps_step(acc, step, params)
}

/// The steps a list of traversal steps lowers to, after the steps `first`.
pub open spec fn steps_after(first: Seq<ToolArgsV>, steps: Seq<StepType>, params: Map<Seq<char>, ValueV>) -> Result<
    Seq<ToolArgsV>,
    LowerErr,
> {
    fold_list(steps, first, steps_stepper(params))
}

/// Lowers the first `upto` steps of a list, after the steps already in `args`.
fn lower_steps_into(args: &mut Vec<ToolArgs>, steps: &Vec<StepType>, upto: usize, params: &PropMap) -> (r: Result<
    (),
    LowerError,
>)
    requires
        params.wf(),
        upto <= steps@.len(),
    ensures
        r matches Ok(_) ==> steps_after(args_view(old(args)@), steps@.take(upto as int), params@)
            == Ok::<Seq<ToolArgsV>, LowerErr>(args_view(final(args)@)),
        r matches Err(e) ==> steps_after(args_view(old(args)@), steps@.take(upto as int), params@)
            == Err::<Seq<ToolArgsV>, LowerErr>(e@),
{
    let ghost first = args_view(args@);
    let ghost part = steps@.take(upto as int);
    let ghost step = steps_stepper(params@);
    let mut i: usize = 0;
    while i < upto
        invariant
            i <= upto <= steps@.len(),
            part == steps@.take(upto as int),
            first == args_view(old(args)@),
            params.wf(),
            step == steps_stepper(params@),
            fold_list(part.take(i as int), first, step) == Ok::<Seq<ToolArgsV>, LowerErr>(
                args_view(args@),
            ),
        decreases upto - i,
    {
        proof {
            lemma_list_next(part, first, step, i as int);
            assert(part[i as int] == steps@[i as int]);
        }
        match lower_step(&steps[i], params) {
            Ok(a) => {
                extend_args(args, a);
            },
            Err(e) => {
                proof {
                    lemma_list_stops(part, first, step, i + 1);
                }
                return Err(e);
            },
        }
        i = i + 1;
    }
    proof {
        lemma_list_all(part, first, step);
    }
    Ok(())
}


// ─── traversals, expressions and queries ─────────────────────────────────────

/// Whether a traversal ends with `UPDATE({...})`.
pub open spec fn ends_with_update(t: Traversal) -> bool {
    t.steps@.len() > 0 && t.steps@.last() is Update
}

/// The updates of a traversal that ends with `UPDATE({...})`.
pub open spec fn final_update(t: Traversal) -> Seq<FieldAddition> {
    match t.steps@.last() {
        StepType::Update(f) => f@,
        _ => Seq::empty(),
    }
}

/// The operation a traversal bound to `bind_to` lowers to: a traversal, or, when it ends
/// with `UPDATE`, an update of the nodes the rest of it reaches.
pub open spec fn traversal_spec(t: Traversal, params: Map<Seq<char>, ValueV>, bind_to: Seq<char>) -> Result<
    LoweredOpV,
    LowerErr,
> {
    let steps = if ends_with_update(t) {
        t.steps@.drop_last()
    } else {
        t.steps@
    };
    match start_spec(t.start, params) {
        Err(e) => Err(e),
        Ok((seed, first)) => match steps_after(first, steps, params) {
            Err(e) => Err(e),
            Ok(args) => if ends_with_update(t) {
                if seed is None && args.len() == 0 {
                    Err(lerr(LowerErrorKind::UpdateWithoutTarget))
                } else {
                    match additions_spec(final_update(t), params) {
                        Err(e) => Err(e),
                        Ok(u) => Ok(
                            LoweredOpV::Mutation {
                                bind_to,
                                op: MutationOpV::UpdateNodes { seed_var: seed, tool_args: args, updates: u },
                            },
                        ),
                    }
                }
            } else {
                Ok(LoweredOpV::Traversal(LoweredStepV { seed_var: seed, tool_args: args, bind_to }))
            },
        },
    }
}

/// The content of an operation result.
pub open spec fn op_res(r: Result<LoweredOp, LowerError>) -> Result<LoweredOpV, LowerErr> {
    match r {
        Ok(o) => Ok(o@),
        Err(e) => Err(e@),
    }
}

/// Lowers a traversal bound to `bind_to`.
pub fn lower_traversal(t: &Traversal, params: &PropMap, bind_to: &str) -> (r: Result<LoweredOp, LowerError>)
    requires
        params.wf(),
    ensures
        op_res(r) == traversal_spec(*t, params@, bind_to@),
        r matches Ok(o) ==> o.wf(),
{
    let n = t.steps.len();
    let update: Option<&Vec<FieldAddition>> = if n > 0 {
        match &t.steps[n - 1] {
            StepType::Update(f) => Some(f),
            _ => None,
        }
    } else {
        None
    };
    let upto: usize = if update.is_some() {
        n - 1
    } else {
        n
    };
    proof {
        if update.is_some() {
            assert(t.steps@.take(upto as int) =~= t.steps@.drop_last());
        } else {
            assert(t.steps@.take(upto as int) =~= t.steps@);
        }
    }
    let (seed, mut args) = match lower_start(&t.start, params) {
        Ok(x) => x,
        Err(e) => {
            return Err(e);
        },
    };
    match lower_steps_into(&mut args, &t.steps, upto, params) {
        Ok(()) => {},
        Err(e) => {
            return Err(e);
        },
    }
    match update {
        Some(fields) => {
            if seed.is_none() && args.len() == 0 {
                return Err(error_of(LowerErrorKind::UpdateWithoutTarget));
            }
            match lower_field_additions(fields, params) {
                Ok(updates) => Ok(
                    LoweredOp::Mutation {
                        bind_to: to_owned_string(bind_to),
                        op: MutationOp::UpdateNodes { seed_var: seed, tool_args: args, updates },
                    },
                ),
                Err(e) => Err(e),
            }
        },
        None => Ok(
            LoweredOp::Traversal(LoweredStep { seed_var: seed, tool_args: args, bind_to: to_owned_string(bind_to) }),
        ),
    }
}

/// The operation an expression bound to `bind_to` lowers to.
pub open spec fn expr_spec(e: Expression, params: Map<Seq<char>, ValueV>, bind_to: Seq<char>) -> Result<
    LoweredOpV,
    LowerErr,
> {
    match e {
        Expression::Traversal(t) => traversal_spec(*t, params, bind_to),
        Expression::AddNode { node_type, fields } => match node_type {
            None => Err(lerr(LowerErrorKind::AddNodeMissingType)),
            Some(nt) => match fields_map_spec(fields, params) {
                Err(x) => Err(x),
                Ok(m) => Ok(LoweredOpV::Mutation { bind_to, op: MutationOpV::AddNode { node_type: nt@, fields: m } }),
            },
        },
        Expression::AddEdge { edge_type, from_id, to_id, fields } => match edge_type {
            None => Err(lerr(LowerErrorKind::AddEdgeMissingType)),
            Some(et) => match from_id {
                Some(IdType::Identifier { value: from }) => match to_id {
                    Some(IdType::Identifier { value: to }) => match fields_map_spec(fields, params) {
                        Err(x) => Err(x),
                        Ok(m) => Ok(
                            LoweredOpV::Mutation {
                                bind_to,
                                op: MutationOpV::AddEdge { edge_type: et@, from_var: from@, to_var: to@, fields: m },
                            },
                        ),
                    },
                    _ => Err(lerr(LowerErrorKind::AddEdgeToNotVariable)),
                },
                _ => Err(lerr(LowerErrorKind::AddEdgeFromNotVariable)),
            },
        },
        _ => Err(lerr(LowerErrorKind::UnsupportedExpression)),
    }
}

/// Lowers an expression bound to `bind_to`: a traversal, `AddN` or `AddE`.
pub fn lower_expr(e: &Expression, params: &PropMap, bind_to: &str) -> (r: Result<LoweredOp, LowerError>)
    requires
        params.wf(),
    ensures
        op_res(r) == expr_spec(*e, params@, bind_to@),
        r matches Ok(o) ==> o.wf(),
{
    match e {
        Expression::Traversal(t) => lower_traversal(t, params, bind_to),
        Expression::AddNode { node_type, fields } => {
            let nt = match node_type {
                Some(nt) => nt.clone(),
                None => {
                    return Err(error_of(LowerErrorKind::AddNodeMissingType));
                },
            };
            match lower_fields_map(fields.as_ref(), params) {
                Ok(m) => Ok(
                    LoweredOp::Mutation {
                        bind_to: to_owned_string(bind_to),
                        op: MutationOp::AddNode { node_type: nt, fields: m },
                    },
                ),
                Err(x) => Err(x),
            }
        },
        Expression::AddEdge { edge_type, from_id, to_id, fields } => {
            let et = match edge_type {
                Some(et) => et.clone(),
                None => {
                    return Err(error_of(LowerErrorKind::AddEdgeMissingType));
                },
            };
            let from = match from_id {
                Some(IdType::Identifier { value }) => value.clone(),
                _ => {
                    return Err(error_of(LowerErrorKind::AddEdgeFromNotVariable));
                },
            };
            let to = match to_id {
                Some(IdType::Identifier { value }) => value.clone(),
                _ => {
                    return Err(error_of(LowerErrorKind::AddEdgeToNotVariable));
                },
            };
            match lower_fields_map(fields.as_ref(), params) {
                Ok(m) => Ok(
                    LoweredOp::Mutation {
                        bind_to: to_owned_string(bind_to),
                        op: MutationOp::AddEdge { edge_type: et, from_var: from, to_var: to, fields: m },
                    },
                ),
                Err(x) => Err(x),
            }
        },
        _ => Err(error_of(LowerErrorKind::UnsupportedExpression)),
    }
}

/// The operation of `DROP traversal`: a deletion of what the traversal reaches.
pub open spec fn drop_spec(e: Expression, params: Map<Seq<char>, ValueV>) -> Result<LoweredOpV, LowerErr> {
    match e {
        Expression::Traversal(t) => match start_spec(t.start, params) {
            Err(x) => Err(x),
            Ok((seed, first)) => match steps_after(first, t.steps@, params) {
                Err(x) => Err(x),
                Ok(args) => if seed is None && args.len() == 0 {
                    Err(lerr(LowerErrorKind::DropWithoutTarget))
                } else {
                    Ok(
                        LoweredOpV::Mutation {
                            bind_to: "_drop_result"@,
                            op: MutationOpV::DropNodes { seed_var: seed, tool_args: args },
                        },
                    )
                },
            },
        },
        _ => Err(lerr(LowerErrorKind::DropOfNonTraversal)),
    }
}

/// Adds the operation of one statement of a query body.
pub open spec fn statement_step(acc: Seq<LoweredOpV>, st: Statement, params: Map<Seq<char>, ValueV>) -> Result<
    Seq<LoweredOpV>,
    LowerErr,
> {
    match st {
        Statement::Assignment { variable, value } => match expr_spec(value, params, variable@) {
            Err(x) => Err(x),
            Ok(op) => Ok(acc.push(op)),
        },
        Statement::Drop(e) => match drop_spec(e, params) {
            Err(x) => Err(x),
            Ok(op) => Ok(acc.push(op)),
        },
        _ => Err(lerr(LowerErrorKind::UnsupportedStatement)),
    }
}

/// [`statement_step`] as a function value.
pub open spec fn statement_stepper(params: Map<Seq<char>, ValueV>) -> spec_fn(Seq<LoweredOpV>, Statement) -> Result<
    Seq<LoweredOpV>,
    LowerErr,
> {
    |acc: Seq<LoweredOpV>, st: Statement| statement_step(acc, st, params)
}

/// The names a query returns: those of its `RETURN` values that are plain identifiers.
pub open spec fn return_names(rs: Seq<ReturnType>) -> Seq<Seq<char>>
    decreases rs.len(),
{
    if rs.len() == 0 {
        Seq::empty()
    } else {
        match rs.last() {
            ReturnType::Expression(Expression::Identifier(n)) => return_names(rs.drop_last()).push(n@),
            _ => return_names(rs.drop_last()),
        }
    }
}

/// The operations and returned names of the last query of a source.
pub open spec fn lower_query_spec(src: Source, params: Map<Seq<char>, ValueV>) -> Result<
    (Seq<LoweredOpV>, Seq<Seq<char>>),
    LowerErr,
> {
    if src.queries@.len() == 0 {
        Err(lerr(LowerErrorKind::NoQueries))
    } else {
        let q = src.queries@.last();
        match fold_list(q.statements@, Seq::empty(), statement_stepper(params)) {
            Err(x) => Err(x),
            Ok(ops) => Ok((ops, return_names(q.return_values@))),
        }
    }
}

/// Whether every operation of a list is well formed.
pub open spec fn ops_wf(s: Seq<LoweredOp>) -> bool {
    forall|i: int| 0 <= i < s.len() ==> #[trigger] s[i].wf()
}

fn push_op(ops: &mut Vec<LoweredOp>, op: LoweredOp)
    requires
        ops_wf(old(ops)@),
        op.wf(),
    ensures
        ops_wf(final(ops)@),
        ops_view(final(ops)@) == ops_view(old(ops)@).push(op@),
{
    let ghost ov = op@;
    ops.push(op);
    assert(ops_view(ops@) =~= ops_view(old(ops)@).push(ov));
    assert forall|i: int| 0 <= i < ops@.len() implies #[trigger] ops@[i].wf() by {
        if i < old(ops)@.len() {
            assert(ops@[i] == old(ops)@[i]);
        }
    }
}

fn return_vars_of(rs: &Vec<ReturnType>) -> (r: Vec<String>)
    ensures
        names_view(r@) == return_names(rs@),
{
    let mut out: Vec<String> = Vec::new();
    let mut i: usize = 0;
    assert(names_view(out@) =~= Seq::<Seq<char>>::empty());
    while i < rs.len()
        invariant
            i <= rs@.len(),
            names_view(out@) == return_names(rs@.take(i as int)),
        decreases rs@.len() - i,
    {
        assert(rs@.take(i + 1).drop_last() =~= rs@.take(i as int));
        match &rs[i] {
            ReturnType::Expression(Expression::Identifier(n)) => {
                let ghost before = out@;
                out.push(n.clone());
                assert(names_view(out@) =~= names_view(before).push(n@));
            },
            _ => {},
        }
        i = i + 1;
    }
    assert(rs@.take(rs@.len() as int) =~= rs@);
    out
}

fn lower_drop(e: &Expression, params: &PropMap) -> (r: Result<LoweredOp, LowerError>)
    requires
        params.wf(),
    ensures
        op_res(r) == drop_spec(*e, params@),
        r matches Ok(o) ==> o.wf(),
{
    match e {
        Expression::Traversal(t) => {
            let (seed, mut args) = match lower_start(&t.start, params) {
                Ok(x) => x,
                Err(x) => {
                    return Err(x);
                },
            };
            match lower_steps_into(&mut args, &t.steps, t.steps.len(), params) {
                Ok(()) => {},
                Err(x) => {
                    assert(t.steps@.take(t.steps@.len() as int) =~= t.steps@);
                    return Err(x);
                },
            }
            assert(t.steps@.take(t.steps@.len() as int) =~= t.steps@);
            if seed.is_none() && args.len() == 0 {
                return Err(error_of(LowerErrorKind::DropWithoutTarget));
            }
            let op = LoweredOp::Mutation {
                bind_to: to_owned_string("_drop_result"),
                op: MutationOp::DropNodes { seed_var: seed, tool_args: args },
            };
            Ok(op)
        },
        _ => Err(error_of(LowerErrorKind::DropOfNonTraversal)),
    }
}

/// The content of a lowering result.
pub open spec fn query_res(r: Result<(Vec<LoweredOp>, Vec<String>), LowerError>) -> Result<
    (Seq<LoweredOpV>, Seq<Seq<char>>),
    LowerErr,
> {
    match r {
        Ok((ops, names)) => Ok((ops_view(ops@), names_view(names@))),
        Err(e) => Err(e@),
    }
}

/// Lowers the last query of a parsed source (the submitted query follows any queries
/// compiled into the schema) into operations, and lists the names it returns.
pub fn lower_query(src: &Source, params: &PropMap) -> (r: Result<(Vec<LoweredOp>, Vec<String>), LowerError>)
    requires
        params.wf(),
    ensures
        query_res(r) == lower_query_spec(*src, params@),
        r matches Ok((ops, _)) ==> ops_wf(ops@),
{
    if src.queries.len() == 0 {
        return Err(error_of(LowerErrorKind::NoQueries));
    }
    let q = &src.queries[src.queries.len() - 1];
    let mut ops: Vec<LoweredOp> = Vec::new();
    let ghost step = statement_stepper(params@);
    assert(ops_view(ops@) =~= Seq::<LoweredOpV>::empty());
    let mut i: usize = 0;
    while i < q.statements.len()
        invariant
            i <= q.statements@.len(),
            *q == src.queries@.last(),
            src.queries@.len() > 0,
            params.wf(),
            step == statement_stepper(params@),
            ops_wf(ops@),
            fold_list(q.statements@.take(i as int), Seq::empty(), step) == Ok::<
                Seq<LoweredOpV>,
                LowerErr,
            >(ops_view(ops@)),
        decreases q.statements@.len() - i,
    {
        proof {
            lemma_list_next(q.statements@, Seq::empty(), step, i as int);
        }
        match &q.statements[i] {
            Statement::Assignment { variable, value } => {
                match lower_expr(value, params, variable.as_str()) {
                    Ok(op) => {
                        push_op(&mut ops, op);
                    },
                    Err(x) => {
                        proof {
                            lemma_list_stops(q.statements@, Seq::empty(), step, i + 1);
                        }
                        return Err(x);
                    },
                }
            },
            Statement::Drop(e) => {
                match lower_drop(e, params) {
                    Ok(op) => {
                        push_op(&mut ops, op);
                    },
                    Err(x) => {
                        proof {
                            lemma_list_stops(q.statements@, Seq::empty(), step, i + 1);
                        }
                        return Err(x);
                    },
                }
            },
            _ => {
                proof {
                    lemma_list_stops(q.statements@, Seq::empty(), step, i + 1);
                }
                return Err(error_of(LowerErrorKind::UnsupportedStatement));
            },
        }
        i = i + 1;
    }
    proof {
        lemma_list_all(q.statements@, Seq::empty(), step);
    }
    let names = return_vars_of(&q.return_values);
    Ok((ops, names))
}


/// The comparison a boolean operation of a `WHERE` writes, and the expression it
/// compares with: `EQ` is `Eq`, `NEQ` is `Neq`, `GT` is `Gt`, `GTE` is `Gte`, `LT` is
/// `Lt`, `LTE` is `Lte`.
pub open spec fn written_comparison(b: BooleanOpType, op: Operator, rhs: Expression) -> bool {
    ||| (b matches BooleanOpType::Equal(x) && *x == rhs && op == Operator::Eq)
    ||| (b matches BooleanOpType::NotEqual(x) && *x == rhs && op == Operator::Neq)
    ||| (b matches BooleanOpType::GreaterThan(x) && *x == rhs && op == Operator::Gt)
    ||| (b matches BooleanOpType::GreaterThanOrEqual(x) && *x == rhs && op == Operator::Gte)
    ||| (b matches BooleanOpType::LessThan(x) && *x == rhs && op == Operator::Lt)
    ||| (b matches BooleanOpType::LessThanOrEqual(x) && *x == rhs && op == Operator::Lte)
}

/// A `WHERE(_::{field}::OP(value))` lowers to one filter step keeping the items whose
/// `field` compares with `value` as the query wrote it: `GT(18)` keeps the items greater
/// than 18 (never those equal to it), and so for each comparison.
pub proof fn lemma_where_keeps_written_comparison(
    e: Expression,
    params: Map<Seq<char>, ValueV>,
    field: Seq<char>,
    b: BooleanOpType,
    op: Operator,
    rhs: Expression,
)
    requires
        e matches Expression::Traversal(t) && t.steps@.len() == 2 && (t.steps@[0] matches StepType::Object(fs)
            && fs@.len() == 1 && fs@[0].key@ == field) && t.steps@[1] == StepType::BooleanOperation(b),
        written_comparison(b, op, rhs),
        rhs_spec(rhs, params) is Ok,
    ensures
        where_spec(e, params) == Ok::<Seq<ToolArgsV>, LowerErr>(
            seq![
                ToolArgsV::FilterItems {
                    filter: FilterTraversalV {
                        properties: Some(
                            seq![
                                seq![
                                    FilterPropertiesV {
                                        key: field,
                                        value: rhs_spec(rhs, params)->Ok_0,
                                        operator: Some(op),
                                    },
                                ],
                            ],
                        ),
                    },
                },
            ],
        ),
{
    let t = e->Traversal_0;
    let steps = t.steps@;
    let init = WhereState { field: None, op: None, rhs: None };
    let f = where_stepper(params);
    assert(steps.drop_last().drop_last() =~= Seq::<StepType>::empty());
    assert(steps.drop_last().last() == steps[0]);
    assert(steps.last() == steps[1]);
    let st1 = WhereState { field: Some(field), ..init };
    assert(fold_list(steps.drop_last().drop_last(), init, f) == Ok::<WhereState, LowerErr>(init));
    assert(f(init, steps[0]) == where_step(init, steps[0], params));
    assert(where_step(init, steps[0], params) == Ok::<WhereState, LowerErr>(st1));
    assert(fold_list(steps.drop_last(), init, f) == Ok::<WhereState, LowerErr>(st1));
    assert(f(st1, steps[1]) == where_step(st1, steps[1], params));
}

} // verus!
