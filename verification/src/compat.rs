//! Translation of the HelixDB JSON query language into traversal and mutation steps.
//!
//! A request holds named queries; each query is a list of JSON steps such as
//! `{"NWhere": ...}`, `{"Out": "EDGE"}` or `{"AddN": ...}`. This module turns the steps
//! of one query into [`CompatStep`]s, which the storage layer then executes.
use vstd::prelude::*;
use crate::json::{
    Json, json_get, json_str, json_arr, json_u64, json_i64, json_f64_bits, json_bool,
    json_get_str, json_get_arr,
};
use crate::tools::{
    Operator, EdgeType, FilterProperties, FilterPropertiesV, FilterTraversal, FilterTraversalV,
    ToolArgs, ToolArgsV, props_view, args_view, single_row_filter, push_arg, extend_args,
};
use crate::value::{Value, ValueV, PropMap};
use crate::text::{str_eq, to_owned_string};
use crate::names::NameMap;

verus! {

// ─── errors ──────────────────────────────────────────────────────────────────

/// Why the steps of a query could not be translated.
#[derive(Debug, Clone, Copy, PartialEq, Eq, Structural)]
pub enum TranslateError {
    AddNMissingLabel,
    AddEWithoutInject,
    AddEMissingTarget,
    UnsupportedNWhere,
    UnsupportedEWhere,
    VectorSearchMissingLabel,
    EmptyQueryVector,
    UnsupportedTypedValue,
    InvalidUuid,
}

/// The description of a translation error.
pub open spec fn translate_message(e: TranslateError) -> Seq<char> {
    match e {
        TranslateError::AddNMissingLabel => "AddN missing label"@,
        TranslateError::AddEWithoutInject => "AddE requires Inject before it"@,
        TranslateError::AddEMissingTarget => "AddE: to.Var is required"@,
        TranslateError::UnsupportedNWhere => "unsupported NWhere condition"@,
        TranslateError::UnsupportedEWhere => "unsupported EWhere condition"@,
        TranslateError::VectorSearchMissingLabel => "VectorSearchNodes: missing label"@,
        TranslateError::EmptyQueryVector => "VectorSearchNodes: empty query vector"@,
        TranslateError::UnsupportedTypedValue => "unsupported typed value"@,
        TranslateError::InvalidUuid => "invalid UUID"@,
    }
}

impl TranslateError {
    /// A human-readable description of the error.
    pub fn message(&self) -> (r: &'static str)
        ensures
            r@ == translate_message(*self),
    {
        match self {
            TranslateError::AddNMissingLabel => "AddN missing label",
            TranslateError::AddEWithoutInject => "AddE requires Inject before it",
            TranslateError::AddEMissingTarget => "AddE: to.Var is required",
            TranslateError::UnsupportedNWhere => "unsupported NWhere condition",
            TranslateError::UnsupportedEWhere => "unsupported EWhere condition",
            TranslateError::VectorSearchMissingLabel => "VectorSearchNodes: missing label",
            TranslateError::EmptyQueryVector => "VectorSearchNodes: empty query vector",
            TranslateError::UnsupportedTypedValue => "unsupported typed value",
            TranslateError::InvalidUuid => "invalid UUID",
        }
    }
}

/// An error of the compatibility endpoint: the request could not be translated,
/// or the storage layer refused a step.
#[derive(Debug)]
pub enum CompatError {
    Translation(TranslateError),
    Execution(String),
}

impl CompatError {
    /// The text of the error: `v1_compat translation: ` or `v1_compat execution: ` and
    /// its description.
    pub fn message(&self) -> (r: String)
        ensures
            *self matches CompatError::Translation(e) ==> r@ == "v1_compat translation: "@ + translate_message(e),
            *self matches CompatError::Execution(m) ==> r@ == "v1_compat execution: "@ + m@,
    {
        match self {
            CompatError::Translation(e) => {
                let mut s = to_owned_string("v1_compat translation: ");
                crate::text::push_str(&mut s, e.message());
                s
            },
            CompatError::Execution(m) => {
                let mut s = to_owned_string("v1_compat execution: ");
                crate::text::push_str(&mut s, m.as_str());
                s
            },
        }
    }
}

// ─── small readers over JSON ─────────────────────────────────────────────────

/// The `i64` member `k` of an object.
pub open spec fn member_i64(v: Json, k: Seq<char>) -> Option<i64> {
    match json_get(v, k) {
        Some(x) => json_i64(x),
        None => None,
    }
}

/// The `u64` member `k` of an object.
pub open spec fn member_u64(v: Json, k: Seq<char>) -> Option<u64> {
    match json_get(v, k) {
        Some(x) => json_u64(x),
        None => None,
    }
}

/// The `f64` member `k` of an object, by its bit pattern.
pub open spec fn member_f64_bits(v: Json, k: Seq<char>) -> Option<u64> {
    match json_get(v, k) {
        Some(x) => json_f64_bits(x),
        None => None,
    }
}

/// The boolean member `k` of an object.
pub open spec fn member_bool(v: Json, k: Seq<char>) -> Option<bool> {
    match json_get(v, k) {
        Some(x) => json_bool(x),
        None => None,
    }
}

/// The bit pattern of a number, or that of `0.0` for anything else.
pub open spec fn f64_bits_or_zero(j: Json) -> u64 {
    match json_f64_bits(j) {
        Some(b) => b,
        None => 0,
    }
}

/// The text of a string, or the empty text for anything else.
pub open spec fn str_or_empty(j: Json) -> Seq<char> {
    match json_str(j) {
        Some(s) => s,
        None => Seq::empty(),
    }
}

/// The bit patterns of a list of numbers (`0.0` for an entry that is no number).
pub open spec fn f64_bits_list(s: Seq<Json>) -> Seq<u64> {
    s.map_values(|f: Json| f64_bits_or_zero(f))
}

fn f64_bits_vec(a: &Vec<Json>) -> (r: Vec<u64>)
    ensures
        r@ == f64_bits_list(a@),
{
    let mut out: Vec<u64> = Vec::new();
    let mut i: usize = 0;
    while i < a.len()
        invariant
            i <= a@.len(),
            out@ == f64_bits_list(a@.take(i as int)),
        decreases a@.len() - i,
    {
        let b = match a[i].as_f64_bits() {
            Some(b) => b,
            None => 0,
        };
        out.push(b);
        assert(a@.take(i + 1) =~= a@.take(i as int).push(a@[i as int]));
        assert(f64_bits_list(a@.take(i + 1)) =~= f64_bits_list(a@.take(i as int)).push(b));
        i = i + 1;
    }
    assert(a@.take(a@.len() as int) =~= a@);
    out
}

fn owned_or_empty(s: Option<&str>) -> (r: String)
    ensures
        r@ == (match s {
            Some(t) => t@,
            None => Seq::<char>::empty(),
        }),
{
    match s {
        Some(t) => to_owned_string(t),
        None => String::new(),
    }
}

// ─── typed values ────────────────────────────────────────────────────────────

/// The value of a typed JSON value: `{"String":"s"}`, `{"I64":42}`, `{"U64":7}`,
/// `{"F64":1.5}`, `{"Bool":true}`, `{"F64Array":[...]}`, or a plain JSON scalar.
pub open spec fn typed_value_spec(v: Json) -> Result<ValueV, TranslateError> {
    if json_get_str(v, "String"@) is Some {
        Ok(ValueV::String(json_get_str(v, "String"@)->0))
    } else if member_i64(v, "I64"@) is Some {
        Ok(ValueV::I64(member_i64(v, "I64"@)->0))
    } else if member_u64(v, "U64"@) is Some {
        Ok(ValueV::U64(member_u64(v, "U64"@)->0))
    } else if member_f64_bits(v, "F64"@) is Some {
        Ok(ValueV::F64Bits(member_f64_bits(v, "F64"@)->0))
    } else if member_bool(v, "Bool"@) is Some {
        Ok(ValueV::Boolean(member_bool(v, "Bool"@)->0))
    } else if json_get_arr(v, "F64Array"@) is Some {
        Ok(ValueV::F64Array(f64_bits_list(json_get_arr(v, "F64Array"@)->0)))
    } else if json_str(v) is Some {
        Ok(ValueV::String(json_str(v)->0))
    } else if json_i64(v) is Some {
        Ok(ValueV::I64(json_i64(v)->0))
    } else if json_f64_bits(v) is Some {
        Ok(ValueV::F64Bits(json_f64_bits(v)->0))
    } else if json_bool(v) is Some {
        Ok(ValueV::Boolean(json_bool(v)->0))
    } else {
        Err(TranslateError::UnsupportedTypedValue)
    }
}

/// The content of a value result.
pub open spec fn value_result(r: Result<Value, TranslateError>) -> Result<ValueV, TranslateError> {
    match r {
        Ok(v) => Ok(v@),
        Err(e) => Err(e),
    }
}

/// Parses a typed JSON value.
pub fn parse_typed_value(v: &Json) -> (r: Result<Value, TranslateError>)
    ensures
        value_result(r) == typed_value_spec(*v),
{
    if let Some(s) = v.get_str("String") {
        return Ok(Value::String(to_owned_string(s)));
    }
    if let Some(x) = v.get("I64") {
        if let Some(i) = x.as_i64() {
            return Ok(Value::I64(i));
        }
    }
    if let Some(x) = v.get("U64") {
        if let Some(u) = x.as_u64() {
            return Ok(Value::U64(u));
        }
    }
    if let Some(x) = v.get("F64") {
        if let Some(f) = x.as_f64_bits() {
            return Ok(Value::F64Bits(f));
        }
    }
    if let Some(x) = v.get("Bool") {
        if let Some(b) = x.as_bool() {
            return Ok(Value::Boolean(b));
        }
    }
    if let Some(arr) = v.get_array("F64Array") {
        return Ok(Value::F64Array(f64_bits_vec(arr)));
    }
    if let Some(s) = v.as_str() {
        return Ok(Value::String(to_owned_string(s)));
    }
    if let Some(i) = v.as_i64() {
        return Ok(Value::I64(i));
    }
    if let Some(f) = v.as_f64_bits() {
        return Ok(Value::F64Bits(f));
    }
    if let Some(b) = v.as_bool() {
        return Ok(Value::Boolean(b));
    }
    Err(TranslateError::UnsupportedTypedValue)
}

/// The value of a property input: `{"Value": <typed>}` or a typed value itself.
pub open spec fn property_input_spec(v: Json) -> Result<ValueV, TranslateError> {
    match json_get(v, "Value"@) {
        Some(inner) => typed_value_spec(inner),
        None => typed_value_spec(v),
    }
}

/// Parses a property input.
pub fn parse_property_input(v: &Json) -> (r: Result<Value, TranslateError>)
    ensures
        value_result(r) == property_input_spec(*v),
{
    match v.get("Value") {
        Some(inner) => parse_typed_value(inner),
        None => parse_typed_value(v),
    }
}

// ─── conditions ──────────────────────────────────────────────────────────────

/// The two operands of the comparison `key` in a condition object, if it has exactly two.
pub open spec fn op_pair(c: Json, key: Seq<char>) -> Option<Seq<Json>> {
    match json_get_arr(c, key) {
        Some(a) => if a.len() == 2 {
            Some(a)
        } else {
            None
        },
        None => None,
    }
}

/// The first comparison of a condition, trying `Eq`, `Neq`, `Gt`, `Lt`, `Gte`, `Lte` in turn.
pub open spec fn first_op(c: Json) -> Option<(Operator, Seq<Json>)> {
    if op_pair(c, "Eq"@) is Some {
        Some((Operator::Eq, op_pair(c, "Eq"@)->0))
    } else if op_pair(c, "Neq"@) is Some {
        Some((Operator::Neq, op_pair(c, "Neq"@)->0))
    } else if op_pair(c, "Gt"@) is Some {
        Some((Operator::Gt, op_pair(c, "Gt"@)->0))
    } else if op_pair(c, "Lt"@) is Some {
        Some((Operator::Lt, op_pair(c, "Lt"@)->0))
    } else if op_pair(c, "Gte"@) is Some {
        Some((Operator::Gte, op_pair(c, "Gte"@)->0))
    } else if op_pair(c, "Lte"@) is Some {
        Some((Operator::Lte, op_pair(c, "Lte"@)->0))
    } else {
        None
    }
}

/// The stored field a condition key refers to: `$label` is `label`, `$id` is `id`.
pub open spec fn filter_key(raw: Seq<char>) -> Seq<char> {
    if raw == "$label"@ {
        "label"@
    } else if raw == "$id"@ {
        "id"@
    } else {
        raw
    }
}

/// The property condition a comparison object stands for; `None` when it holds no
/// supported comparison.
pub open spec fn eq_condition_spec(c: Json) -> Result<Option<FilterPropertiesV>, TranslateError> {
    match first_op(c) {
        None => Ok(None),
        Some((op, a)) => match typed_value_spec(a[1]) {
            Err(e) => Err(e),
            Ok(v) => Ok(
                Some(FilterPropertiesV { key: filter_key(str_or_empty(a[0])), value: v, operator: Some(op) }),
            ),
        },
    }
}

/// The content of a condition result.
pub open spec fn cond_result(r: Result<Option<FilterProperties>, TranslateError>) -> Result<
    Option<FilterPropertiesV>,
    TranslateError,
> {
    match r {
        Ok(Some(p)) => Ok(Some(p@)),
        Ok(None) => Ok(None),
        Err(e) => Err(e),
    }
}

fn op_pair_exec<'a>(c: &'a Json, key: &str) -> (r: Option<&'a Vec<Json>>)
    ensures
        r is Some <==> op_pair(*c, key@) is Some,
        r matches Some(a) ==> op_pair(*c, key@) == Some(a@),
{
    match c.get_array(key) {
        Some(a) => if a.len() == 2 {
            Some(a)
        } else {
            None
        },
        None => None,
    }
}

fn condition_from_pair(a: &Vec<Json>, op: Operator) -> (r: Result<
    Option<FilterProperties>,
    TranslateError,
>)
    requires
        a@.len() == 2,
    ensures
        cond_result(r) == (match typed_value_spec(a@[1]) {
            Err(e) => Err(e),
            Ok(v) => Ok(
                Some(FilterPropertiesV { key: filter_key(str_or_empty(a@[0])), value: v, operator: Some(op) }),
            ),
        }),
{
    let raw = owned_or_empty(a[0].as_str());
    let key = if str_eq(raw.as_str(), "$label") {
        to_owned_string("label")
    } else if str_eq(raw.as_str(), "$id") {
        to_owned_string("id")
    } else {
        raw
    };
    match parse_typed_value(&a[1]) {
        Ok(value) => Ok(Some(FilterProperties { key, value, operator: Some(op) })),
        Err(e) => Err(e),
    }
}

/// Translates one comparison object (`{"Eq": ["key", value]}`, or `Neq`, `Gt`, `Lt`,
/// `Gte`, `Lte`) into a property condition.
pub fn translate_eq_condition(c: &Json) -> (r: Result<Option<FilterProperties>, TranslateError>)
    ensures
        cond_result(r) == eq_condition_spec(*c),
{
    if let Some(a) = op_pair_exec(c, "Eq") {
        return condition_from_pair(a, Operator::Eq);
    }
    if let Some(a) = op_pair_exec(c, "Neq") {
        return condition_from_pair(a, Operator::Neq);
    }
    if let Some(a) = op_pair_exec(c, "Gt") {
        return condition_from_pair(a, Operator::Gt);
    }
    if let Some(a) = op_pair_exec(c, "Lt") {
        return condition_from_pair(a, Operator::Lt);
    }
    if let Some(a) = op_pair_exec(c, "Gte") {
        return condition_from_pair(a, Operator::Gte);
    }
    if let Some(a) = op_pair_exec(c, "Lte") {
        return condition_from_pair(a, Operator::Lte);
    }
    Ok(None)
}


/// The comparison a condition key names: `Eq`, `Neq`, `Gt`, `Lt`, `Gte` and `Lte` name
/// the operators of the same names.
pub open spec fn named_operator(key: Seq<char>, op: Operator) -> bool {
    ||| (key == "Eq"@ && op == Operator::Eq)
    ||| (key == "Neq"@ && op == Operator::Neq)
    ||| (key == "Gt"@ && op == Operator::Gt)
    ||| (key == "Lt"@ && op == Operator::Lt)
    ||| (key == "Gte"@ && op == Operator::Gte)
    ||| (key == "Lte"@ && op == Operator::Lte)
}

/// The six comparison keys are different texts.
proof fn lemma_comparison_keys_differ()
    ensures
        "Eq"@ != "Neq"@, "Eq"@ != "Gt"@, "Eq"@ != "Lt"@, "Eq"@ != "Gte"@, "Eq"@ != "Lte"@,
        "Neq"@ != "Gt"@, "Neq"@ != "Lt"@, "Neq"@ != "Gte"@, "Neq"@ != "Lte"@,
        "Gt"@ != "Lt"@, "Gt"@ != "Gte"@, "Gt"@ != "Lte"@,
        "Lt"@ != "Gte"@, "Lt"@ != "Lte"@,
        "Gte"@ != "Lte"@,
{
    reveal_strlit("Eq");
    reveal_strlit("Neq");
    reveal_strlit("Gt");
    reveal_strlit("Lt");
    reveal_strlit("Gte");
    reveal_strlit("Lte");
    assert("Eq"@[0] != "Gt"@[0]);
    assert("Eq"@[0] != "Lt"@[0]);
    assert("Gt"@[0] != "Lt"@[0]);
    assert("Neq"@[0] != "Gte"@[0]);
    assert("Neq"@[0] != "Lte"@[0]);
    assert("Gte"@[0] != "Lte"@[0]);
    assert("Gt"@.len() != "Gte"@.len());
    assert("Lt"@.len() != "Lte"@.len());
}

/// A condition object holding one comparison, `{"<Op>": [key, value]}`, becomes the
/// property condition comparing the field `key` with `value` by the operator its key
/// names: `{"Lt": ["age", {"I64": 30}]}` keeps the items whose age is below 30 (never
/// those equal to it), and so for each comparison.
pub proof fn lemma_condition_keeps_named_comparison(c: Json, key: Seq<char>, op: Operator, a: Seq<Json>)
    requires
        c matches Json::Object(m) && (m@.len() == 1 && m@[0].0@ == key && (m@[0].1 matches Json::Array(v) && v@ == a)),
        a.len() == 2,
        named_operator(key, op),
        typed_value_spec(a[1]) is Ok,
    ensures
        eq_condition_spec(c) == Ok::<Option<FilterPropertiesV>, TranslateError>(
            Some(
                FilterPropertiesV {
                    key: filter_key(str_or_empty(a[0])),
                    value: typed_value_spec(a[1])->Ok_0,
                    operator: Some(op),
                },
            ),
        ),
{
    lemma_comparison_keys_differ();
    let m = c->Object_0@;
    assert(m.drop_first().len() == 0);
    assert forall|k: Seq<char>| k != key implies op_pair(c, k) is None by {
        assert(crate::json::obj_get(m.drop_first(), k) is None);
    }
    assert(op_pair(c, key) == Some(a));
}


/// A condition on `$label` or `$id` compares the stored `label` or `id`; any other key
/// names the property itself.
pub proof fn lemma_condition_key_names_field(raw: Seq<char>)
    ensures
        raw == "$label"@ ==> filter_key(raw) == "label"@,
        raw == "$id"@ ==> filter_key(raw) == "id"@,
        raw != "$label"@ && raw != "$id"@ ==> filter_key(raw) == raw,
{
    assert("$label"@ != "$id"@) by {
        reveal_strlit("$label");
        reveal_strlit("$id");
        assert("$label"@.len() != "$id"@.len());
    }
}

/// The node or edge label named by `{"Eq": ["$label", {"String": T}]}`.
pub open spec fn label_of_eq(v: Json) -> Option<Seq<char>> {
    match json_get_arr(v, "Eq"@) {
        Some(a) => if a.len() == 2 && json_str(a[0]) == Some("$label"@) {
            json_get_str(a[1], "String"@)
        } else {
            None
        },
        None => None,
    }
}

/// If `v` is `{"Eq": ["$label", {"String": T}]}`, returns `T`.
pub fn label_from_eq(v: &Json) -> (r: Option<String>)
    ensures
        r is Some <==> label_of_eq(*v) is Some,
        r matches Some(s) ==> label_of_eq(*v) == Some(s@),
{
    match v.get_array("Eq") {
        Some(a) => {
            if a.len() == 2 {
                match a[0].as_str() {
                    Some(first) => {
                        if str_eq(first, "$label") {
                            match a[1].get_str("String") {
                                Some(s) => Some(to_owned_string(s)),
                                None => None,
                            }
                        } else {
                            None
                        }
                    },
                    None => None,
                }
            } else {
                None
            }
        },
        None => None,
    }
}


// ─── folds over JSON lists ───────────────────────────────────────────────────

/// Runs `f` over the elements of `s` in order, starting from `init`; the first error stops it.
pub open spec fn fold_steps<A, E>(s: Seq<Json>, init: A, f: spec_fn(A, Json) -> Result<A, E>) -> Result<
    A,
    E,
>
    decreases s.len(),
{
    if s.len() == 0 {
        Ok(init)
    } else {
        match fold_steps(s.drop_last(), init, f) {
            Err(e) => Err(e),
            Ok(acc) => f(acc, s.last()),
        }
    }
}

/// One more element of a fold.
pub proof fn lemma_fold_next<A, E>(
    s: Seq<Json>,
    init: A,
    f: spec_fn(A, Json) -> Result<A, E>,
    i: int,
)
    requires
        0 <= i < s.len(),
    ensures
        fold_steps(s.take(i + 1), init, f) == (match fold_steps(s.take(i), init, f) {
            Err(e) => Err(e),
            Ok(acc) => f(acc, s[i]),
        }),
{
    assert(s.take(i + 1).drop_last() =~= s.take(i));
}

/// Once a fold has failed on a prefix, it fails in the same way on the whole list.
pub proof fn lemma_fold_stops<A, E>(
    s: Seq<Json>,
    init: A,
    f: spec_fn(A, Json) -> Result<A, E>,
    i: int,
)
    requires
        0 <= i <= s.len(),
        fold_steps(s.take(i), init, f) is Err,
    ensures
        fold_steps(s, init, f) == fold_steps(s.take(i), init, f),
    decreases s.len() - i,
{
    if i < s.len() {
        lemma_fold_next(s, init, f, i);
        lemma_fold_stops(s, init, f, i + 1);
    } else {
        assert(s.take(i) =~= s);
    }
}

/// A fold over the whole list is a fold over its full prefix.
pub proof fn lemma_fold_all<A, E>(s: Seq<Json>, init: A, f: spec_fn(A, Json) -> Result<A, E>)
    ensures
        fold_steps(s.take(s.len() as int), init, f) == fold_steps(s, init, f),
{
    assert(s.take(s.len() as int) =~= s);
}

// ─── NWhere / EWhere ─────────────────────────────────────────────────────────

/// The first label named among a list of conditions.
pub open spec fn first_label(s: Seq<Json>) -> Option<Seq<char>>
    decreases s.len(),
{
    if s.len() == 0 {
        None
    } else {
        match first_label(s.drop_last()) {
            Some(l) => Some(l),
            None => label_of_eq(s.last()),
        }
    }
}

/// Adds the property condition of one member of a conjunction; label conditions add none.
pub open spec fn cond_step(acc: Seq<FilterPropertiesV>, c: Json) -> Result<
    Seq<FilterPropertiesV>,
    TranslateError,
> {
    if label_of_eq(c) is Some {
        Ok(acc)
    } else {
        match eq_condition_spec(c) {
            Err(e) => Err(e),
            Ok(None) => Ok(acc),
            Ok(Some(p)) => Ok(acc.push(p)),
        }
    }
}

/// [`cond_step`] as a function value.
pub open spec fn cond_stepper() -> spec_fn(Seq<FilterPropertiesV>, Json) -> Result<
    Seq<FilterPropertiesV>,
    TranslateError,
> {
    |acc: Seq<FilterPropertiesV>, c: Json| cond_step(acc, c)
}

/// The property conditions of a conjunction, in order, leaving out its label conditions.
pub open spec fn conds_filter(s: Seq<Json>) -> Result<Seq<FilterPropertiesV>, TranslateError> {
    fold_steps(s, Seq::empty(), cond_stepper())
}

/// The step that starts a traversal from all nodes (or edges) with a label.
pub open spec fn from_type_arg(label: Seq<char>, edge: bool) -> ToolArgsV {
    if edge {
        ToolArgsV::EFromType { edge_type: label }
    } else {
        ToolArgsV::NFromType { node_type: label }
    }
}

/// A filter step holding one conjunction of conditions.
pub open spec fn filter_items_of(row: Seq<FilterPropertiesV>) -> ToolArgsV {
    ToolArgsV::FilterItems { filter: FilterTraversalV { properties: Some(seq![row]) } }
}

/// The steps of an `NWhere` (`edge == false`) or `EWhere` (`edge == true`) condition.
pub open spec fn where_source_spec(cond: Json, edge: bool) -> Result<Seq<ToolArgsV>, TranslateError> {
    match json_get_arr(cond, "And"@) {
        Some(arr) => match conds_filter(arr) {
            Err(e) => Err(e),
            Ok(props) => Ok(
                (match first_label(arr) {
                    Some(l) => seq![from_type_arg(l, edge)],
                    None => Seq::empty(),
                }) + (if props.len() > 0 {
                    seq![filter_items_of(props)]
                } else {
                    Seq::empty()
                }),
            ),
        },
        None => if json_get(cond, "Eq"@) is Some {
            match label_of_eq(cond) {
                Some(l) => Ok(seq![from_type_arg(l, edge)]),
                None => match eq_condition_spec(cond) {
                    Err(e) => Err(e),
                    Ok(None) => Ok(Seq::empty()),
                    Ok(Some(p)) => Ok(seq![filter_items_of(seq![p])]),
                },
            }
        } else if edge {
            Err(TranslateError::UnsupportedEWhere)
        } else {
            Err(TranslateError::UnsupportedNWhere)
        },
    }
}

/// The content of a result holding steps.
pub open spec fn args_result(r: Result<Vec<ToolArgs>, TranslateError>) -> Result<
    Seq<ToolArgsV>,
    TranslateError,
> {
    match r {
        Ok(v) => Ok(args_view(v@)),
        Err(e) => Err(e),
    }
}

fn from_type_exec(label: String, edge: bool) -> (a: ToolArgs)
    ensures
        a@ == from_type_arg(label@, edge),
{
    if edge {
        ToolArgs::EFromType { edge_type: label }
    } else {
        ToolArgs::NFromType { node_type: label }
    }
}

fn one_arg(a: ToolArgs) -> (v: Vec<ToolArgs>)
    ensures
        args_view(v@) == seq![a@],
{
    let mut v: Vec<ToolArgs> = Vec::new();
    push_arg(&mut v, a);
    assert(args_view(Seq::<ToolArgs>::empty()) =~= Seq::<ToolArgsV>::empty());
    assert(Seq::<ToolArgsV>::empty().push(a@) =~= seq![a@]);
    v
}

fn one_condition(p: FilterProperties) -> (v: Vec<FilterProperties>)
    ensures
        props_view(v@) == seq![p@],
{
    let mut v: Vec<FilterProperties> = Vec::new();
    v.push(p);
    assert(props_view(v@) =~= seq![p@]);
    v
}

fn translate_where_source(cond: &Json, edge: bool) -> (r: Result<Vec<ToolArgs>, TranslateError>)
    ensures
        args_result(r) == where_source_spec(*cond, edge),
{
    if let Some(arr) = cond.get_array("And") {
        let ghost f = cond_stepper();
        let mut label: Option<String> = None;
        let mut props: Vec<FilterProperties> = Vec::new();
        let mut i: usize = 0;
        assert(props_view(props@) =~= Seq::<FilterPropertiesV>::empty());
        while i < arr.len()
            invariant
                i <= arr@.len(),
                json_get_arr(*cond, "And"@) == Some(arr@),
                f == cond_stepper(),
                label is Some <==> first_label(arr@.take(i as int)) is Some,
                label matches Some(l) ==> first_label(arr@.take(i as int)) == Some(l@),
                fold_steps(arr@.take(i as int), Seq::empty(), f) == Ok::<
                    Seq<FilterPropertiesV>,
                    TranslateError,
                >(props_view(props@)),
            decreases arr@.len() - i,
        {
            let c = &arr[i];
            proof {
                lemma_fold_next(arr@, Seq::empty(), f, i as int);
                assert(arr@.take(i + 1).drop_last() =~= arr@.take(i as int));
            }
            match label_from_eq(c) {
                Some(s) => {
                    if label.is_none() {
                        label = Some(s);
                    }
                },
                None => {
                    match translate_eq_condition(c) {
                        Err(e) => {
                            proof {
                                lemma_fold_stops(arr@, Seq::empty(), f, i + 1);
                            }
                            return Err(e);
                        },
                        Ok(None) => {},
                        Ok(Some(p)) => {
                            let ghost before = props@;
                            props.push(p);
                            assert(props_view(props@) =~= props_view(before).push(p@));
                        },
                    }
                },
            }
            i = i + 1;
        }
        proof {
            lemma_fold_all(arr@, Seq::empty(), f);
            assert(arr@.take(arr@.len() as int) =~= arr@);
        }
        let mut args: Vec<ToolArgs> = Vec::new();
        let ghost props_v = props_view(props@);
        match label {
            Some(l) => {
                push_arg(&mut args, from_type_exec(l, edge));
            },
            None => {},
        }
        let ghost head = args_view(args@);
        assert(head =~= (match first_label(arr@) {
            Some(l) => seq![from_type_arg(l, edge)],
            None => Seq::<ToolArgsV>::empty(),
        }));
        if props.len() > 0 {
            let filter = single_row_filter(props);
            push_arg(&mut args, ToolArgs::FilterItems { filter });
            assert(args_view(args@) =~= head + seq![filter_items_of(props_v)]);
        } else {
            assert(args_view(args@) =~= head + Seq::<ToolArgsV>::empty());
        }
        return Ok(args);
    }
    if cond.get("Eq").is_some() {
        if let Some(l) = label_from_eq(cond) {
            return Ok(one_arg(from_type_exec(l, edge)));
        }
        return match translate_eq_condition(cond) {
            Err(e) => Err(e),
            Ok(None) => {
                let v: Vec<ToolArgs> = Vec::new();
                assert(args_view(v@) =~= Seq::<ToolArgsV>::empty());
                Ok(v)
            },
            Ok(Some(p)) => {
                let ghost pv = p@;
                let filter = single_row_filter(one_condition(p));
                Ok(one_arg(ToolArgs::FilterItems { filter }))
            },
        };
    }
    if edge {
        Err(TranslateError::UnsupportedEWhere)
    } else {
        Err(TranslateError::UnsupportedNWhere)
    }
}

/// Translates an `NWhere` condition: `{"Eq": ["$label", {"String": T}]}` starts from
/// the nodes labelled `T`; `{"And": [...]}` adds the other conditions as one filter.
pub fn translate_nwhere(cond: &Json) -> (r: Result<Vec<ToolArgs>, TranslateError>)
    ensures
        args_result(r) == where_source_spec(*cond, false),
{
    translate_where_source(cond, false)
}

/// Translates an `EWhere` condition, as [`translate_nwhere`] does but starting from edges.
pub fn translate_ewhere(cond: &Json) -> (r: Result<Vec<ToolArgs>, TranslateError>)
    ensures
        args_result(r) == where_source_spec(*cond, true),
{
    translate_where_source(cond, true)
}

/// The filter step of a `Where` condition.
pub open spec fn where_condition_spec(cond: Json) -> Result<ToolArgsV, TranslateError> {
    match eq_condition_spec(cond) {
        Err(e) => Err(e),
        Ok(None) => Ok(ToolArgsV::FilterItems { filter: FilterTraversalV { properties: None } }),
        Ok(Some(p)) => Ok(filter_items_of(seq![p])),
    }
}

/// Translates a `Where` condition into a filter step.
pub fn translate_where_condition(cond: &Json) -> (r: Result<ToolArgs, TranslateError>)
    ensures
        r matches Ok(a) ==> where_condition_spec(*cond) == Ok::<ToolArgsV, TranslateError>(a@),
        r matches Err(e) ==> where_condition_spec(*cond) == Err::<ToolArgsV, TranslateError>(e),
{
    match translate_eq_condition(cond) {
        Err(e) => Err(e),
        Ok(None) => Ok(ToolArgs::FilterItems { filter: FilterTraversal { properties: None } }),
        Ok(Some(p)) => {
            let filter = single_row_filter(one_condition(p));
            Ok(ToolArgs::FilterItems { filter })
        },
    }
}

// ─── vector search ───────────────────────────────────────────────────────────

/// The number of neighbours asked for: `k.Literal`, 10 when absent.
pub open spec fn vector_k(vs: Json) -> usize {
    match json_get(vs, "k"@) {
        Some(k) => match member_u64(k, "Literal"@) {
            Some(n) => n as usize,
            None => 10,
        },
        None => 10,
    }
}

/// The query vector: `query_vector.Value.F64Array`, empty when absent.
pub open spec fn query_vector(vs: Json) -> Seq<u64> {
    match json_get(vs, "query_vector"@) {
        Some(q) => match json_get(q, "Value"@) {
            Some(v) => match json_get_arr(v, "F64Array"@) {
                Some(a) => f64_bits_list(a),
                None => Seq::empty(),
            },
            None => Seq::empty(),
        },
        None => Seq::empty(),
    }
}

/// The steps of a `VectorSearchNodes` step: start from the label, then search.
pub open spec fn vector_search_spec(vs: Json) -> Result<Seq<ToolArgsV>, TranslateError> {
    match json_get_str(vs, "label"@) {
        None => Err(TranslateError::VectorSearchMissingLabel),
        Some(label) => if query_vector(vs).len() == 0 {
            Err(TranslateError::EmptyQueryVector)
        } else {
            Ok(
                seq![
                    ToolArgsV::NFromType { node_type: label },
                    ToolArgsV::SearchVec { vector: query_vector(vs), k: vector_k(vs), min_score: None },
                ],
            )
        },
    }
}

/// Translates `VectorSearchNodes` into a label scan followed by a vector search.
pub fn translate_vector_search(vs: &Json) -> (r: Result<Vec<ToolArgs>, TranslateError>)
    ensures
        args_result(r) == vector_search_spec(*vs),
{
    let label = match vs.get_str("label") {
        Some(l) => to_owned_string(l),
        None => {
            return Err(TranslateError::VectorSearchMissingLabel);
        },
    };
    let k: usize = match vs.get("k") {
        Some(kv) => match kv.get("Literal") {
            Some(l) => match l.as_u64() {
                Some(n) => n as usize,
                None => 10,
            },
            None => 10,
        },
        None => 10,
    };
    let vector: Vec<u64> = match vs.get("query_vector") {
        Some(q) => match q.get("Value") {
            Some(v) => match v.get_array("F64Array") {
                Some(a) => f64_bits_vec(a),
                None => Vec::new(),
            },
            None => Vec::new(),
        },
        None => Vec::new(),
    };
    if vector.len() == 0 {
        return Err(TranslateError::EmptyQueryVector);
    }
    let ghost vv = vector@;
    let mut args: Vec<ToolArgs> = Vec::new();
    push_arg(&mut args, ToolArgs::NFromType { node_type: label });
    push_arg(&mut args, ToolArgs::SearchVec { vector, k, min_score: None });
    assert(args_view(args@) =~= seq![
        ToolArgsV::NFromType { node_type: label@ },
        ToolArgsV::SearchVec { vector: vv, k: k, min_score: None },
    ]);
    Ok(args)
}

// ─── property lists ──────────────────────────────────────────────────────────

/// The two elements of a `["key", value]` pair.
pub open spec fn pair_of(item: Json) -> Option<Seq<Json>> {
    match json_arr(item) {
        Some(p) => if p.len() == 2 {
            Some(p)
        } else {
            None
        },
        None => None,
    }
}

/// Stores one `["key", value]` pair; anything else is skipped.
pub open spec fn prop_step(m: Map<Seq<char>, ValueV>, item: Json) -> Result<
    Map<Seq<char>, ValueV>,
    TranslateError,
> {
    match pair_of(item) {
        None => Ok(m),
        Some(p) => match property_input_spec(p[1]) {
            Err(e) => Err(e),
            Ok(v) => Ok(m.insert(str_or_empty(p[0]), v)),
        },
    }
}

/// [`prop_step`] as a function value.
pub open spec fn prop_stepper() -> spec_fn(Map<Seq<char>, ValueV>, Json) -> Result<
    Map<Seq<char>, ValueV>,
    TranslateError,
> {
    |m: Map<Seq<char>, ValueV>, item: Json| prop_step(m, item)
}

/// The properties of `[["key", {"Value": ...}], ...]`; a later pair for a key wins.
pub open spec fn node_properties_spec(props: Json) -> Result<Map<Seq<char>, ValueV>, TranslateError> {
    match json_arr(props) {
        Some(a) => fold_steps(a, Map::empty(), prop_stepper()),
        None => Ok(Map::empty()),
    }
}

/// The content of a result holding a property map.
pub open spec fn map_result(r: Result<PropMap, TranslateError>) -> Result<
    Map<Seq<char>, ValueV>,
    TranslateError,
> {
    match r {
        Ok(m) => Ok(m@),
        Err(e) => Err(e),
    }
}

/// Parses the `properties` list of `AddN` or `AddE`.
pub fn parse_node_properties(props: &Json) -> (r: Result<PropMap, TranslateError>)
    ensures
        map_result(r) == node_properties_spec(*props),
        r matches Ok(m) ==> m.wf(),
{
    let mut fields = PropMap::new();
    if let Some(arr) = props.as_array() {
        let ghost f = prop_stepper();
        let mut i: usize = 0;
        while i < arr.len()
            invariant
                i <= arr@.len(),
                f == prop_stepper(),
                json_arr(*props) == Some(arr@),
                fields.wf(),
                fold_steps(arr@.take(i as int), Map::empty(), f) == Ok::<
                    Map<Seq<char>, ValueV>,
                    TranslateError,
                >(fields@),
            decreases arr@.len() - i,
        {
            proof {
                lemma_fold_next(arr@, Map::empty(), f, i as int);
            }
            if let Some(pair) = arr[i].as_array() {
                if pair.len() == 2 {
                    let key = owned_or_empty(pair[0].as_str());
                    match parse_property_input(&pair[1]) {
                        Ok(v) => {
                            fields.insert(key, v);
                        },
                        Err(e) => {
                            proof {
                                assert(pair_of(arr@[i as int]) == Some(pair@));
                                assert(prop_step(fields@, arr@[i as int]) == Err::<
                                    Map<Seq<char>, ValueV>,
                                    TranslateError,
                                >(e));
                                lemma_fold_stops(arr@, Map::empty(), f, i + 1);
                            }
                            return Err(e);
                        },
                    }
                }
            }
            i = i + 1;
        }
        proof {
            lemma_fold_all(arr@, Map::empty(), f);
        }
    }
    Ok(fields)
}

/// Parses the `properties` list of `AddE`, which has the same form as that of `AddN`.
pub fn parse_edge_properties(props: &Json) -> (r: Result<PropMap, TranslateError>)
    ensures
        map_result(r) == node_properties_spec(*props),
        r matches Ok(m) ==> m.wf(),
{
    parse_node_properties(props)
}

// ─── node ids ────────────────────────────────────────────────────────────────

/// What `uuid::Uuid::parse_str` gives for a text, as a 128-bit number; `None` when it
/// refuses the text.
pub uninterp spec fn uuid_parse(s: Seq<char>) -> Option<u128>;

/// `uuid::Uuid::parse_str`, with the parsed id read by `Uuid::as_u128`. The result is
/// named by [`uuid_parse`]; which texts the crate accepts (simple, hyphenated, braced
/// and URN forms) is not stated here.
#[verifier::external_body]
pub(crate) fn parse_uuid_str(s: &str) -> (r: Option<u128>)
    ensures
        r == uuid_parse(s@),
{
    match uuid::Uuid::parse_str(s) {
        Ok(u) => Some(u.as_u128()),
        Err(_) => None,
    }
}

/// Adds the id that a UUID text was parsed into, or fails when it could not be parsed.
pub fn accept_parsed_uuid(ids: &mut Vec<u128>, parsed: Option<u128>) -> (r: Result<
    (),
    TranslateError,
>)
    ensures
        parsed matches Some(u) ==> r is Ok && final(ids)@ == old(ids)@.push(u),
        parsed is None ==> r == Err::<(), TranslateError>(TranslateError::InvalidUuid),
        parsed is None ==> final(ids)@ == old(ids)@,
{
    match parsed {
        Some(u) => {
            ids.push(u);
            Ok(())
        },
        None => Err(TranslateError::InvalidUuid),
    }
}

/// Adds the id of one entry of `N: {Ids: [...]}`: a UUID text, or a plain number.
pub open spec fn uuid_step(acc: Seq<u128>, item: Json) -> Result<Seq<u128>, TranslateError> {
    match json_str(item) {
        Some(t) => match uuid_parse(t) {
            Some(u) => Ok(acc.push(u)),
            None => Err(TranslateError::InvalidUuid),
        },
        None => match json_u64(item) {
            Some(i) => Ok(acc.push(i as u128)),
            None => Ok(acc),
        },
    }
}

/// [`uuid_step`] as a function value.
pub open spec fn uuid_stepper() -> spec_fn(Seq<u128>, Json) -> Result<Seq<u128>, TranslateError> {
    |acc: Seq<u128>, item: Json| uuid_step(acc, item)
}

/// The ids of `N: {Ids: [...]}`.
pub open spec fn uuid_ids_spec(ids_val: Json) -> Result<Seq<u128>, TranslateError> {
    match json_arr(ids_val) {
        Some(a) => fold_steps(a, Seq::empty(), uuid_stepper()),
        None => Ok(Seq::empty()),
    }
}

/// The content of a result holding ids.
pub open spec fn ids_result(r: Result<Vec<u128>, TranslateError>) -> Result<Seq<u128>, TranslateError> {
    match r {
        Ok(v) => Ok(v@),
        Err(e) => Err(e),
    }
}

/// Parses the ids of `N: {Ids: [...]}`.
pub fn parse_uuid_ids(ids_val: &Json) -> (r: Result<Vec<u128>, TranslateError>)
    ensures
        ids_result(r) == uuid_ids_spec(*ids_val),
{
    let mut ids: Vec<u128> = Vec::new();
    if let Some(arr) = ids_val.as_array() {
        let ghost f = uuid_stepper();
        let mut i: usize = 0;
        while i < arr.len()
            invariant
                i <= arr@.len(),
                f == uuid_stepper(),
                json_arr(*ids_val) == Some(arr@),
                fold_steps(arr@.take(i as int), Seq::empty(), f) == Ok::<
                    Seq<u128>,
                    TranslateError,
                >(ids@),
            decreases arr@.len() - i,
        {
            proof {
                lemma_fold_next(arr@, Seq::empty(), f, i as int);
            }
            if let Some(s) = arr[i].as_str() {
                let parsed = parse_uuid_str(s);
                match accept_parsed_uuid(&mut ids, parsed) {
                    Ok(()) => {},
                    Err(e) => {
                        proof {
                            assert(uuid_step(ids@, arr@[i as int]) == Err::<Seq<u128>, TranslateError>(e));
                            lemma_fold_stops(arr@, Seq::empty(), f, i + 1);
                        }
                        return Err(e);
                    },
                }
            } else if let Some(n) = arr[i].as_u64() {
                ids.push(n as u128);
            }
            i = i + 1;
        }
        proof {
            lemma_fold_all(arr@, Seq::empty(), f);
        }
    }
    Ok(ids)
}


// ─── translated steps ────────────────────────────────────────────────────────

/// One translated step of a named query.
#[derive(Debug)]
pub enum CompatStep {
    /// Traverse the graph, optionally seeded from an earlier result; with `count`,
    /// the result is the number of items instead of the items.
    Traverse { seed_var: Option<String>, tool_args: Vec<ToolArgs>, bind_to: String, count: bool },
    /// Look up nodes by id.
    LookupByUuid { ids: Vec<u128>, bind_to: String },
    /// Create a node.
    AddNode { node_type: String, fields: PropMap, bind_to: String },
    /// Create an edge between the nodes bound to two names.
    AddEdge {
        edge_type: String,
        from_var: String,
        to_var: String,
        fields: PropMap,
        bind_to: String,
    },
    /// Set properties on the nodes a traversal reaches.
    UpdateProperties {
        seed_var: Option<String>,
        tool_args: Vec<ToolArgs>,
        updates: PropMap,
        bind_to: String,
    },
    /// Delete the nodes a traversal reaches.
    DropNodes { seed_var: Option<String>, tool_args: Vec<ToolArgs> },
}

/// The content of a [`CompatStep`].
pub enum CompatStepV {
    Traverse { seed_var: Option<Seq<char>>, tool_args: Seq<ToolArgsV>, bind_to: Seq<char>, count: bool },
    LookupByUuid { ids: Seq<u128>, bind_to: Seq<char> },
    AddNode { node_type: Seq<char>, fields: Map<Seq<char>, ValueV>, bind_to: Seq<char> },
    AddEdge {
        edge_type: Seq<char>,
        from_var: Seq<char>,
        to_var: Seq<char>,
        fields: Map<Seq<char>, ValueV>,
        bind_to: Seq<char>,
    },
    UpdateProperties {
        seed_var: Option<Seq<char>>,
        tool_args: Seq<ToolArgsV>,
        updates: Map<Seq<char>, ValueV>,
        bind_to: Seq<char>,
    },
    DropNodes { seed_var: Option<Seq<char>>, tool_args: Seq<ToolArgsV> },
}

/// The content of an optional string.
pub open spec fn opt_str_view(o: Option<String>) -> Option<Seq<char>> {
    match o {
        Some(s) => Some(s@),
        None => None,
    }
}

impl View for CompatStep {
    type V = CompatStepV;

    open spec fn view(&self) -> CompatStepV {
        match self {
            CompatStep::Traverse { seed_var, tool_args, bind_to, count } => CompatStepV::Traverse {
                seed_var: opt_str_view(*seed_var),
                tool_args: args_view(tool_args@),
                bind_to: bind_to@,
                count: *count,
            },
            CompatStep::LookupByUuid { ids, bind_to } => CompatStepV::LookupByUuid {
                ids: ids@,
                bind_to: bind_to@,
            },
            CompatStep::AddNode { node_type, fields, bind_to } => CompatStepV::AddNode {
                node_type: node_type@,
                fields: fields@,
                bind_to: bind_to@,
            },
            CompatStep::AddEdge { edge_type, from_var, to_var, fields, bind_to } =>
                CompatStepV::AddEdge {
                edge_type: edge_type@,
                from_var: from_var@,
                to_var: to_var@,
                fields: fields@,
                bind_to: bind_to@,
            },
            CompatStep::UpdateProperties { seed_var, tool_args, updates, bind_to } =>
                CompatStepV::UpdateProperties {
                seed_var: opt_str_view(*seed_var),
                tool_args: args_view(tool_args@),
                updates: updates@,
                bind_to: bind_to@,
            },
            CompatStep::DropNodes { seed_var, tool_args } => CompatStepV::DropNodes {
                seed_var: opt_str_view(*seed_var),
                tool_args: args_view(tool_args@),
            },
        }
    }
}

impl CompatStep {
    /// Well-formedness: every property map of the step is well formed.
    pub open spec fn wf(&self) -> bool {
        match self {
            CompatStep::AddNode { fields, .. } => fields.wf(),
            CompatStep::AddEdge { fields, .. } => fields.wf(),
            CompatStep::UpdateProperties { updates, .. } => updates.wf(),
            _ => true,
        }
    }
}

/// The content of a list of steps.
pub open spec fn steps_view(s: Seq<CompatStep>) -> Seq<CompatStepV> {
    s.map_values(|c: CompatStep| c@)
}

/// Whether every step of a list is well formed.
pub open spec fn steps_wf(s: Seq<CompatStep>) -> bool {
    forall|i: int| 0 <= i < s.len() ==> #[trigger] s[i].wf()
}

fn push_step(out: &mut Vec<CompatStep>, c: CompatStep)
    ensures
        steps_view(final(out)@) == steps_view(old(out)@).push(c@),
        steps_wf(old(out)@) && c.wf() ==> steps_wf(final(out)@),
{
    let ghost cv = c@;
    let ghost cw = c.wf();
    out.push(c);
    assert(steps_view(out@) =~= steps_view(old(out)@).push(cv));
    assert(steps_wf(old(out)@) && cw ==> steps_wf(out@)) by {
        if steps_wf(old(out)@) && cw {
            assert forall|i: int| 0 <= i < out@.len() implies #[trigger] out@[i].wf() by {
                if i < old(out)@.len() {
                    assert(out@[i] == old(out)@[i]);
                }
            }
        }
    }
}

fn take_args(v: &mut Vec<ToolArgs>) -> (r: Vec<ToolArgs>)
    ensures
        r@ == old(v)@,
        final(v)@.len() == 0,
{
    let mut r: Vec<ToolArgs> = Vec::new();
    std::mem::swap(&mut r, v);
    r
}

/// Turns the pending traversal (seed and steps) into a `Traverse` step, if there is one.
pub fn flush_traversal(
    out: &mut Vec<CompatStep>,
    seed_var: &mut Option<String>,
    tool_args: &mut Vec<ToolArgs>,
    bind_to: &str,
) -> (r: Result<(), CompatError>)
    ensures
        r is Ok,
        (*old(seed_var) is Some || old(tool_args)@.len() > 0) ==> steps_view(final(out)@)
            == steps_view(old(out)@).push(
            CompatStepV::Traverse {
                seed_var: opt_str_view(*old(seed_var)),
                tool_args: args_view(old(tool_args)@),
                bind_to: bind_to@,
                count: false,
            },
        ) && *final(seed_var) is None && final(tool_args)@.len() == 0,
        !(*old(seed_var) is Some || old(tool_args)@.len() > 0) ==> final(out)@ == old(out)@
            && *final(seed_var) == *old(seed_var) && final(tool_args)@ == old(tool_args)@,
        steps_wf(old(out)@) ==> steps_wf(final(out)@),
{
    if seed_var.is_some() || tool_args.len() > 0 {
        let sv = seed_var.take();
        let args = take_args(tool_args);
        push_step(out, CompatStep::Traverse { seed_var: sv, tool_args: args, bind_to: to_owned_string(bind_to), count: false });
    }
    Ok(())
}

/// Turns pending ids into a `LookupByUuid` step bound to `bind_to`, and makes that
/// result the seed of what follows.
pub fn maybe_flush_uuid_lookup(
    out: &mut Vec<CompatStep>,
    pending: &mut Option<Vec<u128>>,
    seed_var: &mut Option<String>,
    bind_to: &str,
) -> (r: Result<(), CompatError>)
    ensures
        r is Ok,
        *final(pending) is None,
        match *old(pending) {
            Some(ids) => steps_view(final(out)@) == steps_view(old(out)@).push(
                CompatStepV::LookupByUuid { ids: ids@, bind_to: bind_to@ },
            ) && opt_str_view(*final(seed_var)) == Some(bind_to@),
            None => final(out)@ == old(out)@ && *final(seed_var) == *old(seed_var),
        },
        steps_wf(old(out)@) ==> steps_wf(final(out)@),
{
    if let Some(uuids) = pending.take() {
        push_step(out, CompatStep::LookupByUuid { ids: uuids, bind_to: to_owned_string(bind_to) });
        *seed_var = Some(to_owned_string(bind_to));
    }
    Ok(())
}

// ─── the state of a query being translated ──────────────────────────────────

/// What has been gathered while reading the steps of one query.
pub struct QueryState {
    /// The steps produced so far.
    pub out: Seq<CompatStepV>,
    /// The name whose result seeds the pending traversal.
    pub seed: Option<Seq<char>>,
    /// The pending traversal steps.
    pub args: Seq<ToolArgsV>,
    /// Ids waiting to be looked up.
    pub pending: Option<Seq<u128>>,
    /// Property updates; a later update of a key wins.
    pub updates: Map<Seq<char>, ValueV>,
    /// Whether any update was given.
    pub has_updates: bool,
    /// Whether the query asked for a count.
    pub count: bool,
}

/// Why reading the steps of a query stopped early.
pub enum QueryStop {
    /// A final step (`AddN`, `AddE`, `Drop`) produced the query's steps.
    Done(Seq<CompatStepV>),
    /// A step could not be translated.
    Fail(TranslateError),
}

/// The state before the first step.
pub open spec fn initial_state() -> QueryState {
    QueryState {
        out: Seq::empty(),
        seed: None,
        args: Seq::empty(),
        pending: None,
        updates: Map::empty(),
        has_updates: false,
        count: false,
    }
}

/// The state after the pending traversal became a `Traverse` step.
pub open spec fn flush_spec(st: QueryState, name: Seq<char>) -> QueryState {
    if st.seed is Some || st.args.len() > 0 {
        QueryState {
            out: st.out.push(
                CompatStepV::Traverse { seed_var: st.seed, tool_args: st.args, bind_to: name, count: false },
            ),
            seed: None,
            args: Seq::empty(),
            ..st
        }
    } else {
        st
    }
}

/// The state after pending ids became a `LookupByUuid` step.
pub open spec fn lookup_spec(st: QueryState, name: Seq<char>) -> QueryState {
    match st.pending {
        Some(ids) => QueryState {
            out: st.out.push(CompatStepV::LookupByUuid { ids, bind_to: name }),
            pending: None,
            ..st
        },
        None => st,
    }
}

/// As [`lookup_spec`], and the lookup's result seeds what follows.
pub open spec fn flush_uuid_spec(st: QueryState, name: Seq<char>) -> QueryState {
    match st.pending {
        Some(ids) => QueryState {
            out: st.out.push(CompatStepV::LookupByUuid { ids, bind_to: name }),
            pending: None,
            seed: Some(name),
            ..st
        },
        None => st,
    }
}

/// `N: {Ids: [...]}`: ends the pending traversal and keeps the ids for a lookup.
pub open spec fn ids_branch(st: QueryState, ids_val: Json, name: Seq<char>) -> Result<QueryState, QueryStop> {
    match uuid_ids_spec(ids_val) {
        Err(e) => Err(QueryStop::Fail(e)),
        Ok(ids) => Ok(QueryState { pending: Some(ids), ..flush_spec(st, name) }),
    }
}

/// `NWhere`, `EWhere` and `VectorSearchNodes`: end the pending traversal, look up
/// pending ids, and start a new traversal with the translated steps.
pub open spec fn source_branch(
    st: QueryState,
    args: Result<Seq<ToolArgsV>, TranslateError>,
    name: Seq<char>,
) -> Result<QueryState, QueryStop> {
    match args {
        Err(e) => Err(QueryStop::Fail(e)),
        Ok(a) => {
            let st1 = flush_uuid_spec(flush_spec(st, name), name);
            Ok(QueryState { args: st1.args + a, ..st1 })
        },
    }
}

/// `Inject: "var"`: ends the pending traversal and seeds the next one from `var`.
pub open spec fn inject_branch(st: QueryState, var: Seq<char>, name: Seq<char>) -> QueryState {
    QueryState { seed: Some(var), ..lookup_spec(flush_spec(st, name), name) }
}

/// `Out`, `In`, `Where`, `Limit`: one more step of the pending traversal.
pub open spec fn move_branch(st: QueryState, arg: ToolArgsV, name: Seq<char>) -> QueryState {
    let st1 = flush_uuid_spec(st, name);
    QueryState { args: st1.args.push(arg), ..st1 }
}

/// The properties given to `AddN` or `AddE`; none when absent.
pub open spec fn props_or_empty(obj: Json) -> Result<Map<Seq<char>, ValueV>, TranslateError> {
    match json_get(obj, "properties"@) {
        Some(p) => node_properties_spec(p),
        None => Ok(Map::empty()),
    }
}

/// `AddN: {label, properties}`: the last step of its query.
pub open spec fn add_node_branch(st: QueryState, add_n: Json, name: Seq<char>) -> Result<QueryState, QueryStop> {
    match json_get_str(add_n, "label"@) {
        None => Err(QueryStop::Fail(TranslateError::AddNMissingLabel)),
        Some(node_type) => match props_or_empty(add_n) {
            Err(e) => Err(QueryStop::Fail(e)),
            Ok(fields) => Err(
                QueryStop::Done(
                    lookup_spec(flush_spec(st, name), name).out.push(
                        CompatStepV::AddNode { node_type, fields, bind_to: name },
                    ),
                ),
            ),
        },
    }
}

/// The target of `AddE`: `to.Var`.
pub open spec fn edge_target(add_e: Json) -> Option<Seq<char>> {
    match json_get(add_e, "to"@) {
        Some(t) => json_get_str(t, "Var"@),
        None => None,
    }
}

/// `AddE: {label, to: {Var: T}, properties}`: the last step of its query; the edge
/// starts at the injected seed.
pub open spec fn add_edge_branch(st: QueryState, add_e: Json, name: Seq<char>) -> Result<QueryState, QueryStop> {
    match st.seed {
        None => Err(QueryStop::Fail(TranslateError::AddEWithoutInject)),
        Some(from_var) => match edge_target(add_e) {
            None => Err(QueryStop::Fail(TranslateError::AddEMissingTarget)),
            Some(to_var) => match props_or_empty(add_e) {
                Err(e) => Err(QueryStop::Fail(e)),
                Ok(fields) => Err(
                    QueryStop::Done(
                        st.out.push(
                            CompatStepV::AddEdge {
                                edge_type: match json_get_str(add_e, "label"@) {
                                    Some(l) => l,
                                    None => Seq::empty(),
                                },
                                from_var,
                                to_var,
                                fields,
                                bind_to: name,
                            },
                        ),
                    ),
                ),
            },
        },
    }
}

/// `SetProperty: ["key", value]`: one more update; anything else than a pair is skipped.
pub open spec fn set_property_branch(st: QueryState, sp: Json) -> Result<QueryState, QueryStop> {
    match pair_of(sp) {
        None => Ok(st),
        Some(p) => match property_input_spec(p[1]) {
            Err(e) => Err(QueryStop::Fail(e)),
            Ok(v) => Ok(
                QueryState { updates: st.updates.insert(str_or_empty(p[0]), v), has_updates: true, ..st },
            ),
        },
    }
}

/// `Drop`: the last step of its query.
pub open spec fn drop_branch(st: QueryState, name: Seq<char>) -> Result<QueryState, QueryStop> {
    let st1 = flush_uuid_spec(st, name);
    Err(QueryStop::Done(st1.out.push(CompatStepV::DropNodes { seed_var: st1.seed, tool_args: st1.args })))
}

/// An out or in step along edges labelled `edge`.
pub open spec fn hop_arg(edge: Seq<char>, outgoing: bool) -> ToolArgsV {
    if outgoing {
        ToolArgsV::OutStep { edge_label: edge, edge_type: EdgeType::Node, filter: None }
    } else {
        ToolArgsV::InStep { edge_label: edge, edge_type: EdgeType::Node, filter: None }
    }
}

/// `OutN` / `InN`: as `Out` / `In` with a label; without one, only pending ids are looked up.
pub open spec fn hop_n_branch(st: QueryState, v: Json, outgoing: bool, name: Seq<char>) -> QueryState {
    match json_str(v) {
        Some(edge) => move_branch(st, hop_arg(edge, outgoing), name),
        None => flush_uuid_spec(st, name),
    }
}

/// `Limit: n`: keeps at most `n` items; a limit that is no integer is skipped.
pub open spec fn limit_branch(st: QueryState, n: Json, name: Seq<char>) -> QueryState {
    match json_u64(n) {
        Some(k) => move_branch(st, ToolArgsV::Limit { n: k as usize }, name),
        None => flush_uuid_spec(st, name),
    }
}

/// The state after one step of a query named `name`. Steps are recognised in this order:
/// `N.Ids`, `NWhere`, `EWhere`, `Inject`, `Out`, `In`, `OutN`, `InN`, `Where`, `AddN`, `AddE`,
/// `SetProperty`, `Drop`, `VectorSearchNodes`, `"Count"`, `Limit`; any other step (such as
/// `Id`, `ValueMap` or `Project`) changes nothing.
pub open spec fn query_step(st: QueryState, step: Json, name: Seq<char>) -> Result<QueryState, QueryStop> {
    if json_get(step, "N"@) is Some && json_get(json_get(step, "N"@)->0, "Ids"@) is Some {
        ids_branch(st, json_get(json_get(step, "N"@)->0, "Ids"@)->0, name)
    } else if json_get(step, "NWhere"@) is Some {
        source_branch(st, where_source_spec(json_get(step, "NWhere"@)->0, false), name)
    } else if json_get(step, "EWhere"@) is Some {
        source_branch(st, where_source_spec(json_get(step, "EWhere"@)->0, true), name)
    } else if json_get_str(step, "Inject"@) is Some {
        Ok(inject_branch(st, json_get_str(step, "Inject"@)->0, name))
    } else if json_get_str(step, "Out"@) is Some {
        Ok(move_branch(st, hop_arg(json_get_str(step, "Out"@)->0, true), name))
    } else if json_get_str(step, "In"@) is Some {
        Ok(move_branch(st, hop_arg(json_get_str(step, "In"@)->0, false), name))
    } else if json_get(step, "OutN"@) is Some {
        Ok(hop_n_branch(st, json_get(step, "OutN"@)->0, true, name))
    } else if json_get(step, "InN"@) is Some {
        Ok(hop_n_branch(st, json_get(step, "InN"@)->0, false, name))
    } else if json_get(step, "Where"@) is Some {
        match where_condition_spec(json_get(step, "Where"@)->0) {
            Err(e) => Err(QueryStop::Fail(e)),
            Ok(a) => Ok(move_branch(st, a, name)),
        }
    } else if json_get(step, "AddN"@) is Some {
        add_node_branch(st, json_get(step, "AddN"@)->0, name)
    } else if json_get(step, "AddE"@) is Some {
        add_edge_branch(st, json_get(step, "AddE"@)->0, name)
    } else if json_get(step, "SetProperty"@) is Some {
        set_property_branch(st, json_get(step, "SetProperty"@)->0)
    } else if json_get(step, "Drop"@) is Some {
        drop_branch(st, name)
    } else if json_get(step, "VectorSearchNodes"@) is Some {
        source_branch(st, vector_search_spec(json_get(step, "VectorSearchNodes"@)->0), name)
    } else if json_str(step) == Some("Count"@) {
        Ok(QueryState { count: true, ..st })
    } else if json_get(step, "Limit"@) is Some {
        Ok(limit_branch(st, json_get(step, "Limit"@)->0, name))
    } else {
        Ok(st)
    }
}

/// [`query_step`] for the query `name`, as a function value.
pub open spec fn query_stepper(name: Seq<char>) -> spec_fn(QueryState, Json) -> Result<
    QueryState,
    QueryStop,
> {
    |st: QueryState, step: Json| query_step(st, step, name)
}

/// The steps of a query whose steps all were read: pending ids become a lookup;
/// otherwise pending updates become an update of what the pending traversal reaches;
/// otherwise a pending traversal becomes a `Traverse` step, counting when `"Count"` was seen.
pub open spec fn finish_spec(st: QueryState, name: Seq<char>) -> Seq<CompatStepV> {
    match st.pending {
        Some(ids) => flush_spec(st, name).out.push(CompatStepV::LookupByUuid { ids, bind_to: name }),
        None => if st.has_updates {
            st.out.push(
                CompatStepV::UpdateProperties {
                    seed_var: st.seed,
                    tool_args: st.args,
                    updates: st.updates,
                    bind_to: name,
                },
            )
        } else if st.seed is Some || st.args.len() > 0 {
            st.out.push(
                CompatStepV::Traverse { seed_var: st.seed, tool_args: st.args, bind_to: name, count: st.count },
            )
        } else {
            st.out
        },
    }
}

/// The translation of the query `name` with the given steps.
pub open spec fn translate_spec(name: Seq<char>, steps: Seq<Json>) -> Result<Seq<CompatStepV>, TranslateError> {
    match fold_steps(steps, initial_state(), query_stepper(name)) {
        Ok(st) => Ok(finish_spec(st, name)),
        Err(QueryStop::Done(out)) => Ok(out),
        Err(QueryStop::Fail(e)) => Err(e),
    }
}


// ─── translating a query ─────────────────────────────────────────────────────

/// The state of a query being translated, as the translation holds it.
struct Pending {
    out: Vec<CompatStep>,
    seed_var: Option<String>,
    tool_args: Vec<ToolArgs>,
    pending_uuid_ids: Option<Vec<u128>>,
    pending_updates: PropMap,
    has_updates: bool,
    pending_count: bool,
}

spec fn ids_view(o: Option<Vec<u128>>) -> Option<Seq<u128>> {
    match o {
        Some(v) => Some(v@),
        None => None,
    }
}

spec fn state_of(p: Pending) -> QueryState {
    QueryState {
        out: steps_view(p.out@),
        seed: opt_str_view(p.seed_var),
        args: args_view(p.tool_args@),
        pending: ids_view(p.pending_uuid_ids),
        updates: p.pending_updates@,
        has_updates: p.has_updates,
        count: p.pending_count,
    }
}

spec fn pending_wf(p: Pending) -> bool {
    steps_wf(p.out@) && p.pending_updates.wf()
}

fn do_flush(p: &mut Pending, name: &str)
    requires
        pending_wf(*old(p)),
    ensures
        pending_wf(*final(p)),
        state_of(*final(p)) == flush_spec(state_of(*old(p)), name@),
{
    let _ = flush_traversal(&mut p.out, &mut p.seed_var, &mut p.tool_args, name);
    assert(args_view(Seq::<ToolArgs>::empty()) =~= Seq::<ToolArgsV>::empty());
    assert(p.tool_args@.len() == 0 ==> args_view(p.tool_args@) =~= Seq::<ToolArgsV>::empty());
}

fn do_flush_uuid(p: &mut Pending, name: &str)
    requires
        pending_wf(*old(p)),
    ensures
        pending_wf(*final(p)),
        state_of(*final(p)) == flush_uuid_spec(state_of(*old(p)), name@),
{
    let _ = maybe_flush_uuid_lookup(&mut p.out, &mut p.pending_uuid_ids, &mut p.seed_var, name);
}

fn do_lookup(p: &mut Pending, name: &str)
    requires
        pending_wf(*old(p)),
    ensures
        pending_wf(*final(p)),
        state_of(*final(p)) == lookup_spec(state_of(*old(p)), name@),
{
    if let Some(uuids) = p.pending_uuid_ids.take() {
        push_step(&mut p.out, CompatStep::LookupByUuid { ids: uuids, bind_to: to_owned_string(name) });
    }
}

/// What one step did: `Ok(false)` to go on, `Ok(true)` when the query's steps are complete.
spec fn step_done(old_st: QueryState, step: Json, name: Seq<char>, r: Result<bool, TranslateError>, p: Pending) -> bool {
    match query_step(old_st, step, name) {
        Ok(s2) => r == Ok::<bool, TranslateError>(false) && state_of(p) == s2,
        Err(QueryStop::Done(o)) => r == Ok::<bool, TranslateError>(true) && steps_view(p.out@) == o,
        Err(QueryStop::Fail(e)) => r == Err::<bool, TranslateError>(e),
    }
}

fn apply_source(p: &mut Pending, args: Result<Vec<ToolArgs>, TranslateError>, name: &str) -> (r: Result<bool, TranslateError>)
    requires
        pending_wf(*old(p)),
    ensures
        pending_wf(*final(p)),
        match source_branch(state_of(*old(p)), args_result(args), name@) {
            Ok(s2) => r == Ok::<bool, TranslateError>(false) && state_of(*final(p)) == s2,
            Err(QueryStop::Fail(e)) => r == Err::<bool, TranslateError>(e),
            Err(QueryStop::Done(o)) => false,
        },
{
    match args {
        Err(e) => Err(e),
        Ok(a) => {
            do_flush(p, name);
            do_flush_uuid(p, name);
            extend_args(&mut p.tool_args, a);
            Ok(false)
        },
    }
}

fn apply_move(p: &mut Pending, arg: ToolArgs, name: &str)
    requires
        pending_wf(*old(p)),
    ensures
        pending_wf(*final(p)),
        state_of(*final(p)) == move_branch(state_of(*old(p)), arg@, name@),
{
    do_flush_uuid(p, name);
    push_arg(&mut p.tool_args, arg);
}

fn hop(edge: &str, outgoing: bool) -> (a: ToolArgs)
    ensures
        a@ == hop_arg(edge@, outgoing),
{
    if outgoing {
        ToolArgs::OutStep { edge_label: to_owned_string(edge), edge_type: EdgeType::Node, filter: None }
    } else {
        ToolArgs::InStep { edge_label: to_owned_string(edge), edge_type: EdgeType::Node, filter: None }
    }
}

fn properties_of(obj: &Json) -> (r: Result<PropMap, TranslateError>)
    ensures
        map_result(r) == props_or_empty(*obj),
        r matches Ok(m) ==> m.wf(),
{
    match obj.get("properties") {
        Some(props) => parse_node_properties(props),
        None => Ok(PropMap::new()),
    }
}

fn apply_add_node(p: &mut Pending, add_n: &Json, name: &str) -> (r: Result<bool, TranslateError>)
    requires
        pending_wf(*old(p)),
    ensures
        pending_wf(*final(p)),
        match add_node_branch(state_of(*old(p)), *add_n, name@) {
            Err(QueryStop::Done(o)) => r == Ok::<bool, TranslateError>(true) && steps_view(final(p).out@) == o,
            Err(QueryStop::Fail(e)) => r == Err::<bool, TranslateError>(e),
            Ok(_) => false,
        },
{
    do_flush(p, name);
    do_lookup(p, name);
    let node_type = match add_n.get_str("label") {
        Some(l) => to_owned_string(l),
        None => {
            return Err(TranslateError::AddNMissingLabel);
        },
    };
    let fields = match properties_of(add_n) {
        Ok(m) => m,
        Err(e) => {
            return Err(e);
        },
    };
    push_step(&mut p.out, CompatStep::AddNode { node_type, fields, bind_to: to_owned_string(name) });
    Ok(true)
}

fn apply_add_edge(p: &mut Pending, add_e: &Json, name: &str) -> (r: Result<bool, TranslateError>)
    requires
        pending_wf(*old(p)),
    ensures
        pending_wf(*final(p)),
        match add_edge_branch(state_of(*old(p)), *add_e, name@) {
            Err(QueryStop::Done(o)) => r == Ok::<bool, TranslateError>(true) && steps_view(final(p).out@) == o,
            Err(QueryStop::Fail(e)) => r == Err::<bool, TranslateError>(e),
            Ok(_) => false,
        },
{
    let from_var = match p.seed_var.take() {
        Some(s) => s,
        None => {
            return Err(TranslateError::AddEWithoutInject);
        },
    };
    let to_var = match add_e.get("to") {
        Some(t) => match t.get_str("Var") {
            Some(v) => to_owned_string(v),
            None => {
                return Err(TranslateError::AddEMissingTarget);
            },
        },
        None => {
            return Err(TranslateError::AddEMissingTarget);
        },
    };
    let edge_type = owned_or_empty(add_e.get_str("label"));
    let fields = match properties_of(add_e) {
        Ok(m) => m,
        Err(e) => {
            return Err(e);
        },
    };
    push_step(
        &mut p.out,
        CompatStep::AddEdge { edge_type, from_var, to_var, fields, bind_to: to_owned_string(name) },
    );
    Ok(true)
}

fn apply_set_property(p: &mut Pending, sp: &Json) -> (r: Result<bool, TranslateError>)
    requires
        pending_wf(*old(p)),
    ensures
        pending_wf(*final(p)),
        match set_property_branch(state_of(*old(p)), *sp) {
            Ok(s2) => r == Ok::<bool, TranslateError>(false) && state_of(*final(p)) == s2,
            Err(QueryStop::Fail(e)) => r == Err::<bool, TranslateError>(e),
            Err(QueryStop::Done(_)) => false,
        },
{
    if let Some(arr) = sp.as_array() {
        if arr.len() == 2 {
            let key = owned_or_empty(arr[0].as_str());
            match parse_property_input(&arr[1]) {
                Ok(v) => {
                    p.pending_updates.insert(key, v);
                    p.has_updates = true;
                },
                Err(e) => {
                    return Err(e);
                },
            }
        }
    }
    Ok(false)
}

fn apply_drop(p: &mut Pending, name: &str)
    requires
        pending_wf(*old(p)),
    ensures
        pending_wf(*final(p)),
        drop_branch(state_of(*old(p)), name@) == Err::<QueryState, QueryStop>(
            QueryStop::Done(steps_view(final(p).out@)),
        ),
{
    do_flush_uuid(p, name);
    let sv = p.seed_var.take();
    let args = take_args(&mut p.tool_args);
    push_step(&mut p.out, CompatStep::DropNodes { seed_var: sv, tool_args: args });
}

fn apply_step(p: &mut Pending, step: &Json, name: &str) -> (r: Result<bool, TranslateError>)
    requires
        pending_wf(*old(p)),
    ensures
        pending_wf(*final(p)),
        step_done(state_of(*old(p)), *step, name@, r, *final(p)),
{
    if let Some(n) = step.get("N") {
        if let Some(ids_val) = n.get("Ids") {
            do_flush(p, name);
            return match parse_uuid_ids(ids_val) {
                Ok(ids) => {
                    p.pending_uuid_ids = Some(ids);
                    Ok(false)
                },
                Err(e) => Err(e),
            };
        }
    }
    if let Some(cond) = step.get("NWhere") {
        return apply_source(p, translate_nwhere(cond), name);
    }
    if let Some(cond) = step.get("EWhere") {
        return apply_source(p, translate_ewhere(cond), name);
    }
    if let Some(v) = step.get_str("Inject") {
        do_flush(p, name);
        do_lookup(p, name);
        p.seed_var = Some(to_owned_string(v));
        return Ok(false);
    }
    if let Some(edge) = step.get_str("Out") {
        apply_move(p, hop(edge, true), name);
        return Ok(false);
    }
    if let Some(edge) = step.get_str("In") {
        apply_move(p, hop(edge, false), name);
        return Ok(false);
    }
    if let Some(v) = step.get("OutN") {
        match v.as_str() {
            Some(edge) => apply_move(p, hop(edge, true), name),
            None => do_flush_uuid(p, name),
        }
        return Ok(false);
    }
    if let Some(v) = step.get("InN") {
        match v.as_str() {
            Some(edge) => apply_move(p, hop(edge, false), name),
            None => do_flush_uuid(p, name),
        }
        return Ok(false);
    }
    if let Some(cond) = step.get("Where") {
        return match translate_where_condition(cond) {
            Ok(a) => {
                apply_move(p, a, name);
                Ok(false)
            },
            Err(e) => Err(e),
        };
    }
    if let Some(add_n) = step.get("AddN") {
        return apply_add_node(p, add_n, name);
    }
    if let Some(add_e) = step.get("AddE") {
        return apply_add_edge(p, add_e, name);
    }
    if let Some(sp) = step.get("SetProperty") {
        return apply_set_property(p, sp);
    }
    if step.get("Drop").is_some() {
        apply_drop(p, name);
        return Ok(true);
    }
    if let Some(vs) = step.get("VectorSearchNodes") {
        return apply_source(p, translate_vector_search(vs), name);
    }
    if let Some(text) = step.as_str() {
        if str_eq(text, "Count") {
            p.pending_count = true;
            return Ok(false);
        }
    }
    if let Some(n_val) = step.get("Limit") {
        match n_val.as_u64() {
            Some(n) => apply_move(p, ToolArgs::Limit { n: n as usize }, name),
            None => do_flush_uuid(p, name),
        }
        return Ok(false);
    }
    Ok(false)
}

fn finish(p: Pending, name: &str) -> (v: Vec<CompatStep>)
    requires
        pending_wf(p),
    ensures
        steps_wf(v@),
        steps_view(v@) == finish_spec(state_of(p), name@),
{
    let mut p = p;
    let ghost st = state_of(p);
    if let Some(uuids) = p.pending_uuid_ids.take() {
        do_flush(&mut p, name);
        push_step(&mut p.out, CompatStep::LookupByUuid { ids: uuids, bind_to: to_owned_string(name) });
    } else if p.has_updates {
        let sv = p.seed_var.take();
        let args = take_args(&mut p.tool_args);
        let updates = p.pending_updates;
        p.pending_updates = PropMap::new();
        push_step(
            &mut p.out,
            CompatStep::UpdateProperties { seed_var: sv, tool_args: args, updates, bind_to: to_owned_string(name) },
        );
    } else if p.seed_var.is_some() || p.tool_args.len() > 0 {
        let sv = p.seed_var.take();
        let args = take_args(&mut p.tool_args);
        push_step(
            &mut p.out,
            CompatStep::Traverse { seed_var: sv, tool_args: args, bind_to: to_owned_string(name), count: p.pending_count },
        );
    }
    p.out
}

/// The content of a translation result.
pub open spec fn translation_result(r: Result<Vec<CompatStep>, CompatError>) -> Result<
    Seq<CompatStepV>,
    TranslateError,
> {
    match r {
        Ok(v) => Ok(steps_view(v@)),
        Err(CompatError::Translation(e)) => Err(e),
        Err(CompatError::Execution(_)) => Err(TranslateError::UnsupportedTypedValue),
    }
}

/// Translates the steps of the query `name` into the steps the storage layer executes.
///
/// Steps are read in order (see [`query_step`]); `AddN`, `AddE` and `Drop` end the query.
/// Any error is a translation error.
pub fn translate_named_query(name: &str, raw_steps: &[Json]) -> (r: Result<Vec<CompatStep>, CompatError>)
    ensures
        r matches Err(e) ==> e is Translation,
        translation_result(r) == translate_spec(name@, raw_steps@),
        r matches Ok(v) ==> steps_wf(v@),
{
    let mut p = Pending {
        out: Vec::new(),
        seed_var: None,
        tool_args: Vec::new(),
        pending_uuid_ids: None,
        pending_updates: PropMap::new(),
        has_updates: false,
        pending_count: false,
    };
    let ghost f = query_stepper(name@);
    assert(steps_view(p.out@) =~= Seq::<CompatStepV>::empty());
    assert(args_view(p.tool_args@) =~= Seq::<ToolArgsV>::empty());
    assert(state_of(p) == initial_state());
    let mut i: usize = 0;
    while i < raw_steps.len()
        invariant
            i <= raw_steps@.len(),
            f == query_stepper(name@),
            pending_wf(p),
            fold_steps(raw_steps@.take(i as int), initial_state(), f) == Ok::<QueryState, QueryStop>(
                state_of(p),
            ),
        decreases raw_steps@.len() - i,
    {
        proof {
            lemma_fold_next(raw_steps@, initial_state(), f, i as int);
        }
        let r = apply_step(&mut p, &raw_steps[i], name);
        match r {
            Err(e) => {
                proof {
                    lemma_fold_stops(raw_steps@, initial_state(), f, i + 1);
                }
                return Err(CompatError::Translation(e));
            },
            Ok(true) => {
                proof {
                    lemma_fold_stops(raw_steps@, initial_state(), f, i + 1);
                }
                return Ok(p.out);
            },
            Ok(false) => {},
        }
        i = i + 1;
    }
    proof {
        lemma_fold_all(raw_steps@, initial_state(), f);
    }
    Ok(finish(p, name))
}


// ─── requests ────────────────────────────────────────────────────────────────

/// Whether a request body asks for the writer: its `request_type` is `"write"`.
pub open spec fn is_write_spec(body: Json) -> bool {
    json_get_str(body, "request_type"@) == Some("write"@)
}

/// Whether a request body asks for the writer (`"request_type": "write"`); any other
/// body goes to a reader.
pub fn is_write_request(body: &Json) -> (r: bool)
    ensures
        r == is_write_spec(*body),
{
    match body.get_str("request_type") {
        Some(t) => str_eq(t, "write"),
        None => false,
    }
}

/// The handler a request is routed to.
pub fn compat_handler_name(is_write: bool) -> (r: &'static str)
    ensures
        is_write ==> r@ == "__v1_compat_write"@,
        !is_write ==> r@ == "__v1_compat_read"@,
{
    if is_write {
        "__v1_compat_write"
    } else {
        "__v1_compat_read"
    }
}

/// Why a request body was refused before any query ran.
#[derive(Debug, Clone, Copy, PartialEq, Eq, Structural)]
pub enum RequestError {
    MissingQuery,
    MissingQueries,
}

impl RequestError {
    /// A human-readable description of the error.
    pub fn message(&self) -> (r: &'static str)
        ensures
            *self == RequestError::MissingQuery ==> r@ == "v1_compat: missing 'query' field"@,
            *self == RequestError::MissingQueries ==> r@ == "v1_compat: missing 'queries' array"@,
    {
        match self {
            RequestError::MissingQuery => "v1_compat: missing 'query' field",
            RequestError::MissingQueries => "v1_compat: missing 'queries' array",
        }
    }
}

/// The texts among a list of JSON values, in order.
pub open spec fn texts_of(s: Seq<Json>) -> Seq<Seq<char>>
    decreases s.len(),
{
    if s.len() == 0 {
        Seq::empty()
    } else {
        match json_str(s.last()) {
            Some(t) => texts_of(s.drop_last()).push(t),
            None => texts_of(s.drop_last()),
        }
    }
}

/// The content of a list of strings.
pub open spec fn strings_view(v: Seq<String>) -> Seq<Seq<char>> {
    v.map_values(|s: String| s@)
}

/// The queries of a request body (`query.queries`) and the names whose results it asks
/// for (the strings of `query.returns`).
pub open spec fn request_parts_spec(body: Json) -> Result<(Seq<Json>, Seq<Seq<char>>), RequestError> {
    match json_get(body, "query"@) {
        None => Err(RequestError::MissingQuery),
        Some(q) => match json_get_arr(q, "queries"@) {
            None => Err(RequestError::MissingQueries),
            Some(queries) => Ok(
                (
                    queries,
                    match json_get_arr(q, "returns"@) {
                        Some(r) => texts_of(r),
                        None => Seq::empty(),
                    },
                ),
            ),
        },
    }
}

fn texts_in(a: &Vec<Json>) -> (r: Vec<String>)
    ensures
        strings_view(r@) == texts_of(a@),
{
    let mut out: Vec<String> = Vec::new();
    let mut i: usize = 0;
    while i < a.len()
        invariant
            i <= a@.len(),
            strings_view(out@) == texts_of(a@.take(i as int)),
        decreases a@.len() - i,
    {
        assert(a@.take(i + 1).drop_last() =~= a@.take(i as int));
        if let Some(t) = a[i].as_str() {
            let ghost before = out@;
            out.push(to_owned_string(t));
            assert(strings_view(out@) =~= strings_view(before).push(t@));
        }
        i = i + 1;
    }
    assert(a@.take(a@.len() as int) =~= a@);
    out
}

/// Splits a request body into its queries and the names whose results it asks for.
pub fn compat_request_parts(body: &Json) -> (r: Result<(&Vec<Json>, Vec<String>), RequestError>)
    ensures
        r matches Ok((q, names)) ==> request_parts_spec(*body) == Ok::<
            (Seq<Json>, Seq<Seq<char>>),
            RequestError,
        >((q@, strings_view(names@))),
        r matches Err(e) ==> request_parts_spec(*body) == Err::<
            (Seq<Json>, Seq<Seq<char>>),
            RequestError,
        >(e),
{
    let query = match body.get("query") {
        Some(q) => q,
        None => {
            return Err(RequestError::MissingQuery);
        },
    };
    let queries = match query.get_array("queries") {
        Some(a) => a,
        None => {
            return Err(RequestError::MissingQueries);
        },
    };
    let names = match query.get_array("returns") {
        Some(a) => texts_in(a),
        None => {
            let v: Vec<String> = Vec::new();
            assert(strings_view(v@) =~= Seq::<Seq<char>>::empty());
            v
        },
    };
    Ok((queries, names))
}

/// The name and steps of one entry of `queries`: `{"Query": {"name": ..., "steps": [...]}}`.
/// An entry without `Query` is skipped; the name defaults to `result` and the steps to none.
pub open spec fn named_query_spec(item: Json) -> Option<(Seq<char>, Seq<Json>)> {
    match json_get(item, "Query"@) {
        None => None,
        Some(body) => Some(
            (
                match json_get_str(body, "name"@) {
                    Some(n) => n,
                    None => "result"@,
                },
                match json_get_arr(body, "steps"@) {
                    Some(s) => s,
                    None => Seq::empty(),
                },
            ),
        ),
    }
}

/// The name and steps of one entry of `queries`; `None` for an entry to skip.
pub fn named_query(item: &Json) -> (r: Option<(String, Option<&Vec<Json>>)>)
    ensures
        r is Some <==> named_query_spec(*item) is Some,
        r matches Some((name, steps)) ==> named_query_spec(*item) == Some(
            (
                name@,
                match steps {
                    Some(v) => v@,
                    None => Seq::<Json>::empty(),
                },
            ),
        ),
{
    match item.get("Query") {
        None => None,
        Some(body) => {
            let name = match body.get_str("name") {
                Some(n) => to_owned_string(n),
                None => to_owned_string("result"),
            };
            Some((name, body.get_array("steps")))
        },
    }
}

// ─── results of the queries of a request ─────────────────────────────────────

/// The result of one named query: the items it reached (as JSON), or their number.
pub enum QueryResult {
    NodeList(Vec<Json>),
    Count(usize),
}

/// The items a traversal starts from: `None` when it has no seed (it starts from the
/// whole graph); otherwise the items bound to the seed name, none when it is unbound.
pub fn seeds_of<'a, T>(live: &'a NameMap<Vec<T>>, seed_var: &Option<String>) -> (r: Option<
    Option<&'a Vec<T>>,
>)
    requires
        live.wf(),
    ensures
        seed_var is None ==> r is None,
        seed_var matches Some(sv) ==> r matches Some(items) && (items is Some <==> live@.contains_key(
            sv@,
        )) && (items matches Some(v) ==> live@[sv@] == *v),
{
    match seed_var {
        None => None,
        Some(sv) => Some(live.get(sv.as_str())),
    }
}

/// The first item bound to a name.
pub open spec fn first_bound<T>(live: Map<Seq<char>, Vec<T>>, name: Seq<char>) -> Option<T> {
    if live.contains_key(name) && live[name]@.len() > 0 {
        Some(live[name]@[0])
    } else {
        None
    }
}

/// The message of an edge whose end is not bound: `AddEdge: <which> '<name>' not found`.
pub open spec fn endpoint_missing_message(which: Seq<char>, name: Seq<char>) -> Seq<char> {
    "AddEdge: "@ + which + " '"@ + name + "' not found"@
}

fn endpoint_missing(which: &str, name: &str) -> (e: CompatError)
    ensures
        e matches CompatError::Execution(m) && m@ == endpoint_missing_message(which@, name@),
{
    let mut m = String::new();
    crate::text::push_str(&mut m, "AddEdge: ");
    crate::text::push_str(&mut m, which);
    crate::text::push_str(&mut m, " '");
    crate::text::push_str(&mut m, name);
    crate::text::push_str(&mut m, "' not found");
    assert(Seq::<char>::empty() + "AddEdge: "@ =~= "AddEdge: "@);
    CompatError::Execution(m)
}

/// The two ends of a new edge: the first item bound to `from_var` and to `to_var`.
pub fn edge_endpoints<'a, T>(live: &'a NameMap<Vec<T>>, from_var: &str, to_var: &str) -> (r: Result<
    (&'a T, &'a T),
    CompatError,
>)
    requires
        live.wf(),
    ensures
        r matches Ok((a, b)) ==> first_bound(live@, from_var@) == Some(*a) && first_bound(
            live@,
            to_var@,
        ) == Some(*b),
        r matches Err(e) ==> {
            &&& e is Execution
            &&& first_bound(live@, from_var@) is None ==> e->Execution_0@ == endpoint_missing_message(
                "from_var"@,
                from_var@,
            )
            &&& first_bound(live@, from_var@) is Some ==> first_bound(live@, to_var@) is None
                && e->Execution_0@ == endpoint_missing_message("to_var"@, to_var@)
        },
{
    let from = match live.get(from_var) {
        Some(v) => if v.len() > 0 {
            &v[0]
        } else {
            return Err(endpoint_missing("from_var", from_var));
        },
        None => {
            return Err(endpoint_missing("from_var", from_var));
        },
    };
    let to = match live.get(to_var) {
        Some(v) => if v.len() > 0 {
            &v[0]
        } else {
            return Err(endpoint_missing("to_var", to_var));
        },
        None => {
            return Err(endpoint_missing("to_var", to_var));
        },
    };
    Ok((from, to))
}

/// Binds the items a step reached, and their JSON, to the step's name.
pub fn record_nodes<T>(
    live: &mut NameMap<Vec<T>>,
    results: &mut NameMap<QueryResult>,
    bind_to: String,
    items: Vec<T>,
    json: Vec<Json>,
)
    requires
        old(live).wf(),
        old(results).wf(),
    ensures
        final(live).wf(),
        final(results).wf(),
        final(live)@ == old(live)@.insert(bind_to@, items),
        final(results)@ == old(results)@.insert(bind_to@, QueryResult::NodeList(json)),
{
    live.insert(bind_to.clone(), items);
    results.insert(bind_to, QueryResult::NodeList(json));
}

/// Binds the number of items a counting step reached to the step's name; no items stay
/// bound for later steps to start from.
pub fn record_count<T>(
    live: &mut NameMap<Vec<T>>,
    results: &mut NameMap<QueryResult>,
    bind_to: String,
    n: usize,
)
    requires
        old(live).wf(),
        old(results).wf(),
    ensures
        final(live).wf(),
        final(results).wf(),
        final(live)@.dom() == old(live)@.dom().insert(bind_to@),
        final(live)@[bind_to@]@.len() == 0,
        forall|k: Seq<char>| k != bind_to@ && old(live)@.contains_key(k) ==> final(live)@[k] == old(live)@[k],
        final(results)@ == old(results)@.insert(bind_to@, QueryResult::Count(n)),
{
    live.insert(bind_to.clone(), Vec::new());
    results.insert(bind_to, QueryResult::Count(n));
}


/// The names of the fields of a new node that have a secondary index, in field order.
pub open spec fn indexed_field_names<T>(entries: Seq<(String, Value)>, indices: Map<Seq<char>, T>) -> Seq<
    Seq<char>,
>
    decreases entries.len(),
{
    if entries.len() == 0 {
        Seq::empty()
    } else {
        let rest = indexed_field_names(entries.drop_last(), indices);
        let k = entries.last().0@;
        if indices.contains_key(k) {
            rest.push(k)
        } else {
            rest
        }
    }
}

/// The secondary indices a new node's fields go into: the names of its fields that have
/// an index, in field order, or `None` when no field has one.
pub fn indexed_fields<T>(fields: &PropMap, indices: &NameMap<T>) -> (r: Option<Vec<String>>)
    requires
        indices.wf(),
    ensures
        r is None <==> indexed_field_names(fields.entries@, indices@).len() == 0,
        r matches Some(v) ==> v@.map_values(|s: String| s@) == indexed_field_names(
            fields.entries@,
            indices@,
        ),
{
    let mut out: Vec<String> = Vec::new();
    let mut i: usize = 0;
    while i < fields.entries.len()
        invariant
            indices.wf(),
            i <= fields.entries@.len(),
            out@.map_values(|s: String| s@) == indexed_field_names(
                fields.entries@.subrange(0, i as int),
                indices@,
            ),
        decreases fields.entries@.len() - i,
    {
        let ghost pre = fields.entries@.subrange(0, i as int);
        assert(fields.entries@.subrange(0, i + 1).drop_last() =~= pre);
        let key = &fields.entries[i].0;
        if indices.get(key.as_str()).is_some() {
            out.push(key.clone());
        }
        i = i + 1;
        assert(out@.map_values(|s: String| s@) =~= indexed_field_names(
            fields.entries@.subrange(0, i as int),
            indices@,
        ));
    }
    assert(fields.entries@.subrange(0, fields.entries@.len() as int) =~= fields.entries@);
    if out.len() == 0 {
        None
    } else {
        Some(out)
    }
}

} // verus!
