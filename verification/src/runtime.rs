//! The checks and conversions of the runtime query endpoint around lowering: the
//! submitted text, the JSON parameters, and their coercion to the declared types.
use vstd::prelude::*;
use crate::folds::{fold_list, lemma_list_next, lemma_list_stops, lemma_list_all};
use crate::hql::{FieldType, Parameter, Source};
use crate::json::{Json, json_str, json_i64, json_u64, json_f64_bits, json_bool};
use crate::text::{chars_of, to_owned_string};
use crate::value::{PropMap, Value, ValueV};
use crate::engine::DropItem;
use crate::names::NameMap;
use crate::text::{decimal, push_decimal, push_str};

verus! {

// ─── the submitted text ──────────────────────────────────────────────────────

/// Whether a character has the Unicode `White_Space` property (`char::is_whitespace`).
pub open spec fn is_white_space(c: char) -> bool {
    ('\u{9}' <= c && c <= '\u{d}') || c == ' ' || c == '\u{85}' || c == '\u{a0}' || c == '\u{1680}'
        || ('\u{2000}' <= c && c <= '\u{200a}') || c == '\u{2028}' || c == '\u{2029}' || c
        == '\u{202f}' || c == '\u{205f}' || c == '\u{3000}'
}

/// Whether a character has the Unicode `White_Space` property.
pub fn is_whitespace_char(c: char) -> (r: bool)
    ensures
        r == is_white_space(c),
{
    ('\u{9}' <= c && c <= '\u{d}') || c == ' ' || c == '\u{85}' || c == '\u{a0}' || c == '\u{1680}'
        || ('\u{2000}' <= c && c <= '\u{200a}') || c == '\u{2028}' || c == '\u{2029}' || c
        == '\u{202f}' || c == '\u{205f}' || c == '\u{3000}'
}

/// Whether `needle` occurs in `hay`.
pub open spec fn occurs_in(hay: Seq<char>, needle: Seq<char>) -> bool {
    exists|i: int| 0 <= i && i + needle.len() <= hay.len() && #[trigger] hay.subrange(i, i + needle.len()) == needle
}

/// Whether `needle` occurs in `hay`.
pub fn contains_text(hay: &str, needle: &str) -> (r: bool)
    ensures
        r == occurs_in(hay@, needle@),
{
    let h = chars_of(hay);
    let n = chars_of(needle);
    if n.len() > h.len() {
        proof {
            assert forall|i: int| 0 <= i && i + needle@.len() <= hay@.len() implies #[trigger] hay@.subrange(
                i,
                i + needle@.len(),
            ) != needle@ by {}
        }
        return false;
    }
    let last: usize = h.len() - n.len();
    let mut i: usize = 0;
    while i <= last
        invariant
            h@ == hay@,
            n@ == needle@,
            n@.len() <= h@.len(),
            last == h@.len() - n@.len(),
            h@.len() <= usize::MAX,
            i <= last + 1,
            forall|j: int| 0 <= j < i ==> #[trigger] hay@.subrange(j, j + needle@.len()) != needle@,
        decreases h@.len() - i,
    {
        let mut k: usize = 0;
        let mut same = true;
        while k < n.len()
            invariant
                h@ == hay@,
                n@ == needle@,
                i <= last,
                last == h@.len() - n@.len(),
                h@.len() <= usize::MAX,
                k <= n@.len(),
                same == (forall|m: int| 0 <= m < k ==> h@[i + m] == n@[m]),
            decreases n@.len() - k,
        {
            if h[i + k] != n[k] {
                same = false;
            }
            k = k + 1;
        }
        if same {
            assert(hay@.subrange(i as int, i + needle@.len()) =~= needle@);
            return true;
        }
        proof {
            let m = choose|m: int| 0 <= m < n@.len() && h@[i + m] != n@[m];
            assert(hay@.subrange(i as int, i + needle@.len())[m] != needle@[m]);
        }
        if i == last {
            return false;
        }
        i = i + 1;
    }
    false
}

/// Why a submitted query text was refused before parsing.
#[derive(Debug, Clone, Copy, PartialEq, Eq, Structural)]
pub enum QueryTextError {
    /// The text is empty or blank.
    NoQuery,
    /// The text holds no `QUERY ` definition.
    NoQueryDefinition,
}

/// Checks a submitted query text: it must not be blank, and must hold `QUERY `.
pub fn check_query_text(q: &str) -> (r: Result<(), QueryTextError>)
    ensures
        (forall|i: int| 0 <= i < q@.len() ==> is_white_space(#[trigger] q@[i])) ==> r == Err::<
            (),
            QueryTextError,
        >(QueryTextError::NoQuery),
        !(forall|i: int| 0 <= i < q@.len() ==> is_white_space(#[trigger] q@[i])) ==> (r is Ok
            <==> occurs_in(q@, "QUERY "@)),
        !(forall|i: int| 0 <= i < q@.len() ==> is_white_space(#[trigger] q@[i])) && r is Err ==> r
            == Err::<(), QueryTextError>(QueryTextError::NoQueryDefinition),
{
    let cs = chars_of(q);
    let mut blank = true;
    let mut i: usize = 0;
    while i < cs.len()
        invariant
            cs@ == q@,
            i <= cs@.len(),
            blank == (forall|j: int| 0 <= j < i ==> is_white_space(#[trigger] q@[j])),
        decreases cs@.len() - i,
    {
        if !is_whitespace_char(cs[i]) {
            blank = false;
        }
        i = i + 1;
    }
    if blank {
        return Err(QueryTextError::NoQuery);
    }
    if !contains_text(q, "QUERY ") {
        return Err(QueryTextError::NoQueryDefinition);
    }
    Ok(())
}

// ─── parameters ──────────────────────────────────────────────────────────────

/// The value of a JSON parameter: a string, an integer (`i64` first, then `u64`), a
/// float, or a boolean; `None` for anything else.
pub open spec fn json_param_spec(v: Json) -> Option<ValueV> {
    if json_str(v) is Some {
        Some(ValueV::String(json_str(v)->0))
    } else if json_i64(v) is Some {
        Some(ValueV::I64(json_i64(v)->0))
    } else if json_u64(v) is Some {
        Some(ValueV::U64(json_u64(v)->0))
    } else if json_f64_bits(v) is Some {
        Some(ValueV::F64Bits(json_f64_bits(v)->0))
    } else if json_bool(v) is Some {
        Some(ValueV::Boolean(json_bool(v)->0))
    } else {
        None
    }
}

/// Converts a JSON parameter into a value.
pub fn json_val_to_value(v: &Json) -> (r: Option<Value>)
    ensures
        r is Some <==> json_param_spec(*v) is Some,
        r matches Some(x) ==> json_param_spec(*v) == Some(x@),
{
    if let Some(s) = v.as_str() {
        return Some(Value::String(to_owned_string(s)));
    }
    if let Some(i) = v.as_i64() {
        return Some(Value::I64(i));
    }
    if let Some(u) = v.as_u64() {
        return Some(Value::U64(u));
    }
    if let Some(f) = v.as_f64_bits() {
        return Some(Value::F64Bits(f));
    }
    if let Some(b) = v.as_bool() {
        return Some(Value::Boolean(b));
    }
    None
}

/// Adds one member of the parameters object; a member that is no supported value
/// fails with its name.
pub open spec fn param_entry_step(m: Map<Seq<char>, ValueV>, entry: (String, Json)) -> Result<
    Map<Seq<char>, ValueV>,
    Seq<char>,
> {
    match json_param_spec(entry.1) {
        None => Err(entry.0@),
        Some(v) => Ok(m.insert(entry.0@, v)),
    }
}

/// [`param_entry_step`] as a function value.
pub open spec fn param_entry_stepper() -> spec_fn(Map<Seq<char>, ValueV>, (String, Json)) -> Result<
    Map<Seq<char>, ValueV>,
    Seq<char>,
> {
    |m: Map<Seq<char>, ValueV>, entry: (String, Json)| param_entry_step(m, entry)
}

/// The parameters of a request: the members of an object, in order (a later member
/// wins); none for anything else than an object. An error names the member that
/// could not be converted.
pub open spec fn params_spec(params: Json) -> Result<Map<Seq<char>, ValueV>, Seq<char>> {
    match params {
        Json::Object(members) => fold_list(members@, Map::empty(), param_entry_stepper()),
        _ => Ok(Map::empty()),
    }
}

/// Converts the parameters object of a request; an error holds the name of the
/// parameter that is no supported value.
pub fn parse_params(params: &Json) -> (r: Result<PropMap, String>)
    ensures
        r matches Ok(m) ==> m.wf() && params_spec(*params) == Ok::<Map<Seq<char>, ValueV>, Seq<char>>(m@),
        r matches Err(k) ==> params_spec(*params) == Err::<Map<Seq<char>, ValueV>, Seq<char>>(k@),
{
    let mut out = PropMap::new();
    if let Json::Object(members) = params {
        let ghost step = param_entry_stepper();
        let mut i: usize = 0;
        while i < members.len()
            invariant
                i <= members@.len(),
                *params == Json::Object(*members),
                out.wf(),
                step == param_entry_stepper(),
                fold_list(members@.take(i as int), Map::empty(), step) == Ok::<
                    Map<Seq<char>, ValueV>,
                    Seq<char>,
                >(out@),
            decreases members@.len() - i,
        {
            proof {
                lemma_list_next(members@, Map::empty(), step, i as int);
            }
            match json_val_to_value(&members[i].1) {
                Some(v) => {
                    out.insert(members[i].0.clone(), v);
                },
                None => {
                    proof {
                        lemma_list_stops(members@, Map::empty(), step, i + 1);
                    }
                    return Err(members[i].0.clone());
                },
            }
            i = i + 1;
        }
        proof {
            lemma_list_all(members@, Map::empty(), step);
        }
    }
    Ok(out)
}

// ─── coercion to declared types ──────────────────────────────────────────────

/// A JSON integer given for a parameter declared `I8`, `I16` or `I32` is stored as an
/// `I32` (wrapping), and one declared `U32` or `U64` as a `U64` (wrapping); other
/// values are kept.
pub open spec fn coerce_spec(v: ValueV, ft: FieldType) -> ValueV {
    match v {
        ValueV::I64(n) => match ft {
            FieldType::I32 | FieldType::I8 | FieldType::I16 => ValueV::I32(n as i32),
            FieldType::U32 | FieldType::U64 => ValueV::U64(n as u64),
            _ => v,
        },
        _ => v,
    }
}

/// Coerces a parameter value to the type it was declared with.
pub fn coerce_value(val: &mut Value, field_type: FieldType)
    ensures
        final(val)@ == coerce_spec(old(val)@, field_type),
{
    match *val {
        Value::I64(n) => match field_type {
            FieldType::I32 | FieldType::I8 | FieldType::I16 => {
                *val = Value::I32(n as i32);
            },
            FieldType::U32 | FieldType::U64 => {
                *val = Value::U64(n as u64);
            },
            _ => {},
        },
        _ => {},
    }
}

/// Coerces the value of one declared parameter, if it was given.
pub open spec fn coerce_param_step(m: Map<Seq<char>, ValueV>, p: Parameter) -> Map<Seq<char>, ValueV> {
    if m.contains_key(p.name@) {
        m.insert(p.name@, coerce_spec(m[p.name@], p.param_type))
    } else {
        m
    }
}

/// The parameters after coercing, in order, each declared parameter of a list.
pub open spec fn coerce_params_spec(m: Map<Seq<char>, ValueV>, ps: Seq<Parameter>) -> Map<Seq<char>, ValueV>
    decreases ps.len(),
{
    if ps.len() == 0 {
        m
    } else {
        coerce_param_step(coerce_params_spec(m, ps.drop_last()), ps.last())
    }
}

/// Coerces the given parameters to the types that the last query of the source declares.
pub fn coerce_params_to_schema(params: &mut PropMap, source: &Source)
    requires
        old(params).wf(),
    ensures
        final(params).wf(),
        source.queries@.len() == 0 ==> final(params)@ == old(params)@,
        source.queries@.len() > 0 ==> final(params)@ == coerce_params_spec(
            old(params)@,
            source.queries@.last().parameters@,
        ),
{
    if source.queries.len() == 0 {
        return;
    }
    let q = &source.queries[source.queries.len() - 1];
    let mut i: usize = 0;
    while i < q.parameters.len()
        invariant
            i <= q.parameters@.len(),
            *q == source.queries@.last(),
            params.wf(),
            params@ == coerce_params_spec(old(params)@, q.parameters@.take(i as int)),
        decreases q.parameters@.len() - i,
    {
        assert(q.parameters@.take(i + 1).drop_last() =~= q.parameters@.take(i as int));
        let p = &q.parameters[i];
        let current = match params.get(p.name.as_str()) {
            Some(v) => Some(v.duplicate()),
            None => None,
        };
        if let Some(v) = current {
            let mut v = v;
            coerce_value(&mut v, p.param_type);
            params.insert(p.name.clone(), v);
        }
        i = i + 1;
    }
    assert(q.parameters@.take(q.parameters@.len() as int) =~= q.parameters@);
}


// ─── ends of a new edge ──────────────────────────────────────────────────────

/// The message of a lowering error about an end of a new edge: `side` is `From` or `To`.
pub open spec fn edge_end_spec(live: Map<Seq<char>, Vec<DropItem>>, var: Seq<char>, side: Seq<char>) -> Result<
    u128,
    Seq<char>,
> {
    if !live.contains_key(var) {
        Err("variable '"@ + var + "' not found"@)
    } else if live[var]@.len() != 1 {
        Err(
            "AddEdge "@ + side + " variable '"@ + var + "' must contain exactly one node, got "@
                + decimal(live[var]@.len()),
        )
    } else {
        match live[var]@[0] {
            DropItem::Node { id, .. } => Ok(id),
            _ => Err("AddEdge "@ + side + " variable '"@ + var + "' does not contain a node"@),
        }
    }
}

fn quoted_message(head: &str, var: &str, tail: &str) -> (m: String)
    ensures
        m@ == head@ + var@ + tail@,
{
    let mut m = to_owned_string(head);
    push_str(&mut m, var);
    push_str(&mut m, tail);
    m
}

/// The id of the node bound to `var`, an end (`side`, `From` or `To`) of an edge that a
/// mutation adds; the variable must hold exactly one item, and that item a node.
pub fn edge_end(live: &NameMap<Vec<DropItem>>, var: &str, side: &str) -> (r: Result<u128, String>)
    requires
        live.wf(),
    ensures
        r matches Ok(id) ==> edge_end_spec(live@, var@, side@) == Ok::<u128, Seq<char>>(id),
        r matches Err(m) ==> edge_end_spec(live@, var@, side@) == Err::<u128, Seq<char>>(m@),
{
    match live.get(var) {
        None => Err(quoted_message("variable '", var, "' not found")),
        Some(items) => {
            let mut head = to_owned_string("AddEdge ");
            push_str(&mut head, side);
            push_str(&mut head, " variable '");
            if items.len() != 1 {
                let mut m = quoted_message(head.as_str(), var, "' must contain exactly one node, got ");
                push_decimal(&mut m, items.len() as u128);
                Err(m)
            } else {
                match &items[0] {
                    DropItem::Node { id, .. } => Ok(*id),
                    _ => Err(quoted_message(head.as_str(), var, "' does not contain a node")),
                }
            }
        },
    }
}

} // verus!
