//! A JSON document as plain values.
use vstd::prelude::*;
use crate::text::str_eq;

verus! {

/// The ways a JSON number can be read.
///
/// `as_u64` holds the number when it is a non-negative integer that fits in `u64`,
/// `as_i64` when it is an integer that fits in `i64`, and `as_f64_bits` holds the
/// bit pattern of its nearest `f64`.
pub struct JsonNumber {
    pub as_u64: Option<u64>,
    pub as_i64: Option<i64>,
    pub as_f64_bits: Option<u64>,
}

/// A JSON value. Object members keep their order; a lookup finds the first member with a name.
pub enum Json {
    Null,
    Bool(bool),
    Number(JsonNumber),
    Str(String),
    Array(Vec<Json>),
    Object(Vec<(String, Json)>),
}

/// The first member of an object with the given name.
pub open spec fn obj_get(s: Seq<(String, Json)>, k: Seq<char>) -> Option<Json>
    decreases s.len(),
{
    if s.len() == 0 {
        None
    } else if s[0].0@ == k {
        Some(s[0].1)
    } else {
        obj_get(s.drop_first(), k)
    }
}

/// The member of an object with the given name; `None` for anything else than an object.
pub open spec fn json_get(j: Json, k: Seq<char>) -> Option<Json> {
    match j {
        Json::Object(m) => obj_get(m@, k),
        _ => None,
    }
}

/// The text of a JSON string.
pub open spec fn json_str(j: Json) -> Option<Seq<char>> {
    match j {
        Json::Str(s) => Some(s@),
        _ => None,
    }
}

/// The elements of a JSON array.
pub open spec fn json_arr(j: Json) -> Option<Seq<Json>> {
    match j {
        Json::Array(v) => Some(v@),
        _ => None,
    }
}

/// A JSON number read as `u64`.
pub open spec fn json_u64(j: Json) -> Option<u64> {
    match j {
        Json::Number(n) => n.as_u64,
        _ => None,
    }
}

/// A JSON number read as `i64`.
pub open spec fn json_i64(j: Json) -> Option<i64> {
    match j {
        Json::Number(n) => n.as_i64,
        _ => None,
    }
}

/// A JSON number read as `f64` (its bit pattern).
pub open spec fn json_f64_bits(j: Json) -> Option<u64> {
    match j {
        Json::Number(n) => n.as_f64_bits,
        _ => None,
    }
}

/// A JSON boolean.
pub open spec fn json_bool(j: Json) -> Option<bool> {
    match j {
        Json::Bool(b) => Some(b),
        _ => None,
    }
}

/// The string member `k` of an object.
pub open spec fn json_get_str(j: Json, k: Seq<char>) -> Option<Seq<char>> {
    match json_get(j, k) {
        Some(v) => json_str(v),
        None => None,
    }
}

/// The array member `k` of an object.
pub open spec fn json_get_arr(j: Json, k: Seq<char>) -> Option<Seq<Json>> {
    match json_get(j, k) {
        Some(v) => json_arr(v),
        None => None,
    }
}

proof fn lemma_obj_get_skip(s: Seq<(String, Json)>, k: Seq<char>, i: int)
    requires
        0 <= i < s.len(),
        forall|j: int| 0 <= j < i ==> s[j].0@ != k,
    ensures
        obj_get(s, k) == obj_get(s.skip(i), k),
    decreases i,
{
    if i > 0 {
        lemma_obj_get_skip(s.drop_first(), k, i - 1);
        assert(s.drop_first().skip(i - 1) =~= s.skip(i));
    } else {
        assert(s.skip(0) =~= s);
    }
}

proof fn lemma_obj_get_none(s: Seq<(String, Json)>, k: Seq<char>)
    requires
        forall|j: int| 0 <= j < s.len() ==> s[j].0@ != k,
    ensures
        obj_get(s, k) is None,
    decreases s.len(),
{
    if s.len() > 0 {
        lemma_obj_get_none(s.drop_first(), k);
    }
}

impl Json {
    /// The member `key` of an object (the first one with that name).
    pub fn get(&self, key: &str) -> (r: Option<&Json>)
        ensures
            r is Some <==> json_get(*self, key@) is Some,
            r matches Some(v) ==> json_get(*self, key@) == Some(*v),
    {
        match self {
            Json::Object(m) => {
                let mut i: usize = 0;
                while i < m.len()
                    invariant
                        json_get(*self, key@) == obj_get(m@, key@),
                        i <= m@.len(),
                        forall|j: int| 0 <= j < i ==> m@[j].0@ != key@,
                    decreases m@.len() - i,
                {
                    if str_eq(m[i].0.as_str(), key) {
                        proof {
                            lemma_obj_get_skip(m@, key@, i as int);
                            assert(m@.skip(i as int)[0] == m@[i as int]);
                        }
                        return Some(&m[i].1);
                    }
                    i = i + 1;
                }
                proof {
                    lemma_obj_get_none(m@, key@);
                }
                None
            },
            _ => None,
        }
    }

    /// The text of a string.
    pub fn as_str(&self) -> (r: Option<&str>)
        ensures
            r is Some <==> json_str(*self) is Some,
            r matches Some(s) ==> json_str(*self) == Some(s@),
    {
        match self {
            Json::Str(s) => Some(s.as_str()),
            _ => None,
        }
    }

    /// The elements of an array.
    pub fn as_array(&self) -> (r: Option<&Vec<Json>>)
        ensures
            r is Some <==> json_arr(*self) is Some,
            r matches Some(v) ==> json_arr(*self) == Some(v@),
    {
        match self {
            Json::Array(v) => Some(v),
            _ => None,
        }
    }

    /// A number read as `u64`.
    pub fn as_u64(&self) -> (r: Option<u64>)
        ensures
            r == json_u64(*self),
    {
        match self {
            Json::Number(n) => n.as_u64,
            _ => None,
        }
    }

    /// A number read as `i64`.
    pub fn as_i64(&self) -> (r: Option<i64>)
        ensures
            r == json_i64(*self),
    {
        match self {
            Json::Number(n) => n.as_i64,
            _ => None,
        }
    }

    /// A number read as `f64`, by its bit pattern.
    pub fn as_f64_bits(&self) -> (r: Option<u64>)
        ensures
            r == json_f64_bits(*self),
    {
        match self {
            Json::Number(n) => n.as_f64_bits,
            _ => None,
        }
    }

    /// A boolean.
    pub fn as_bool(&self) -> (r: Option<bool>)
        ensures
            r == json_bool(*self),
    {
        match self {
            Json::Bool(b) => Some(*b),
            _ => None,
        }
    }

    /// Whether this is `null`.
    pub fn is_null(&self) -> (r: bool)
        ensures
            r == (*self is Null),
    {
        match self {
            Json::Null => true,
            _ => false,
        }
    }

    /// The string member `key` of an object.
    pub fn get_str(&self, key: &str) -> (r: Option<&str>)
        ensures
            r is Some <==> json_get_str(*self, key@) is Some,
            r matches Some(s) ==> json_get_str(*self, key@) == Some(s@),
    {
        match self.get(key) {
            Some(v) => v.as_str(),
            None => None,
        }
    }

    /// The array member `key` of an object.
    pub fn get_array(&self, key: &str) -> (r: Option<&Vec<Json>>)
        ensures
            r is Some <==> json_get_arr(*self, key@) is Some,
            r matches Some(v) ==> json_get_arr(*self, key@) == Some(v@),
    {
        match self.get(key) {
            Some(v) => v.as_array(),
            None => None,
        }
    }
}


} // verus!
