//! The id handling of the vector deletion endpoints: which vector a request names.
use vstd::prelude::*;
use crate::compat::{parse_uuid_str, uuid_parse};
use crate::json::{Json, json_get_str};
use crate::text::{parse_u128, parse_unsigned, to_owned_string};

verus! {

/// Why a vector deletion request names no vector.
#[derive(Debug, Clone, Copy, PartialEq, Eq, Structural)]
pub enum VectorIdError {
    /// The body holds no `id` text.
    Missing,
    /// The id is neither a UUID nor a 128-bit number.
    InvalidFormat,
}

impl VectorIdError {
    /// The message answered for the error.
    pub fn message(&self) -> (r: &'static str)
        ensures
            *self == VectorIdError::Missing ==> r@ == "id is required"@,
            *self == VectorIdError::InvalidFormat ==> r@ == "invalid ID format: must be UUID or u128"@,
    {
        match self {
            VectorIdError::Missing => "id is required",
            VectorIdError::InvalidFormat => "invalid ID format: must be UUID or u128",
        }
    }
}

/// The id text of a request body (`None` for an empty or unreadable body).
pub open spec fn id_text_spec(body: Option<Json>) -> Result<Seq<char>, VectorIdError> {
    match body {
        None => Err(VectorIdError::Missing),
        Some(b) => match json_get_str(b, "id"@) {
            Some(t) => Ok(t),
            None => Err(VectorIdError::Missing),
        },
    }
}

/// The `id` text of a request body: `{"id": "<uuid or number>"}`.
pub fn vector_id_text(body: Option<&Json>) -> (r: Result<String, VectorIdError>)
    ensures
        match r {
            Ok(t) => id_text_spec(match body {
                Some(b) => Some(*b),
                None => None,
            }) == Ok::<Seq<char>, VectorIdError>(t@),
            Err(e) => id_text_spec(match body {
                Some(b) => Some(*b),
                None => None,
            }) == Err::<Seq<char>, VectorIdError>(e),
        },
{
    match body {
        None => Err(VectorIdError::Missing),
        Some(b) => match b.get_str("id") {
            Some(t) => Ok(to_owned_string(t)),
            None => Err(VectorIdError::Missing),
        },
    }
}

/// The vector an id text names, given what the UUID parser made of it: the UUID when
/// the text is one, else the text read as a 128-bit number.
pub open spec fn vector_id_spec(uuid: Option<u128>, text: Seq<char>) -> Result<u128, VectorIdError> {
    match uuid {
        Some(u) => Ok(u),
        None => match parse_unsigned(text, u128::MAX as nat) {
            Some(n) => Ok(n as u128),
            None => Err(VectorIdError::InvalidFormat),
        },
    }
}

/// Reads an id text, given the result of parsing it as a UUID.
pub fn vector_id_from(text: &str, uuid: Option<u128>) -> (r: Result<u128, VectorIdError>)
    ensures
        r == vector_id_spec(uuid, text@),
{
    match uuid {
        Some(u) => Ok(u),
        None => match parse_u128(text) {
            Some(n) => Ok(n),
            None => Err(VectorIdError::InvalidFormat),
        },
    }
}

/// The vector an id text names: a UUID (`uuid::Uuid::parse_str`), else a 128-bit number.
pub fn parse_vector_id(text: &str) -> (r: Result<u128, VectorIdError>)
    ensures
        r == vector_id_spec(uuid_parse(text@), text@),
{
    vector_id_from(text, parse_uuid_str(text))
}

} // verus!
