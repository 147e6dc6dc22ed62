use sparrow_db::json::Json;
use sparrow_db::vector_ops::{parse_vector_id, vector_id_from, vector_id_text, VectorIdError};

#[test]
fn vector_id_accepts_uuid_and_number() {
    assert_eq!(parse_vector_id("67e55044-10b1-426f-9247-bb680e5fe0c8"), Ok(0x67e5504410b1426f9247bb680e5fe0c8));
    assert_eq!(parse_vector_id("12345"), Ok(12345));
    // 32 hex digits are a UUID in simple form
    assert_eq!(parse_vector_id("00000000000000000000000000000010"), Ok(16));
    assert_eq!(parse_vector_id("not-an-id"), Err(VectorIdError::InvalidFormat));
    assert_eq!(VectorIdError::InvalidFormat.message(), "invalid ID format: must be UUID or u128");
}

#[test]
fn vector_id_from_parsed_uuid() {
    assert_eq!(vector_id_from("anything", Some(9)), Ok(9));
    assert_eq!(vector_id_from("42", None), Ok(42));
    assert_eq!(vector_id_from("4x", None), Err(VectorIdError::InvalidFormat));
}

#[test]
fn vector_id_text_from_body() {
    let body = Json::Object(vec![("id".to_string(), Json::Str("7".to_string()))]);
    assert_eq!(vector_id_text(Some(&body)), Ok("7".to_string()));
    assert_eq!(vector_id_text(None), Err(VectorIdError::Missing));
    let numeric = Json::Object(vec![("id".to_string(), Json::Null)]);
    assert_eq!(vector_id_text(Some(&numeric)), Err(VectorIdError::Missing));
    assert_eq!(VectorIdError::Missing.message(), "id is required");
}
