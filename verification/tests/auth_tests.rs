use sparrow_db::auth::{
    admin_access, bytes_to_hex, check_token_format, create_token, find_token_by_id, hex_to_bytes, legacy_token,
    lookup_key, query_access, require_admin, token_from_bytes, token_hash, token_id, Role, SparrowError,
    TokenError, TokenRecord,
};

fn make_record(role: Role) -> TokenRecord {
    TokenRecord { id: "aabbccdd".to_string(), name: "test".to_string(), role, created_at: 0 }
}

#[test]
fn test_require_admin_passes_for_admin_role() {
    let record = make_record(Role::Admin);
    assert!(require_admin(&record).is_ok());
}

#[test]
fn test_require_admin_rejects_read_write_role() {
    let record = make_record(Role::ReadWrite);
    assert!(matches!(require_admin(&record), Err(SparrowError::Forbidden)));
}

#[test]
fn test_require_admin_rejects_read_only_role() {
    let record = make_record(Role::ReadOnly);
    assert!(matches!(require_admin(&record), Err(SparrowError::Forbidden)));
}

#[test]
fn hex_round_trip() {
    let bytes = vec![0u8, 1, 15, 16, 127, 128, 171, 255];
    let text = bytes_to_hex(&bytes);
    assert_eq!(text, "00010f107f80abff");
    assert_eq!(hex_to_bytes(&text).unwrap(), bytes);
}

#[test]
fn hex_rejects_odd_length_and_bad_digits() {
    assert!(matches!(hex_to_bytes("abc"), Err(TokenError::InvalidKey)));
    assert!(matches!(hex_to_bytes("zz"), Err(TokenError::InvalidKey)));
    assert_eq!(hex_to_bytes("").unwrap(), Vec::<u8>::new());
    assert_eq!(hex_to_bytes("AB").unwrap(), vec![0xab]);
    assert_eq!(hex_to_bytes("+a").unwrap(), vec![0x0a]);
}

#[test]
fn token_format_is_prefix_and_lowercase_hex() {
    assert!(check_token_format("sparrow_0123456789abcdef0123456789abcdef").is_ok());
    assert!(matches!(check_token_format("sparrow_0123"), Err(TokenError::InvalidKey)));
    assert!(matches!(
        check_token_format("sparrow_0123456789ABCDEF0123456789abcdef"),
        Err(TokenError::InvalidKey)
    ));
    // keys without the prefix are legacy keys: only looked up
    assert!(check_token_format("helix___0123456789abcdef0123456789abcdef").is_ok());
    assert_eq!(lookup_key("legacy").unwrap(), token_hash("legacy"));
}

#[test]
fn test_invalid_token_rejected() {
    // correct prefix, wrong length of the hex part
    let result = lookup_key("sparrow_bad_key");
    assert!(matches!(result, Err(TokenError::InvalidKey)));
}

#[test]
fn token_hash_is_sha256() {
    let h = token_hash("abc");
    assert_eq!(bytes_to_hex(&h), "ba7816bf8f01cfea414140de5dae2223b00361a396177a9cb410ff61f20015ad");
    assert_eq!(token_id(&h), "ba7816bf");
}

#[test]
fn token_from_bytes_is_prefixed_hex() {
    let t = token_from_bytes(&[0xde, 0xad, 0xbe, 0xef]);
    assert_eq!(t, "sparrow_deadbeef");
}

#[test]
fn created_tokens_are_well_formed_and_keyed_by_hash() {
    let t = create_token("ci", Role::ReadWrite);
    assert!(check_token_format(&t.raw_token).is_ok());
    assert_eq!(t.key, token_hash(&t.raw_token));
    assert_eq!(t.record.id, bytes_to_hex(&t.key[..4]));
    assert_eq!(t.record.name, "ci");
    assert_eq!(t.record.role, Role::ReadWrite);
    let other = create_token("ci", Role::ReadWrite);
    assert_ne!(t.raw_token, other.raw_token);
}

#[test]
fn test_legacy_sparrow_api_key_seeded_as_admin() {
    let t = legacy_token("my-legacy-secret-key");
    assert_eq!(t.raw_token, "my-legacy-secret-key");
    assert_eq!(t.record.role, Role::Admin);
    assert_eq!(t.record.name, "SPARROW_API_KEY");
    assert_eq!(t.key, token_hash("my-legacy-secret-key"));
}

#[test]
fn admin_access_decisions() {
    let open = admin_access(false, Err(TokenError::Unauthorized)).unwrap();
    assert_eq!(open.id, "bootstrap");
    assert_eq!(open.role, Role::Admin);
    assert!(matches!(admin_access(true, Err(TokenError::Unauthorized)), Err(SparrowError::InvalidApiKey)));
    assert!(matches!(admin_access(true, Ok(make_record(Role::ReadOnly))), Err(SparrowError::Forbidden)));
    assert_eq!(admin_access(true, Ok(make_record(Role::Admin))).unwrap().id, "aabbccdd");
}

#[test]
fn query_access_decisions() {
    assert!(query_access(false, Err(TokenError::Unauthorized), true).is_ok());
    assert!(matches!(query_access(true, Err(TokenError::InvalidKey), false), Err(SparrowError::InvalidApiKey)));
    assert!(query_access(true, Ok(Role::ReadOnly), false).is_ok());
    assert!(matches!(query_access(true, Ok(Role::ReadOnly), true), Err(SparrowError::Forbidden)));
    assert!(query_access(true, Ok(Role::ReadWrite), true).is_ok());
}

#[test]
fn find_token_by_id_finds_first() {
    let records = vec![make_record(Role::Admin), make_record(Role::ReadOnly)];
    assert_eq!(find_token_by_id(&records, "aabbccdd"), Some(0));
    assert_eq!(find_token_by_id(&records, "00000000"), None);
}

#[test]
fn token_error_messages() {
    assert_eq!(TokenError::Unauthorized.message(), "unauthorized");
    assert_eq!(TokenError::InvalidKey.message(), "invalid key");
    assert_eq!(TokenError::Forbidden.message(), "forbidden");
    assert_eq!(TokenError::Storage("disk full".to_string()).message(), "storage error: disk full");
    assert_eq!(TokenError::Io("denied".to_string()).message(), "io error: denied");
    assert_eq!(TokenError::Json("bad".to_string()).message(), "json error: bad");
}

#[test]
fn created_token_is_found_under_its_lookup_key() {
    let t = create_token("ci", Role::ReadOnly);
    assert!(t.raw_token.starts_with("sparrow_"));
    assert_eq!(t.raw_token.len(), 40);
    assert_eq!(lookup_key(&t.raw_token).ok(), Some(t.key.clone()));
}
