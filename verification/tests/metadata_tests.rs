use sparrow_db::metadata::{
    native_vector_endianness, MetadataError, MetadataKey, StorageMetadata, VectorEndianness,
    VECTOR_NATIVE_ENDIANNESS_TAG, WITH_SCHEMA_VERSION_TAG,
};

fn lookup<'a>(entries: &'a [(MetadataKey, Vec<u8>)], key: MetadataKey) -> Option<&'a [u8]> {
    entries.iter().find(|(k, _)| *k == key).map(|(_, v)| v.as_slice())
}

#[test]
fn missing_version_is_pre_metadata() {
    let m = StorageMetadata::parse(None, None, None).unwrap();
    assert!(matches!(m, StorageMetadata::PreMetadata));
    assert_eq!(m.schema_version(), "v1");
    assert_eq!(m.vector_endianness(), None);
}

#[test]
fn metadata_round_trips_through_entries() {
    let original = StorageMetadata::WithSchemaVersion {
        vector_endianness: VectorEndianness::LittleEndian,
        schema_version: "v7".to_string(),
    };
    let entries = original.entries();
    assert_eq!(entries.len(), 3);
    assert_eq!(MetadataKey::SchemaVersion.bytes(), "hql_schema_version");
    assert_eq!(lookup(&entries, MetadataKey::StorageVersion), Some(&WITH_SCHEMA_VERSION_TAG.to_le_bytes()[..]));
    assert_eq!(lookup(&entries, MetadataKey::VectorEndianness), Some(&b"lil"[..]));
    let back = StorageMetadata::parse(
        lookup(&entries, MetadataKey::StorageVersion),
        lookup(&entries, MetadataKey::VectorEndianness),
        lookup(&entries, MetadataKey::SchemaVersion),
    )
    .unwrap();
    assert_eq!(back.schema_version(), "v7");
    assert_eq!(back.vector_endianness(), Some(VectorEndianness::LittleEndian));

    let native = StorageMetadata::VectorNativeEndianness { vector_endianness: VectorEndianness::BigEndian };
    let entries = native.entries();
    assert_eq!(entries.len(), 2);
    let back = StorageMetadata::parse(
        lookup(&entries, MetadataKey::StorageVersion),
        lookup(&entries, MetadataKey::VectorEndianness),
        None,
    )
    .unwrap();
    assert!(matches!(back, StorageMetadata::VectorNativeEndianness { vector_endianness: VectorEndianness::BigEndian }));
}

#[test]
fn metadata_errors() {
    let tag = VECTOR_NATIVE_ENDIANNESS_TAG.to_le_bytes();
    assert_eq!(StorageMetadata::parse(Some(&[1, 2, 3]), None, None).unwrap_err(), MetadataError::VersionTagNotU64);
    assert_eq!(
        StorageMetadata::parse(Some(&9u64.to_le_bytes()), None, None).unwrap_err(),
        MetadataError::UnknownVersionTag(9)
    );
    assert_eq!(StorageMetadata::parse(Some(&tag), None, None).unwrap_err(), MetadataError::MissingEndianness);
    assert_eq!(StorageMetadata::parse(Some(&tag), Some(b"mid"), None).unwrap_err(), MetadataError::UnknownEndianness);
}

#[test]
fn schema_version_defaults_and_lossy_text() {
    let tag = WITH_SCHEMA_VERSION_TAG.to_le_bytes();
    let m = StorageMetadata::parse(Some(&tag), Some(b"big"), None).unwrap();
    assert_eq!(m.schema_version(), "v1");
    let m = StorageMetadata::parse(Some(&tag), Some(b"big"), Some(&[b'v', 0xff])).unwrap();
    assert_eq!(m.schema_version(), "v\u{fffd}");
}

#[test]
fn native_endianness_matches_target() {
    let expected = if 1u32.to_ne_bytes() == 1u32.to_le_bytes() { VectorEndianness::LittleEndian } else { VectorEndianness::BigEndian };
    assert_eq!(native_vector_endianness(), expected);
}

#[test]
fn endianness_choices() {
    assert_eq!(sparrow_db::metadata::endianness_for(true), VectorEndianness::LittleEndian);
    assert_eq!(sparrow_db::metadata::endianness_for(false), VectorEndianness::BigEndian);
    assert_eq!(sparrow_db::metadata::endianness_to_save(Some(VectorEndianness::BigEndian), VectorEndianness::LittleEndian), VectorEndianness::BigEndian);
    assert_eq!(sparrow_db::metadata::endianness_to_save(None, VectorEndianness::LittleEndian), VectorEndianness::LittleEndian);
}
