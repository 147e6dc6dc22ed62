//! The storage metadata: which storage format the data is in, the byte order of stored
//! vectors, and the schema version; and how they are kept as key/value entries.
use vstd::prelude::*;
use vstd::bytes::{spec_u64_from_le_bytes, spec_u64_to_le_bytes, u64_from_le_bytes, u64_to_le_bytes};
use vstd::utf8::{decode_utf8, encode_utf8, valid_utf8};

verus! {

/// The byte order of the vectors stored by a database.
#[derive(Debug, Clone, Copy, PartialEq, Eq, Structural)]
pub enum VectorEndianness {
    BigEndian,
    LittleEndian,
}

/// `u16::from_ne_bytes`: the number two bytes make in this machine's byte order.
/// Nothing is stated: it depends on the machine.
#[verifier::external_body]
fn u16_from_native_bytes(first: u8, second: u8) -> (r: u16) {
    u16::from_ne_bytes([first, second])
}

/// The byte order a machine stores vectors in, given whether it is little-endian.
pub open spec fn endianness_for_spec(little: bool) -> VectorEndianness {
    if little {
        VectorEndianness::LittleEndian
    } else {
        VectorEndianness::BigEndian
    }
}

/// The byte order a machine stores vectors in, given whether it is little-endian.
pub fn endianness_for(little: bool) -> (r: VectorEndianness)
    ensures
        r == endianness_for_spec(little),
{
    if little {
        VectorEndianness::LittleEndian
    } else {
        VectorEndianness::BigEndian
    }
}

/// The byte order of this machine: little-endian when the bytes 1, 0 make the number 1,
/// as `endianness_for` maps it. Which order that is depends on the machine and is not
/// stated.
pub fn native_vector_endianness() -> (r: VectorEndianness) {
    endianness_for(u16_from_native_bytes(1, 0) == 1)
}

/// The byte order recorded when the schema version is saved: the one the stored
/// metadata already records, else this machine's.
pub fn endianness_to_save(previous: Option<VectorEndianness>, native: VectorEndianness) -> (r: VectorEndianness)
    ensures
        r == match previous {
            Some(e) => e,
            None => native,
        },
{
    match previous {
        Some(e) => e,
        None => native,
    }
}

/// The storage format of a database, with the metadata each format keeps.
#[derive(Debug)]
pub enum StorageMetadata {
    /// Data stored before the metadata table existed.
    PreMetadata,
    /// Vectors are stored in the byte order given.
    VectorNativeEndianness { vector_endianness: VectorEndianness },
    /// As the previous format, and the schema version is recorded.
    WithSchemaVersion { vector_endianness: VectorEndianness, schema_version: String },
}

/// The content of a [`StorageMetadata`].
pub enum StorageMetadataV {
    PreMetadata,
    VectorNativeEndianness { vector_endianness: VectorEndianness },
    WithSchemaVersion { vector_endianness: VectorEndianness, schema_version: Seq<char> },
}

impl View for StorageMetadata {
    type V = StorageMetadataV;

    open spec fn view(&self) -> StorageMetadataV {
        match self {
            StorageMetadata::PreMetadata => StorageMetadataV::PreMetadata,
            StorageMetadata::VectorNativeEndianness { vector_endianness } =>
                StorageMetadataV::VectorNativeEndianness { vector_endianness: *vector_endianness },
            StorageMetadata::WithSchemaVersion { vector_endianness, schema_version } =>
                StorageMetadataV::WithSchemaVersion {
                vector_endianness: *vector_endianness,
                schema_version: schema_version@,
            },
        }
    }
}

/// The storage format tag of [`StorageMetadata::VectorNativeEndianness`].
pub const VECTOR_NATIVE_ENDIANNESS_TAG: u64 = 1;

/// The storage format tag of [`StorageMetadata::WithSchemaVersion`].
pub const WITH_SCHEMA_VERSION_TAG: u64 = 2;

/// The metadata entries, by key.
#[derive(Debug, Clone, Copy, PartialEq, Eq, Structural)]
pub enum MetadataKey {
    /// `storage_version`: the format tag, a little-endian `u64`.
    StorageVersion,
    /// `vector_endianness`: `big` or `lil`.
    VectorEndianness,
    /// `hql_schema_version`: the schema version, in UTF-8.
    SchemaVersion,
}

impl MetadataKey {
    /// The bytes of the key in the metadata table.
    pub fn bytes(&self) -> (r: &'static str)
        ensures
            *self == MetadataKey::StorageVersion ==> r@ == "storage_version"@,
            *self == MetadataKey::VectorEndianness ==> r@ == "vector_endianness"@,
            *self == MetadataKey::SchemaVersion ==> r@ == "hql_schema_version"@,
    {
        match self {
            MetadataKey::StorageVersion => "storage_version",
            MetadataKey::VectorEndianness => "vector_endianness",
            MetadataKey::SchemaVersion => "hql_schema_version",
        }
    }
}

/// Why stored metadata could not be read.
#[derive(Debug, Clone, Copy, PartialEq, Eq, Structural)]
pub enum MetadataError {
    /// The format tag is not eight bytes long.
    VersionTagNotU64,
    /// The format tag is none of the known ones.
    UnknownVersionTag(u64),
    /// The format needs a vector byte order and none is stored.
    MissingEndianness,
    /// The stored vector byte order is neither `big` nor `lil`.
    UnknownEndianness,
}

/// The stored form of a byte order: `big` or `lil`.
pub open spec fn endianness_bytes(e: VectorEndianness) -> Seq<u8> {
    match e {
        VectorEndianness::BigEndian => seq![98u8, 105u8, 103u8],
        VectorEndianness::LittleEndian => seq![108u8, 105u8, 108u8],
    }
}

/// The byte order stored as `b` (`None` when nothing is stored).
pub open spec fn decode_endianness(b: Option<Seq<u8>>) -> Result<VectorEndianness, MetadataError> {
    match b {
        None => Err(MetadataError::MissingEndianness),
        Some(x) => if x == endianness_bytes(VectorEndianness::BigEndian) {
            Ok(VectorEndianness::BigEndian)
        } else if x == endianness_bytes(VectorEndianness::LittleEndian) {
            Ok(VectorEndianness::LittleEndian)
        } else {
            Err(MetadataError::UnknownEndianness)
        },
    }
}

/// What `String::from_utf8_lossy` makes of a byte sequence.
pub uninterp spec fn utf8_lossy(b: Seq<u8>) -> Seq<char>;

/// `String::from_utf8_lossy`: the text of UTF-8 bytes, with each invalid sequence
/// replaced by U+FFFD. Stated: the result is named by [`utf8_lossy`], and valid UTF-8 is
/// decoded exactly; the replacement of invalid sequences is not stated.
#[verifier::external_body]
fn string_from_utf8_lossy(b: &[u8]) -> (r: String)
    ensures
        r@ == utf8_lossy(b@),
        valid_utf8(b@) ==> r@ == decode_utf8(b@),
{
    String::from_utf8_lossy(b).into_owned()
}

/// The text of stored bytes: valid UTF-8 decoded exactly, anything else as
/// `String::from_utf8_lossy` makes it.
pub open spec fn lossy_text(b: Seq<u8>) -> Seq<char> {
    if valid_utf8(b) {
        decode_utf8(b)
    } else {
        utf8_lossy(b)
    }
}

/// The metadata stored in the three entries (each `None` when absent): none at all
/// means data from before the metadata table; format 1 needs a byte order; format 2
/// needs a byte order and reads the schema version (`v1` when absent).
pub open spec fn decode_spec(version: Option<Seq<u8>>, endianness: Option<Seq<u8>>, schema: Option<Seq<u8>>) -> Result<
    StorageMetadataV,
    MetadataError,
> {
    match version {
        None => Ok(StorageMetadataV::PreMetadata),
        Some(v) => if v.len() != 8 {
            Err(MetadataError::VersionTagNotU64)
        } else if spec_u64_from_le_bytes(v) == VECTOR_NATIVE_ENDIANNESS_TAG {
            match decode_endianness(endianness) {
                Err(e) => Err(e),
                Ok(e) => Ok(StorageMetadataV::VectorNativeEndianness { vector_endianness: e }),
            }
        } else if spec_u64_from_le_bytes(v) == WITH_SCHEMA_VERSION_TAG {
            match decode_endianness(endianness) {
                Err(e) => Err(e),
                Ok(e) => Ok(
                    StorageMetadataV::WithSchemaVersion {
                        vector_endianness: e,
                        schema_version: match schema {
                            Some(s) => lossy_text(s),
                            None => "v1"@,
                        },
                    },
                ),
            }
        } else {
            Err(MetadataError::UnknownVersionTag(spec_u64_from_le_bytes(v)))
        },
    }
}

/// The content of an optional byte slice.
pub open spec fn opt_bytes(b: Option<&[u8]>) -> Option<Seq<u8>> {
    match b {
        Some(x) => Some(x@),
        None => None,
    }
}

fn read_endianness(b: Option<&[u8]>) -> (r: Result<VectorEndianness, MetadataError>)
    ensures
        r == decode_endianness(opt_bytes(b)),
{
    match b {
        None => Err(MetadataError::MissingEndianness),
        Some(x) => {
            if x.len() == 3 && x[0] == 98u8 && x[1] == 105u8 && x[2] == 103u8 {
                assert(x@ =~= endianness_bytes(VectorEndianness::BigEndian));
                Ok(VectorEndianness::BigEndian)
            } else if x.len() == 3 && x[0] == 108u8 && x[1] == 105u8 && x[2] == 108u8 {
                assert(x@ =~= endianness_bytes(VectorEndianness::LittleEndian));
                Ok(VectorEndianness::LittleEndian)
            } else {
                assert(x@ != endianness_bytes(VectorEndianness::BigEndian));
                assert(x@ != endianness_bytes(VectorEndianness::LittleEndian));
                Err(MetadataError::UnknownEndianness)
            }
        },
    }
}

/// The content of a metadata result.
pub open spec fn metadata_res(r: Result<StorageMetadata, MetadataError>) -> Result<StorageMetadataV, MetadataError> {
    match r {
        Ok(m) => Ok(m@),
        Err(e) => Err(e),
    }
}

impl StorageMetadata {
    /// Reads the metadata from the stored entries (see [`decode_spec`]).
    pub fn parse(version: Option<&[u8]>, endianness: Option<&[u8]>, schema: Option<&[u8]>) -> (r: Result<
        StorageMetadata,
        MetadataError,
    >)
        ensures
            metadata_res(r) == decode_spec(opt_bytes(version), opt_bytes(endianness), opt_bytes(schema)),
    {
        match version {
            None => Ok(StorageMetadata::PreMetadata),
            Some(v) => {
                if v.len() != 8 {
                    return Err(MetadataError::VersionTagNotU64);
                }
                let tag = u64_from_le_bytes(v);
                if tag == VECTOR_NATIVE_ENDIANNESS_TAG {
                    match read_endianness(endianness) {
                        Ok(e) => Ok(StorageMetadata::VectorNativeEndianness { vector_endianness: e }),
                        Err(e) => Err(e),
                    }
                } else if tag == WITH_SCHEMA_VERSION_TAG {
                    match read_endianness(endianness) {
                        Ok(e) => {
                            let schema_version = match schema {
                                Some(s) => string_from_utf8_lossy(s),
                                None => crate::text::to_owned_string("v1"),
                            };
                            Ok(StorageMetadata::WithSchemaVersion { vector_endianness: e, schema_version })
                        },
                        Err(e) => Err(e),
                    }
                } else {
                    Err(MetadataError::UnknownVersionTag(tag))
                }
            },
        }
    }

    /// The schema version: `v1` for the formats that do not record one.
    pub fn schema_version(&self) -> (r: &str)
        ensures
            *self is WithSchemaVersion ==> r@ == self->schema_version@,
            !(*self is WithSchemaVersion) ==> r@ == "v1"@,
    {
        match self {
            StorageMetadata::PreMetadata => "v1",
            StorageMetadata::VectorNativeEndianness { .. } => "v1",
            StorageMetadata::WithSchemaVersion { schema_version, .. } => schema_version.as_str(),
        }
    }

    /// The byte order of stored vectors, when the format records one.
    pub fn vector_endianness(&self) -> (r: Option<VectorEndianness>)
        ensures
            r == (match self@ {
                StorageMetadataV::PreMetadata => None,
                StorageMetadataV::VectorNativeEndianness { vector_endianness } => Some(vector_endianness),
                StorageMetadataV::WithSchemaVersion { vector_endianness, .. } => Some(vector_endianness),
            }),
    {
        match self {
            StorageMetadata::PreMetadata => None,
            StorageMetadata::VectorNativeEndianness { vector_endianness } => Some(*vector_endianness),
            StorageMetadata::WithSchemaVersion { vector_endianness, .. } => Some(*vector_endianness),
        }
    }
}

/// The entries that store some metadata: the format tag, the byte order and, for
/// format 2, the schema version in UTF-8.
pub open spec fn encode_spec(m: StorageMetadataV) -> Seq<(MetadataKey, Seq<u8>)> {
    match m {
        StorageMetadataV::PreMetadata => Seq::empty(),
        StorageMetadataV::VectorNativeEndianness { vector_endianness } => seq![
            (MetadataKey::StorageVersion, spec_u64_to_le_bytes(VECTOR_NATIVE_ENDIANNESS_TAG)),
            (MetadataKey::VectorEndianness, endianness_bytes(vector_endianness)),
        ],
        StorageMetadataV::WithSchemaVersion { vector_endianness, schema_version } => seq![
            (MetadataKey::StorageVersion, spec_u64_to_le_bytes(WITH_SCHEMA_VERSION_TAG)),
            (MetadataKey::VectorEndianness, endianness_bytes(vector_endianness)),
            (MetadataKey::SchemaVersion, encode_utf8(schema_version)),
        ],
    }
}

/// The content of a list of entries.
pub open spec fn entries_view(v: Seq<(MetadataKey, Vec<u8>)>) -> Seq<(MetadataKey, Seq<u8>)> {
    v.map_values(|e: (MetadataKey, Vec<u8>)| (e.0, e.1@))
}

fn endianness_vec(e: VectorEndianness) -> (r: Vec<u8>)
    ensures
        r@ == endianness_bytes(e),
{
    let r = match e {
        VectorEndianness::BigEndian => vec![98u8, 105u8, 103u8],
        VectorEndianness::LittleEndian => vec![108u8, 105u8, 108u8],
    };
    assert(r@ =~= endianness_bytes(e));
    r
}

fn utf8_vec(s: &str) -> (r: Vec<u8>)
    ensures
        r@ == encode_utf8(s@),
{
    let b = s.as_bytes();
    let mut out: Vec<u8> = Vec::new();
    let mut i: usize = 0;
    while i < b.len()
        invariant
            i <= b@.len(),
            b@ == encode_utf8(s@),
            out@ == b@.take(i as int),
        decreases b@.len() - i,
    {
        out.push(b[i]);
        assert(out@ =~= b@.take(i + 1));
        i = i + 1;
    }
    assert(b@.take(b@.len() as int) =~= b@);
    out
}

impl StorageMetadata {
    /// The entries to store for this metadata. The format before the metadata table
    /// cannot be stored.
    pub fn entries(&self) -> (r: Vec<(MetadataKey, Vec<u8>)>)
        requires
            !(*self is PreMetadata),
        ensures
            entries_view(r@) == encode_spec(self@),
    {
        let mut out: Vec<(MetadataKey, Vec<u8>)> = Vec::new();
        match self {
            StorageMetadata::PreMetadata => {},
            StorageMetadata::VectorNativeEndianness { vector_endianness } => {
                out.push((MetadataKey::StorageVersion, u64_to_le_bytes(VECTOR_NATIVE_ENDIANNESS_TAG)));
                out.push((MetadataKey::VectorEndianness, endianness_vec(*vector_endianness)));
            },
            StorageMetadata::WithSchemaVersion { vector_endianness, schema_version } => {
                out.push((MetadataKey::StorageVersion, u64_to_le_bytes(WITH_SCHEMA_VERSION_TAG)));
                out.push((MetadataKey::VectorEndianness, endianness_vec(*vector_endianness)));
                out.push((MetadataKey::SchemaVersion, utf8_vec(schema_version.as_str())));
            },
        }
        assert(entries_view(out@) =~= encode_spec(self@));
        out
    }
}

/// The bytes stored under a key by a list of entries (the last entry for it wins).
pub open spec fn stored_under(entries: Seq<(MetadataKey, Seq<u8>)>, k: MetadataKey) -> Option<Seq<u8>>
    decreases entries.len(),
{
    if entries.len() == 0 {
        None
    } else if entries.last().0 == k {
        Some(entries.last().1)
    } else {
        stored_under(entries.drop_last(), k)
    }
}

/// Reading back stored metadata gives the metadata that was stored: for every format
/// that can be stored, reading the entries it writes (over any schema version entry
/// left from before, for format 1) gives it back.
pub proof fn lemma_metadata_round_trip(m: StorageMetadataV, earlier_schema: Option<Seq<u8>>)
    requires
        !(m is PreMetadata),
    ensures
        ({
            let e = encode_spec(m);
            let schema = match stored_under(e, MetadataKey::SchemaVersion) {
                Some(s) => Some(s),
                None => earlier_schema,
            };
            decode_spec(
                stored_under(e, MetadataKey::StorageVersion),
                stored_under(e, MetadataKey::VectorEndianness),
                schema,
            ) == Ok::<StorageMetadataV, MetadataError>(m)
        }),
{
    vstd::bytes::lemma_auto_spec_u64_to_from_le_bytes();
    assert(spec_u64_to_le_bytes(VECTOR_NATIVE_ENDIANNESS_TAG).len() == 8);
    assert(spec_u64_to_le_bytes(WITH_SCHEMA_VERSION_TAG).len() == 8);
    match m {
        StorageMetadataV::WithSchemaVersion { vector_endianness, schema_version } => {
            vstd::utf8::encode_utf8_decode_utf8(schema_version);
            vstd::utf8::encode_utf8_valid_utf8(schema_version);
            let e = encode_spec(m);
            assert(e.drop_last().drop_last().drop_last() =~= Seq::<(MetadataKey, Seq<u8>)>::empty());
            assert(stored_under(e, MetadataKey::SchemaVersion) == Some(encode_utf8(schema_version)));
            assert(stored_under(e.drop_last(), MetadataKey::VectorEndianness) == Some(
                endianness_bytes(vector_endianness),
            ));
            assert(stored_under(e, MetadataKey::VectorEndianness) == Some(endianness_bytes(vector_endianness)));
            assert(stored_under(e.drop_last().drop_last(), MetadataKey::StorageVersion) == Some(
                spec_u64_to_le_bytes(WITH_SCHEMA_VERSION_TAG),
            ));
            assert(stored_under(e.drop_last(), MetadataKey::StorageVersion) == Some(
                spec_u64_to_le_bytes(WITH_SCHEMA_VERSION_TAG),
            ));
            assert(stored_under(e, MetadataKey::StorageVersion) == Some(
                spec_u64_to_le_bytes(WITH_SCHEMA_VERSION_TAG),
            ));
            assert(lossy_text(encode_utf8(schema_version)) == schema_version);
            assert(decode_endianness(Some(endianness_bytes(vector_endianness))) == Ok::<
                VectorEndianness,
                MetadataError,
            >(vector_endianness));
            assert(spec_u64_from_le_bytes(spec_u64_to_le_bytes(WITH_SCHEMA_VERSION_TAG)) == 2);
            assert(decode_spec(
                Some(spec_u64_to_le_bytes(WITH_SCHEMA_VERSION_TAG)),
                Some(endianness_bytes(vector_endianness)),
                Some(encode_utf8(schema_version)),
            ) == Ok::<StorageMetadataV, MetadataError>(m));
        },
        StorageMetadataV::VectorNativeEndianness { vector_endianness } => {
            let e = encode_spec(m);
            assert(e.drop_last().drop_last() =~= Seq::<(MetadataKey, Seq<u8>)>::empty());
            assert(stored_under(e.drop_last().drop_last(), MetadataKey::SchemaVersion) is None);
            assert(stored_under(e.drop_last(), MetadataKey::SchemaVersion) is None);
            assert(stored_under(e, MetadataKey::SchemaVersion) is None);
            assert(stored_under(e.drop_last(), MetadataKey::StorageVersion) == Some(
                spec_u64_to_le_bytes(VECTOR_NATIVE_ENDIANNESS_TAG),
            ));
            assert(stored_under(e, MetadataKey::StorageVersion) == Some(
                spec_u64_to_le_bytes(VECTOR_NATIVE_ENDIANNESS_TAG),
            ));
            assert(stored_under(e, MetadataKey::VectorEndianness) == Some(endianness_bytes(vector_endianness)));
            assert(spec_u64_from_le_bytes(spec_u64_to_le_bytes(VECTOR_NATIVE_ENDIANNESS_TAG)) == 1);
        },
        StorageMetadataV::PreMetadata => {},
    }
}

} // verus!
