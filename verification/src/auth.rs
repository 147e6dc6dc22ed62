//! Access tokens: roles, the token format, hex encoding, and the decisions taken on a
//! request's key.
use vstd::prelude::*;
use vstd::utf8::encode_utf8;
use crate::text::{chars_of, push_char, push_str, to_owned_string};

verus! {

// ─── roles and records ───────────────────────────────────────────────────────

/// What a token may do.
#[derive(Debug, Clone, Copy, PartialEq, Eq, Structural)]
pub enum Role {
    Admin,
    ReadWrite,
    ReadOnly,
}

impl Role {
    /// Whether the role may write: `Admin` and `ReadWrite` may.
    pub fn can_write(&self) -> (r: bool)
        ensures
            r == (*self == Role::Admin || *self == Role::ReadWrite),
    {
        match self {
            Role::Admin | Role::ReadWrite => true,
            Role::ReadOnly => false,
        }
    }
}

/// What is stored about a token (never the token itself).
#[derive(Debug)]
pub struct TokenRecord {
    /// Eight hex characters: the first four bytes of the token's SHA-256 hash.
    pub id: String,
    /// A human label.
    pub name: String,
    pub role: Role,
    /// Creation time, in seconds since the Unix epoch.
    pub created_at: u64,
}

/// Why a token was refused, or the token store failed.
#[derive(Debug)]
pub enum TokenError {
    Unauthorized,
    InvalidKey,
    Forbidden,
    /// The token database failed; the message of its error.
    Storage(String),
    /// The file system failed; the message of its error.
    Io(String),
    /// A stored record could not be read; the message of its error.
    Json(String),
}

impl TokenError {
    /// The text of the error: `unauthorized`, `invalid key`, `forbidden`, or the kind of
    /// failure (`storage error: `, `io error: `, `json error: `) and its description.
    pub fn message(&self) -> (r: String)
        ensures
            *self is Unauthorized ==> r@ == "unauthorized"@,
            *self is InvalidKey ==> r@ == "invalid key"@,
            *self is Forbidden ==> r@ == "forbidden"@,
            *self matches TokenError::Storage(e) ==> r@ == "storage error: "@ + e@,
            *self matches TokenError::Io(e) ==> r@ == "io error: "@ + e@,
            *self matches TokenError::Json(e) ==> r@ == "json error: "@ + e@,
    {
        match self {
            TokenError::Unauthorized => to_owned_string("unauthorized"),
            TokenError::InvalidKey => to_owned_string("invalid key"),
            TokenError::Forbidden => to_owned_string("forbidden"),
            TokenError::Storage(e) => {
                let mut s = to_owned_string("storage error: ");
                push_str(&mut s, e.as_str());
                s
            },
            TokenError::Io(e) => {
                let mut s = to_owned_string("io error: ");
                push_str(&mut s, e.as_str());
                s
            },
            TokenError::Json(e) => {
                let mut s = to_owned_string("json error: ");
                push_str(&mut s, e.as_str());
                s
            },
        }
    }
}

/// An error answered to a request.
#[derive(Debug)]
pub enum SparrowError {
    /// The key is valid but may not do what was asked.
    Forbidden,
    /// The key is missing, malformed or unknown.
    InvalidApiKey,
    NotFound,
    /// The storage layer failed; its message.
    Graph(String),
}

/// Lets through only a caller holding an `Admin` token.
pub fn require_admin(record: &TokenRecord) -> (r: Result<(), SparrowError>)
    ensures
        r is Ok <==> record.role == Role::Admin,
        r matches Err(e) ==> e is Forbidden,
{
    if record.role == Role::Admin {
        Ok(())
    } else {
        Err(SparrowError::Forbidden)
    }
}

/// The role named in a token creation request.
#[derive(Debug, Clone, Copy, PartialEq, Eq, Structural)]
pub enum RoleInput {
    Admin,
    ReadWrite,
    ReadOnly,
}

/// The role a [`RoleInput`] names.
pub open spec fn role_of(r: RoleInput) -> Role {
    match r {
        RoleInput::Admin => Role::Admin,
        RoleInput::ReadWrite => Role::ReadWrite,
        RoleInput::ReadOnly => Role::ReadOnly,
    }
}

impl From<RoleInput> for Role {
    fn from(r: RoleInput) -> (out: Role) {
        match r {
            RoleInput::Admin => Role::Admin,
            RoleInput::ReadWrite => Role::ReadWrite,
            RoleInput::ReadOnly => Role::ReadOnly,
        }
    }
}

impl vstd::std_specs::convert::FromSpecImpl<RoleInput> for Role {
    open spec fn obeys_from_spec() -> bool {
        true
    }

    open spec fn from_spec(r: RoleInput) -> Role {
        role_of(r)
    }
}

/// A request to create a token.
#[derive(Debug)]
pub struct CreateTokenRequest {
    pub name: String,
    pub role: RoleInput,
}

/// The answer to a token creation: the token (shown this once) and its record.
#[derive(Debug)]
pub struct CreateTokenResponse {
    pub token: String,
    pub record: TokenRecord,
}

// ─── access decisions ────────────────────────────────────────────────────────

/// Who may use an administration endpoint: anyone while no token exists (as a
/// bootstrap `Admin`); otherwise the holder of a valid `Admin` key. `verified` is what
/// verifying the request's key gave.
pub fn admin_access(auth_required: bool, verified: Result<TokenRecord, TokenError>) -> (r: Result<
    TokenRecord,
    SparrowError,
>)
    ensures
        !auth_required ==> (r matches Ok(rec) && rec.id@ == "bootstrap"@ && rec.name@ == "bootstrap"@
            && rec.role == Role::Admin && rec.created_at == 0),
        auth_required && verified is Err ==> (r matches Err(e) && e is InvalidApiKey),
        auth_required ==> (verified matches Ok(v) ==> (v.role != Role::Admin ==> (r matches Err(e)
            && e is Forbidden))),
        auth_required ==> (verified matches Ok(v) ==> (v.role == Role::Admin ==> (r matches Ok(rec)
            && rec == v))),
{
    if !auth_required {
        return Ok(
            TokenRecord {
                id: to_owned_string("bootstrap"),
                name: to_owned_string("bootstrap"),
                role: Role::Admin,
                created_at: 0,
            },
        );
    }
    match verified {
        Err(_) => Err(SparrowError::InvalidApiKey),
        Ok(record) => match require_admin(&record) {
            Ok(()) => Ok(record),
            Err(e) => Err(e),
        },
    }
}

/// Whether a query request may run: always while no token exists; otherwise the key
/// must be valid, and a write needs a role that can write.
pub fn query_access(auth_required: bool, verified: Result<Role, TokenError>, is_write: bool) -> (r: Result<
    (),
    SparrowError,
>)
    ensures
        !auth_required ==> r is Ok,
        auth_required && verified is Err ==> (r matches Err(e) && e is InvalidApiKey),
        auth_required ==> (verified matches Ok(role) ==> (r is Ok <==> (!is_write || role == Role::Admin
            || role == Role::ReadWrite))),
        auth_required && verified is Ok && r is Err ==> (r matches Err(e) && e is Forbidden),
{
    if !auth_required {
        return Ok(());
    }
    match verified {
        Err(_) => Err(SparrowError::InvalidApiKey),
        Ok(role) => {
            if is_write && !role.can_write() {
                Err(SparrowError::Forbidden)
            } else {
                Ok(())
            }
        },
    }
}

// ─── hex ─────────────────────────────────────────────────────────────────────

/// The lowercase hex digit of a number below 16.
pub open spec fn hex_digit(d: nat) -> char {
    if d < 10 {
        (48 + d) as char
    } else {
        (87 + d) as char
    }
}

/// The two lowercase hex digits of a byte.
pub open spec fn byte_hex(b: u8) -> Seq<char> {
    seq![hex_digit((b / 16) as nat), hex_digit((b % 16) as nat)]
}

/// The lowercase hex text of a byte sequence, two digits per byte.
pub open spec fn hex_of(bs: Seq<u8>) -> Seq<char>
    decreases bs.len(),
{
    if bs.len() == 0 {
        Seq::empty()
    } else {
        hex_of(bs.drop_last()) + byte_hex(bs.last())
    }
}

fn hex_digit_char(d: u8) -> (c: char)
    requires
        d < 16,
    ensures
        c == hex_digit(d as nat),
{
    match d {
        0 => '0',
        1 => '1',
        2 => '2',
        3 => '3',
        4 => '4',
        5 => '5',
        6 => '6',
        7 => '7',
        8 => '8',
        9 => '9',
        10 => 'a',
        11 => 'b',
        12 => 'c',
        13 => 'd',
        14 => 'e',
        _ => 'f',
    }
}

/// The lowercase hex text of bytes, two digits per byte.
pub fn bytes_to_hex(bytes: &[u8]) -> (s: String)
    ensures
        s@ == hex_of(bytes@),
{
    let mut s = String::new();
    let mut i: usize = 0;
    while i < bytes.len()
        invariant
            i <= bytes@.len(),
            s@ == hex_of(bytes@.take(i as int)),
        decreases bytes@.len() - i,
    {
        let b = bytes[i];
        assert(bytes@.take(i + 1).drop_last() =~= bytes@.take(i as int));
        push_char(&mut s, hex_digit_char(b / 16));
        push_char(&mut s, hex_digit_char(b % 16));
        assert(s@ =~= hex_of(bytes@.take(i as int)) + byte_hex(b));
        i = i + 1;
    }
    assert(bytes@.take(bytes@.len() as int) =~= bytes@);
    s
}

/// The value of a hex digit, either case.
pub open spec fn hex_value(c: char) -> Option<nat> {
    if '0' <= c && c <= '9' {
        Some((c as nat - 48) as nat)
    } else if 'a' <= c && c <= 'f' {
        Some((c as nat - 87) as nat)
    } else if 'A' <= c && c <= 'F' {
        Some((c as nat - 55) as nat)
    } else {
        None
    }
}

/// The byte two characters stand for, as `u8::from_str_radix(_, 16)` reads them: two hex
/// digits, or `+` followed by one.
pub open spec fn pair_value(c1: char, c2: char) -> Option<u8> {
    if c1 == '+' {
        match hex_value(c2) {
            Some(v) => Some(v as u8),
            None => None,
        }
    } else {
        match (hex_value(c1), hex_value(c2)) {
            (Some(a), Some(b)) => Some((a * 16 + b) as u8),
            _ => None,
        }
    }
}

/// The bytes of the pairs of characters of `s`, read from the front.
pub open spec fn pairs_value(s: Seq<char>) -> Option<Seq<u8>>
    decreases s.len(),
{
    if s.len() < 2 {
        Some(Seq::empty())
    } else {
        match (pairs_value(s.subrange(0, s.len() - 2)), pair_value(s[s.len() - 2], s[s.len() - 1])) {
            (Some(p), Some(b)) => Some(p.push(b)),
            _ => None,
        }
    }
}

/// Whether every character is ASCII.
pub open spec fn all_ascii(s: Seq<char>) -> bool {
    forall|i: int| 0 <= i < s.len() ==> (#[trigger] s[i] as u32) < 128
}

/// The bytes a hex text stands for: ASCII text of even length, read two characters at a
/// time; anything else is refused.
pub open spec fn hex_decode(s: Seq<char>) -> Option<Seq<u8>> {
    if !all_ascii(s) || s.len() % 2 != 0 {
        None
    } else {
        pairs_value(s)
    }
}

fn hex_value_exec(c: char) -> (r: Option<u8>)
    ensures
        r matches Some(v) ==> hex_value(c) == Some(v as nat),
        r is None ==> hex_value(c) is None,
{
    if '0' <= c && c <= '9' {
        Some((c as u32 - 48) as u8)
    } else if 'a' <= c && c <= 'f' {
        Some((c as u32 - 87) as u8)
    } else if 'A' <= c && c <= 'F' {
        Some((c as u32 - 55) as u8)
    } else {
        None
    }
}

fn pair_value_exec(c1: char, c2: char) -> (r: Option<u8>)
    ensures
        r == pair_value(c1, c2),
{
    if c1 == '+' {
        match hex_value_exec(c2) {
            Some(v) => Some(v),
            None => None,
        }
    } else {
        match (hex_value_exec(c1), hex_value_exec(c2)) {
            (Some(a), Some(b)) => Some(a * 16 + b),
            _ => None,
        }
    }
}

/// Reads a hex text into bytes (see [`hex_decode`]); a text it refuses is an invalid key.
pub fn hex_to_bytes(s: &str) -> (r: Result<Vec<u8>, TokenError>)
    ensures
        r matches Ok(v) ==> hex_decode(s@) == Some(v@),
        r matches Err(e) ==> hex_decode(s@) is None && e is InvalidKey,
        hex_decode(s@) is None ==> r is Err,
{
    let cs = chars_of(s);
    let mut i: usize = 0;
    while i < cs.len()
        invariant
            cs@ == s@,
            i <= cs@.len(),
            forall|j: int| 0 <= j < i ==> (#[trigger] cs@[j] as u32) < 128,
        decreases cs@.len() - i,
    {
        if cs[i] as u32 >= 128 {
            assert((s@[i as int] as u32) >= 128);
            assert(!all_ascii(s@));
            return Err(TokenError::InvalidKey);
        }
        i = i + 1;
    }
    if cs.len() % 2 != 0 {
        return Err(TokenError::InvalidKey);
    }
    let mut out: Vec<u8> = Vec::new();
    let mut k: usize = 0;
    while k < cs.len()
        invariant
            cs@ == s@,
            cs@.len() % 2 == 0,
            k % 2 == 0,
            k <= cs@.len(),
            pairs_value(cs@.subrange(0, k as int)) == Some(out@),
        decreases cs@.len() - k,
    {
        let ghost pre = cs@.subrange(0, k as int);
        let ghost next = cs@.subrange(0, k + 2);
        assert(next.subrange(0, next.len() - 2) =~= pre);
        assert(next[next.len() - 2] == cs@[k as int]);
        assert(next[next.len() - 1] == cs@[k + 1]);
        match pair_value_exec(cs[k], cs[k + 1]) {
            Some(b) => {
                out.push(b);
            },
            None => {
                proof {
                    lemma_pairs_none_extends(cs@, k as int + 2);
                    assert(cs@.subrange(0, cs@.len() as int) =~= cs@);
                }
                return Err(TokenError::InvalidKey);
            },
        }
        k = k + 2;
    }
    assert(cs@.subrange(0, cs@.len() as int) =~= cs@);
    Ok(out)
}

proof fn lemma_pairs_none_extends(s: Seq<char>, k: int)
    requires
        2 <= k <= s.len(),
        k % 2 == 0,
        s.len() % 2 == 0,
        pairs_value(s.subrange(0, k)) is None,
    ensures
        pairs_value(s.subrange(0, s.len() as int)) is None,
    decreases s.len() - k,
{
    if k < s.len() {
        let next = s.subrange(0, k + 2);
        assert(next.subrange(0, next.len() - 2) =~= s.subrange(0, k));
        lemma_pairs_none_extends(s, k + 2);
    }
}

/// Reading back the hex text of bytes gives the bytes.
pub proof fn lemma_hex_round_trip(bs: Seq<u8>)
    ensures
        hex_decode(hex_of(bs)) == Some(bs),
    decreases bs.len(),
{
    lemma_hex_shape(bs);
    lemma_pairs_of_hex(bs);
}

proof fn lemma_hex_shape(bs: Seq<u8>)
    ensures
        hex_of(bs).len() == 2 * bs.len(),
        all_ascii(hex_of(bs)),
        forall|i: int| 0 <= i < hex_of(bs).len() ==> is_lower_hex(#[trigger] hex_of(bs)[i]),
    decreases bs.len(),
{
    if bs.len() > 0 {
        lemma_hex_shape(bs.drop_last());
        let h = hex_of(bs);
        let p = hex_of(bs.drop_last());
        let b = bs.last();
        assert(h == p + byte_hex(b));
        assert forall|i: int| 0 <= i < h.len() implies is_lower_hex(#[trigger] h[i]) && (h[i] as u32) < 128 by {
            if i < p.len() {
                assert(h[i] == p[i]);
            } else {
                assert(h[i] == byte_hex(b)[i - p.len()]);
            }
        }
    }
}

proof fn lemma_pairs_of_hex(bs: Seq<u8>)
    ensures
        pairs_value(hex_of(bs)) == Some(bs),
    decreases bs.len(),
{
    if bs.len() > 0 {
        lemma_hex_shape(bs.drop_last());
        lemma_pairs_of_hex(bs.drop_last());
        let h = hex_of(bs);
        let p = hex_of(bs.drop_last());
        let b = bs.last();
        assert(h.subrange(0, h.len() - 2) =~= p);
        assert(h[h.len() - 2] == hex_digit((b / 16) as nat));
        assert(h[h.len() - 1] == hex_digit((b % 16) as nat));
        assert(pair_value(h[h.len() - 2], h[h.len() - 1]) == Some(b));
        assert(bs.drop_last().push(b) =~= bs);
    } else {
        assert(hex_of(bs) =~= Seq::<char>::empty());
    }
}

// ─── tokens ──────────────────────────────────────────────────────────────────

/// Whether a character is a lowercase hex digit.
pub open spec fn is_lower_hex(c: char) -> bool {
    ('0' <= c && c <= '9') || ('a' <= c && c <= 'f')
}

/// The prefix of the tokens this server issues.
pub open spec fn token_prefix() -> Seq<char> {
    seq!['s', 'p', 'a', 'r', 'r', 'o', 'w', '_']
}

/// Whether a key has an acceptable form: a key starting with `sparrow_` must be
/// `sparrow_` followed by exactly 32 lowercase hex characters; any other key (a legacy
/// key) is only looked up.
pub open spec fn token_format_ok(raw: Seq<char>) -> bool {
    raw.len() >= 8 && raw.take(8) == token_prefix() ==> raw.len() == 40 && (forall|i: int|
        8 <= i < 40 ==> is_lower_hex(#[trigger] raw[i]))
}

/// Checks the form of a key (see [`token_format_ok`]); a malformed key is an invalid key.
pub fn check_token_format(raw_key: &str) -> (r: Result<(), TokenError>)
    ensures
        r is Ok <==> token_format_ok(raw_key@),
        r matches Err(e) ==> e is InvalidKey,
{
    let cs = chars_of(raw_key);
    let prefix: [char; 8] = ['s', 'p', 'a', 'r', 'r', 'o', 'w', '_'];
    let mut has_prefix = cs.len() >= 8;
    let mut i: usize = 0;
    while i < 8 && has_prefix
        invariant
            cs@ == raw_key@,
            i <= 8,
            prefix@ == token_prefix(),
            has_prefix ==> cs@.len() >= 8 && forall|j: int| 0 <= j < i ==> cs@[j] == token_prefix()[j],
            !has_prefix ==> !(cs@.len() >= 8 && cs@.take(8) == token_prefix()),
        decreases 8 - i,
    {
        if cs[i] != prefix[i] {
            assert(cs@.take(8)[i as int] != token_prefix()[i as int]);
            has_prefix = false;
        }
        i = i + 1;
    }
    if !has_prefix {
        return Ok(());
    }
    assert(cs@.take(8) =~= token_prefix());
    if cs.len() != 40 {
        return Err(TokenError::InvalidKey);
    }
    let mut k: usize = 8;
    while k < 40
        invariant
            cs@ == raw_key@,
            cs@.len() == 40,
            cs@.take(8) == token_prefix(),
            8 <= k <= 40,
            forall|j: int| 8 <= j < k ==> is_lower_hex(#[trigger] cs@[j]),
        decreases 40 - k,
    {
        let c = cs[k];
        if !(('0' <= c && c <= '9') || ('a' <= c && c <= 'f')) {
            assert(!is_lower_hex(raw_key@[k as int]));
            return Err(TokenError::InvalidKey);
        }
        k = k + 1;
    }
    Ok(())
}

/// The SHA-256 digest of a byte sequence.
pub uninterp spec fn sha256_of(b: Seq<u8>) -> Seq<u8>;

/// `sha2::Sha256::digest`: the SHA-256 hash of the bytes, 32 bytes long. The digest
/// itself is named by [`sha256_of`], not computed here.
#[verifier::external_body]
fn sha256(b: &[u8]) -> (r: Vec<u8>)
    ensures
        r@ == sha256_of(b@),
        r@.len() == 32,
{
    <sha2::Sha256 as sha2::Digest>::digest(b).to_vec()
}

/// The key a token is stored under: the SHA-256 hash of its UTF-8 bytes.
pub fn token_hash(raw_key: &str) -> (r: Vec<u8>)
    ensures
        r@ == sha256_of(encode_utf8(raw_key@)),
        r@.len() == 32,
{
    sha256(raw_key.as_bytes())
}

/// The key to look a presented token up under, once its form is checked.
pub fn lookup_key(raw_key: &str) -> (r: Result<Vec<u8>, TokenError>)
    ensures
        r is Ok <==> token_format_ok(raw_key@),
        r matches Ok(k) ==> k@ == sha256_of(encode_utf8(raw_key@)),
        r matches Err(e) ==> e is InvalidKey,
{
    match check_token_format(raw_key) {
        Ok(()) => Ok(token_hash(raw_key)),
        Err(e) => Err(e),
    }
}

/// The id of a token: the hex text of the first four bytes of its hash.
pub fn token_id(hash: &[u8]) -> (r: String)
    requires
        hash@.len() >= 4,
    ensures
        r@ == hex_of(hash@.take(4)),
{
    let first: [u8; 4] = [hash[0], hash[1], hash[2], hash[3]];
    assert(first@ =~= hash@.take(4));
    bytes_to_hex(&first)
}

/// Sixteen random bytes (`rand::random`). Nothing is stated of their values.
#[verifier::external_body]
fn random_token_bytes() -> (r: Vec<u8>)
    ensures
        r@.len() == 16,
{
    let b: [u8; 16] = rand::random();
    b.to_vec()
}

/// The token made of some random bytes: `sparrow_` and their hex text.
pub fn token_from_bytes(random: &[u8]) -> (r: String)
    ensures
        r@ == token_prefix() + hex_of(random@),
{
    let mut s = to_owned_string("sparrow_");
    proof {
        reveal_strlit("sparrow_");
    }
    assert("sparrow_"@ =~= token_prefix());
    let h = bytes_to_hex(random);
    push_str(&mut s, h.as_str());
    s
}

/// A new token: `sparrow_` and the hex text of sixteen random bytes.
pub fn new_raw_token() -> (r: String)
    ensures
        exists|b: Seq<u8>| b.len() == 16 && r@ == token_prefix() + hex_of(b),
        token_format_ok(r@),
        r@.len() == 40,
        r@.take(8) == token_prefix(),
{
    let b = random_token_bytes();
    let t = token_from_bytes(&b);
    proof {
        lemma_new_token_well_formed(b@);
        lemma_hex_shape(b@);
        assert(t@.take(8) =~= token_prefix());
    }
    t
}

/// Every token the server creates has the form it accepts.
pub proof fn lemma_new_token_well_formed(b: Seq<u8>)
    requires
        b.len() == 16,
    ensures
        token_format_ok(token_prefix() + hex_of(b)),
{
    lemma_hex_shape(b);
    let t = token_prefix() + hex_of(b);
    assert(t.take(8) =~= token_prefix());
    assert forall|i: int| 8 <= i < 40 implies is_lower_hex(#[trigger] t[i]) by {
        assert(t[i] == hex_of(b)[i - 8]);
    }
}

/// The record of a new token, given its hash and the creation time.
pub fn token_record(hash: &[u8], name: &str, role: Role, created_at: u64) -> (r: TokenRecord)
    requires
        hash@.len() >= 4,
    ensures
        r.id@ == hex_of(hash@.take(4)),
        r.name@ == name@,
        r.role == role,
        r.created_at == created_at,
{
    TokenRecord { id: token_id(hash), name: to_owned_string(name), role, created_at }
}

/// A token ready to be stored: the token (shown once), the key to store its record
/// under, and the record.
pub struct NewToken {
    pub raw_token: String,
    pub key: Vec<u8>,
    pub record: TokenRecord,
}

/// Creates a token with a name and a role, created now: a random token, stored under
/// its hash, with the first four bytes of the hash as its id.
pub fn create_token(name: &str, role: Role) -> (r: NewToken)
    ensures
        exists|b: Seq<u8>| b.len() == 16 && r.raw_token@ == token_prefix() + hex_of(b),
        token_format_ok(r.raw_token@),
        r.raw_token@.len() == 40,
        r.raw_token@.take(8) == token_prefix(),
        r.key@ == sha256_of(encode_utf8(r.raw_token@)),
        r.record.id@ == hex_of(r.key@.take(4)),
        r.record.name@ == name@,
        r.record.role == role,
{
    let raw_token = new_raw_token();
    let key = token_hash(raw_token.as_str());
    let record = token_record(&key, name, role, crate::clock::unix_now_secs());
    NewToken { raw_token, key, record }
}

/// The token that seeds a legacy key as an `Admin` token named `SPARROW_API_KEY`,
/// created now.
pub fn legacy_token(raw_key: &str) -> (r: NewToken)
    ensures
        r.raw_token@ == raw_key@,
        r.key@ == sha256_of(encode_utf8(raw_key@)),
        r.record.id@ == hex_of(r.key@.take(4)),
        r.record.name@ == "SPARROW_API_KEY"@,
        r.record.role == Role::Admin,
{
    let key = token_hash(raw_key);
    let record = token_record(&key, "SPARROW_API_KEY", Role::Admin, crate::clock::unix_now_secs());
    NewToken { raw_token: to_owned_string(raw_key), key, record }
}

/// The position of the first stored record with an id, if any.
pub fn find_token_by_id(records: &Vec<TokenRecord>, id: &str) -> (r: Option<usize>)
    ensures
        r matches Some(i) ==> i < records@.len() && records@[i as int].id@ == id@ && forall|j: int|
            0 <= j < i ==> records@[j].id@ != id@,
        r is None ==> forall|j: int| 0 <= j < records@.len() ==> records@[j].id@ != id@,
{
    let mut i: usize = 0;
    while i < records.len()
        invariant
            i <= records@.len(),
            forall|j: int| 0 <= j < i ==> records@[j].id@ != id@,
        decreases records@.len() - i,
    {
        if crate::text::str_eq(records[i].id.as_str(), id) {
            return Some(i);
        }
        i = i + 1;
    }
    None
}


/// Revoking a token removes it for good: when its record is the only one with its id,
/// the store without the record's key holds no record with that id (a second revocation
/// finds none), and the token's own key (the hash a verification looks up) is gone, so
/// the token no longer verifies. `store` maps keys to records.
pub proof fn lemma_revoked_token_not_found(store: Map<Seq<u8>, TokenRecord>, key: Seq<u8>)
    requires
        store.contains_key(key),
        forall|k: Seq<u8>| #[trigger] store.contains_key(k) && k != key ==> store[k].id@ != store[key].id@,
    ensures
        !store.remove(key).contains_key(key),
        forall|k: Seq<u8>| #[trigger] store.remove(key).contains_key(k) ==> store.remove(key)[k].id@ != store[key].id@,
{
}


/// A created token verifies: `create_token` gives a token of the accepted form (so
/// `lookup_key` takes it) whose lookup key is the key its record is stored under, so
/// the store after the record is put holds that record under the token's lookup key.
/// `store` maps keys to records.
pub proof fn lemma_created_token_verifies(store: Map<Seq<u8>, TokenRecord>, t: NewToken)
    requires
        token_format_ok(t.raw_token@),
        t.key@ == sha256_of(encode_utf8(t.raw_token@)),
    ensures
        token_format_ok(t.raw_token@),
        store.insert(t.key@, t.record).contains_key(sha256_of(encode_utf8(t.raw_token@))),
        store.insert(t.key@, t.record)[sha256_of(encode_utf8(t.raw_token@))] == t.record,
{
}

} // verus!
