//! Decisions of the storage engine's traversal steps: secondary index names, the label
//! check on stored nodes, when the BM25 index is written, which error a node insertion
//! reports, what a vector search yields and what dropping an item does.
use vstd::prelude::*;
use vstd::bytes::{spec_u64_from_le_bytes, u64_from_le_bytes};
use vstd::utf8::encode_utf8;
use crate::text::{push_str, str_eq, to_owned_string};

verus! {

// ─── errors ──────────────────────────────────────────────────────────────────

/// An error of a traversal step.
#[derive(Debug)]
pub enum EngineError {
    /// A plain message.
    New(String),
    /// A unique index already holds the value.
    DuplicateKey(String),
    /// The storage layer refused a read or a write.
    Storage(String),
    /// The vector index refused a search or an insertion.
    VectorError(String),
    /// An item could not be converted.
    ConversionError(String),
    /// No node has the id.
    NodeNotFound,
}

// ─── secondary indices ───────────────────────────────────────────────────────

/// The name a secondary index is registered under: `<label>:<field>`.
pub open spec fn qualified_index_spec(label: Seq<char>, index: Seq<char>) -> Seq<char> {
    label + ":"@ + index
}

/// The name a secondary index of a node type is registered under.
pub fn qualified_index_name(label: &str, index: &str) -> (r: String)
    ensures
        r@ == qualified_index_spec(label@, index@),
{
    let mut s = to_owned_string(label);
    push_str(&mut s, ":");
    push_str(&mut s, index);
    s
}

/// The error of a lookup through an index that the type does not have.
pub fn index_not_found_for_type(index: &str, label: &str) -> (e: EngineError)
    ensures
        e matches EngineError::New(m) && m@ == "Secondary Index '"@ + index@ + "' not found for type '"@
            + label@ + "'"@,
{
    let mut s = to_owned_string("Secondary Index '");
    push_str(&mut s, index);
    push_str(&mut s, "' not found for type '");
    push_str(&mut s, label);
    push_str(&mut s, "'");
    EngineError::New(s)
}

/// The error of an insertion into an index that is not registered.
pub fn index_not_found(index: &str) -> (e: EngineError)
    ensures
        e matches EngineError::New(m) && m@ == "Secondary Index "@ + index@ + " not found"@,
{
    let mut s = to_owned_string("Secondary Index ");
    push_str(&mut s, index);
    push_str(&mut s, " not found");
    EngineError::New(s)
}

/// The error of an insertion that a unique index refuses.
pub fn duplicate_key(index: &str) -> (e: EngineError)
    ensures
        e matches EngineError::DuplicateKey(m) && m@ == "Unique index '"@ + index@
            + "' already contains this value"@,
{
    let mut s = to_owned_string("Unique index '");
    push_str(&mut s, index);
    push_str(&mut s, "' already contains this value");
    EngineError::DuplicateKey(s)
}

// ─── the label of a stored node ──────────────────────────────────────────────

/// The length of the header in front of a stored string: its length as a
/// little-endian `u64`.
pub const STRING_HEADER_LENGTH: usize = 8;

/// The label length that a stored node's header announces.
pub open spec fn stored_label_len(value: Seq<u8>) -> int {
    spec_u64_from_le_bytes(value.take(8)) as int
}

/// Whether a stored node can be read for its label: the header is there, and where the
/// announced length is that of the label sought, the label bytes are there too.
pub open spec fn stored_label_readable(value: Seq<u8>, label: Seq<char>) -> bool {
    &&& value.len() >= 8
    &&& stored_label_len(value) == encode_utf8(label).len() ==> value.len() >= 8 + stored_label_len(value)
}

/// Whether a stored node (its serialized bytes) has a label: the announced length is
/// the label's length in bytes, and the bytes after the header are the label's.
pub open spec fn stored_label_is(value: Seq<u8>, label: Seq<char>) -> bool {
    let n = stored_label_len(value);
    n == encode_utf8(label).len() && value.subrange(8, 8 + n) == encode_utf8(label)
}

/// Checks the label of a stored node without decoding the node. A value without its
/// header, or shorter than the label it announces, is corrupt: that input is left out.
pub fn stored_label_matches(value: &[u8], label: &str) -> (r: bool)
    requires
        stored_label_readable(value@, label@),
    ensures
        r == stored_label_is(value@, label@),
{
    let header: [u8; 8] = [value[0], value[1], value[2], value[3], value[4], value[5], value[6], value[7]];
    assert(header@ =~= value@.take(8));
    let n = u64_from_le_bytes(&header);
    let bytes = label.as_bytes();
    if n != bytes.len() as u64 {
        return false;
    }
    let len = bytes.len();
    let vlen = value.len();
    let mut i: usize = 0;
    while i < len
        invariant
            vlen == value@.len(),
            len == bytes@.len(),
            bytes@ == encode_utf8(label@),
            n == len,
            value@.len() >= 8 + len,
            i <= len,
            forall|j: int| 0 <= j < i ==> value@[8 + j] == bytes@[j],
        decreases len - i,
    {
        if value[8 + i] != bytes[i] {
            assert(value@.subrange(8, 8 + n as int)[i as int] != encode_utf8(label@)[i as int]);
            return false;
        }
        i = i + 1;
    }
    assert(value@.subrange(8, 8 + n as int) =~= encode_utf8(label@));
    true
}

/// Checks the label of a stored node where a short value is simply no match (the
/// RocksDB reader): no header, or fewer bytes than the label it announces, is `false`.
pub fn stored_label_matches_checked(value: &[u8], label: &str) -> (r: bool)
    ensures
        r == (stored_label_readable(value@, label@) && stored_label_is(value@, label@)),
{
    if value.len() < 8 {
        return false;
    }
    let header: [u8; 8] = [value[0], value[1], value[2], value[3], value[4], value[5], value[6], value[7]];
    assert(header@ =~= value@.take(8));
    let n = u64_from_le_bytes(&header);
    let bytes = label.as_bytes();
    if n != bytes.len() as u64 {
        return false;
    }
    if value.len() - 8 < bytes.len() {
        return false;
    }
    stored_label_matches(value, label)
}

/// The error of a keyword search on a server without a BM25 index.
pub fn bm25_not_enabled() -> (e: EngineError)
    ensures
        e matches EngineError::New(m) && m@ == "BM25 not enabled!"@,
{
    EngineError::New(to_owned_string("BM25 not enabled!"))
}

// ─── BM25 writes ─────────────────────────────────────────────────────────────

/// Whether a list of labels holds a label.
pub open spec fn label_listed(labels: Seq<String>, label: Seq<char>) -> bool {
    exists|i: int| 0 <= i < labels.len() && #[trigger] labels[i]@ == label
}

/// Whether the BM25 index follows a write of an item with a label: there is an index,
/// writes to it are not switched off, and the label is not excluded.
pub fn bm25_write_allowed(has_bm25: bool, skip_writes: bool, exclude_labels: &Vec<String>, label: &str) -> (r:
    bool)
    ensures
        r == (has_bm25 && !skip_writes && !label_listed(exclude_labels@, label@)),
{
    if !has_bm25 || skip_writes {
        return false;
    }
    let mut i: usize = 0;
    while i < exclude_labels.len()
        invariant
            i <= exclude_labels@.len(),
            forall|j: int| 0 <= j < i ==> exclude_labels@[j]@ != label@,
        decreases exclude_labels@.len() - i,
    {
        if str_eq(exclude_labels[i].as_str(), label) {
            return false;
        }
        i = i + 1;
    }
    true
}

// ─── node insertion ──────────────────────────────────────────────────────────

/// What happened to one secondary index entry of a new node.
#[derive(Debug)]
pub enum IndexWrite {
    /// The index is not registered for the type.
    NotRegistered(String),
    /// The node has no value for the indexed field: nothing to write.
    NoValue,
    /// A unique index already holds the value.
    Duplicate(String),
    /// The storage layer failed.
    Failed(String),
    /// The entry was written.
    Written,
}

/// The kind of a registered secondary index.
#[derive(Debug, Clone, Copy, PartialEq, Eq, Structural)]
pub enum IndexKind {
    Plain,
    /// No two nodes may hold the same value.
    Unique,
}

/// The next storage call for one secondary index entry of a new node, or the outcome
/// when none is due.
#[derive(Debug)]
pub enum IndexCall {
    Done(IndexWrite),
    /// Read whether the unique index already holds the node's value.
    CheckUnique,
    /// Write the entry.
    Put,
}

/// How the entry of index `index` of a new node starts: an index not registered for
/// the node's type (`kind` is `None`, looked up by its qualified name) is an error; a
/// node without a value for the field writes nothing; a unique index is checked first;
/// a plain one is written.
pub fn plan_index_write(index: &str, kind: Option<IndexKind>, has_value: bool) -> (r: IndexCall)
    ensures
        kind is None ==> (r matches IndexCall::Done(IndexWrite::NotRegistered(ix)) && ix@ == index@),
        kind is Some && !has_value ==> (r matches IndexCall::Done(IndexWrite::NoValue)),
        kind == Some(IndexKind::Unique) && has_value ==> r is CheckUnique,
        kind == Some(IndexKind::Plain) && has_value ==> r is Put,
{
    match kind {
        None => IndexCall::Done(IndexWrite::NotRegistered(to_owned_string(index))),
        Some(k) => if !has_value {
            IndexCall::Done(IndexWrite::NoValue)
        } else {
            match k {
                IndexKind::Unique => IndexCall::CheckUnique,
                IndexKind::Plain => IndexCall::Put,
            }
        },
    }
}

/// How the entry goes on after the unique index was read: a value already there is a
/// duplicate; a failed read is a storage failure; otherwise the entry is written.
pub fn after_unique_check(index: &str, found: Result<bool, String>) -> (r: IndexCall)
    ensures
        found == Ok::<bool, String>(true) ==> (r matches IndexCall::Done(IndexWrite::Duplicate(ix)) && ix@ == index@),
        found == Ok::<bool, String>(false) ==> r is Put,
        found matches Err(m) ==> (r matches IndexCall::Done(IndexWrite::Failed(f)) && f == m),
{
    match found {
        Ok(true) => IndexCall::Done(IndexWrite::Duplicate(to_owned_string(index))),
        Ok(false) => IndexCall::Put,
        Err(m) => IndexCall::Done(IndexWrite::Failed(m)),
    }
}

/// The outcome of writing the entry.
pub fn after_index_put(put: Result<(), String>) -> (r: IndexWrite)
    ensures
        put is Ok ==> r is Written,
        put matches Err(m) ==> (r matches IndexWrite::Failed(f) && f == m),
{
    match put {
        Ok(()) => IndexWrite::Written,
        Err(m) => IndexWrite::Failed(m),
    }
}

/// Whether a new node's BM25 document is written: the index follows writes of its label
/// and the node has properties.
pub fn bm25_insert_due(has_bm25: bool, skip_writes: bool, exclude_labels: &Vec<String>, label: &str, has_properties: bool) -> (r: bool)
    ensures
        r == (has_bm25 && !skip_writes && !label_listed(exclude_labels@, label@) && has_properties),
{
    has_properties && bm25_write_allowed(has_bm25, skip_writes, exclude_labels, label)
}

/// The outcome of inserting a node, built up as its writes happen: each failed write
/// replaces the error reported so far, so the last failure is the one reported.
pub struct Insertion {
    pub error: Option<EngineError>,
}

/// The error a failed index write reports (its variant and text, as [`error_view`]
/// gives them); `None` when the write did not fail.
pub open spec fn index_write_error(w: IndexWrite) -> Option<(int, Seq<char>)> {
    match w {
        IndexWrite::NotRegistered(ix) => Some((0int, "Secondary Index "@ + ix@ + " not found"@)),
        IndexWrite::Duplicate(ix) => Some((1int, "Unique index '"@ + ix@ + "' already contains this value"@)),
        IndexWrite::Failed(m) => Some((2int, m@)),
        _ => None,
    }
}

/// The content of an engine error: the variant and its text.
pub open spec fn error_view(e: EngineError) -> (int, Seq<char>) {
    match e {
        EngineError::New(m) => (0, m@),
        EngineError::DuplicateKey(m) => (1, m@),
        EngineError::Storage(m) => (2, m@),
        EngineError::VectorError(m) => (3, m@),
        EngineError::ConversionError(m) => (4, m@),
        EngineError::NodeNotFound => (5, Seq::empty()),
    }
}

/// The content of an optional error.
pub open spec fn opt_error_view(e: Option<EngineError>) -> Option<(int, Seq<char>)> {
    match e {
        Some(x) => Some(error_view(x)),
        None => None,
    }
}

impl Insertion {
    /// Nothing has failed yet.
    pub fn new() -> (r: Insertion)
        ensures
            r.error is None,
    {
        Insertion { error: None }
    }

    /// Records the write of the node record itself.
    pub fn record_put(&mut self, put: Result<(), String>)
        ensures
            put matches Err(m) ==> opt_error_view(final(self).error) == Some((2int, m@)),
            put is Ok ==> opt_error_view(final(self).error) == opt_error_view(old(self).error),
    {
        if let Err(m) = put {
            self.error = Some(EngineError::Storage(m));
        }
    }

    /// Records what happened to one secondary index entry.
    pub fn record_index(&mut self, w: IndexWrite)
        ensures
            index_write_error(w) is Some ==> opt_error_view(final(self).error) == index_write_error(w),
            index_write_error(w) is None ==> opt_error_view(final(self).error) == opt_error_view(old(self).error),
    {
        match w {
            IndexWrite::NotRegistered(ix) => {
                self.error = Some(index_not_found(ix.as_str()));
            },
            IndexWrite::Duplicate(ix) => {
                self.error = Some(duplicate_key(ix.as_str()));
            },
            IndexWrite::Failed(m) => {
                self.error = Some(EngineError::Storage(m));
            },
            IndexWrite::NoValue => {},
            IndexWrite::Written => {},
        }
    }

    /// Records the BM25 document write (`None` when none was due).
    pub fn record_bm25(&mut self, r: Option<Result<(), String>>)
        ensures
            r matches Some(Err(m)) ==> opt_error_view(final(self).error) == Some((2int, m@)),
            !(r matches Some(Err(_))) ==> opt_error_view(final(self).error) == opt_error_view(old(self).error),
    {
        if let Some(Err(m)) = r {
            self.error = Some(EngineError::Storage(m));
        }
    }

    /// Whether the vector fields are to be inserted: only after every other write succeeded.
    pub fn vectors_due(&self) -> (r: bool)
        ensures
            r == self.error is None,
    {
        self.error.is_none()
    }

    /// Records a failed vector insertion for a field; the insertion of the remaining
    /// fields stops there.
    pub fn record_vector_failure(&mut self, field: &str, detail: &str)
        ensures
            opt_error_view(final(self).error) == Some(
                (3int, "Failed to insert vector for field '"@ + field@ + "': "@ + detail@),
            ),
    {
        let mut s = to_owned_string("Failed to insert vector for field '");
        push_str(&mut s, field);
        push_str(&mut s, "': ");
        push_str(&mut s, detail);
        self.error = Some(EngineError::VectorError(s));
    }

    /// The result of the insertion: the node when nothing failed, else the last error.
    pub fn finish<T>(self, node: T) -> (r: Result<T, EngineError>)
        ensures
            self.error is None ==> r == Ok::<T, EngineError>(node),
            self.error matches Some(e) ==> (r matches Err(x) && error_view(x) == error_view(e)),
    {
        match self.error {
            None => Ok(node),
            Some(e) => Err(e),
        }
    }
}

// ─── vector search ───────────────────────────────────────────────────────────

/// Why the vector index refused a search.
#[derive(Debug)]
pub enum VectorFailure {
    /// The index is empty.
    EntryPointNotFound,
    VectorNotFound(u128),
    InvalidVectorData,
    InvalidVectorLength,
    ConversionError(String),
    VectorCoreError(String),
    /// A vector that was already deleted, by the text of its id.
    AlreadyDeleted(String),
}

/// The error a refused search yields; `None` for an empty index, which yields nothing.
pub fn search_failure_error(f: VectorFailure) -> (r: Option<EngineError>)
    ensures
        f is EntryPointNotFound <==> r is None,
        f is InvalidVectorData ==> opt_error_view(r) == Some((3int, "invalid vector data"@)),
        f is InvalidVectorLength ==> opt_error_view(r) == Some((3int, "invalid vector dimensions!"@)),
        f matches VectorFailure::ConversionError(m) ==> opt_error_view(r) == Some(
            (3int, "conversion error: "@ + m@),
        ),
        f matches VectorFailure::VectorCoreError(m) ==> opt_error_view(r) == Some(
            (3int, "vector core error: "@ + m@),
        ),
        f matches VectorFailure::AlreadyDeleted(m) ==> opt_error_view(r) == Some(
            (3int, "vector already deleted for id "@ + m@),
        ),
        f matches VectorFailure::VectorNotFound(id) ==> (r matches Some(EngineError::VectorError(m)) && m@
            == "vector not found for id "@ + crate::text::decimal(id as nat)),
{
    match f {
        VectorFailure::EntryPointNotFound => None,
        VectorFailure::VectorNotFound(id) => {
            let mut s = to_owned_string("vector not found for id ");
            crate::text::push_decimal(&mut s, id);
            Some(EngineError::VectorError(s))
        },
        VectorFailure::InvalidVectorData => Some(EngineError::VectorError(to_owned_string("invalid vector data"))),
        VectorFailure::InvalidVectorLength => Some(
            EngineError::VectorError(to_owned_string("invalid vector dimensions!")),
        ),
        VectorFailure::ConversionError(m) => {
            let mut s = to_owned_string("conversion error: ");
            push_str(&mut s, m.as_str());
            Some(EngineError::VectorError(s))
        },
        VectorFailure::VectorCoreError(m) => {
            let mut s = to_owned_string("vector core error: ");
            push_str(&mut s, m.as_str());
            Some(EngineError::VectorError(s))
        },
        VectorFailure::AlreadyDeleted(m) => {
            let mut s = to_owned_string("vector already deleted for id ");
            push_str(&mut s, m.as_str());
            Some(EngineError::VectorError(s))
        },
    }
}

/// The items of a search, from the node lookups of the vectors found in order: a
/// vector whose node is gone (soft-deleted) is skipped, other failures are kept.
pub open spec fn search_items_spec<T>(lookups: Seq<Result<T, EngineError>>) -> Seq<Result<T, EngineError>>
    decreases lookups.len(),
{
    if lookups.len() == 0 {
        Seq::empty()
    } else {
        let rest = search_items_spec(lookups.drop_last());
        match lookups.last() {
            Err(EngineError::NodeNotFound) => rest,
            x => rest.push(x),
        }
    }
}

/// Keeps the results of the node lookups of a search but for vanished nodes.
pub fn search_items<T>(lookups: Vec<Result<T, EngineError>>) -> (r: Vec<Result<T, EngineError>>)
    ensures
        r@ == search_items_spec(lookups@),
{
    let ghost all = lookups@;
    let mut rest = lookups;
    let mut out: Vec<Result<T, EngineError>> = Vec::new();
    let ghost mut i: int = 0;
    while rest.len() > 0
        invariant
            0 <= i <= all.len(),
            rest@ == all.skip(i),
            out@ == search_items_spec(all.take(i)),
        decreases rest@.len(),
    {
        proof {
            assert(all.take(i + 1).drop_last() =~= all.take(i));
            assert(all.skip(i)[0] == all[i]);
            assert(all.skip(i).drop_first() =~= all.skip(i + 1));
        }
        let x = rest.remove(0);
        match x {
            Err(EngineError::NodeNotFound) => {},
            other => {
                out.push(other);
            },
        }
        proof {
            i = i + 1;
        }
    }
    proof {
        assert(all.take(i) =~= all);
    }
    out
}

// ─── dropping items ──────────────────────────────────────────────────────────

/// The kind of an item a drop step is given.
#[derive(Debug)]
pub enum DropItem {
    Node { id: u128, label: String },
    Edge { id: u128 },
    Vector { id: u128 },
    /// A vector node read without its vector data.
    VectorWithoutData { id: u128 },
    Empty,
    /// Any other item (a count, a path, a value), with its description.
    Other(String),
}

/// What dropping one item does.
#[derive(Debug, PartialEq, Eq, Structural)]
pub enum DropAction {
    /// Delete the node, then its BM25 document when `bm25` holds.
    Node { id: u128, bm25: bool },
    Edge { id: u128 },
    Vector { id: u128 },
    Nothing,
    /// The item cannot be dropped: an `Incorrect Type` error.
    Refuse,
}

/// The action for one item, given whether the BM25 index follows writes of its label.
pub open spec fn drop_action_spec(item: DropItem, bm25_for_label: bool) -> DropAction {
    match item {
        DropItem::Node { id, .. } => DropAction::Node { id, bm25: bm25_for_label },
        DropItem::Edge { id } => DropAction::Edge { id },
        DropItem::Vector { id } => DropAction::Vector { id },
        DropItem::VectorWithoutData { id } => DropAction::Vector { id },
        DropItem::Empty => DropAction::Nothing,
        DropItem::Other(_) => DropAction::Refuse,
    }
}

/// What dropping an item does: a node loses its BM25 document too when the index
/// follows writes of its label; edges and vectors are deleted; an empty item is skipped.
pub fn drop_action(item: &DropItem, has_bm25: bool, skip_writes: bool, exclude_labels: &Vec<String>) -> (r:
    DropAction)
    ensures
        r == drop_action_spec(
            *item,
            item matches DropItem::Node { label, .. } && has_bm25 && !skip_writes && !label_listed(
                exclude_labels@,
                label@,
            ),
        ),
{
    match item {
        DropItem::Node { id, label } => DropAction::Node {
            id: *id,
            bm25: bm25_write_allowed(has_bm25, skip_writes, exclude_labels, label.as_str()),
        },
        DropItem::Edge { id } => DropAction::Edge { id: *id },
        DropItem::Vector { id } => DropAction::Vector { id: *id },
        DropItem::VectorWithoutData { id } => DropAction::Vector { id: *id },
        DropItem::Empty => DropAction::Nothing,
        DropItem::Other(_) => DropAction::Refuse,
    }
}


/// The drop actions for the items from position `i` on, up to the first item that cannot
/// be dropped; failed items are skipped.
pub open spec fn drop_plan_spec(
    items: Seq<Result<DropItem, EngineError>>,
    has_bm25: bool,
    skip_writes: bool,
    exclude_labels: Seq<String>,
) -> (Seq<DropAction>, Option<Seq<char>>)
    decreases items.len(),
{
    if items.len() == 0 {
        (Seq::empty(), None)
    } else {
        let (acts, err) = drop_plan_spec(items.drop_last(), has_bm25, skip_writes, exclude_labels);
        if err is Some {
            (acts, err)
        } else {
            match items.last() {
                Err(_) => (acts, None),
                Ok(DropItem::Other(d)) => (acts, Some("Incorrect Type: "@ + d@)),
                Ok(item) => (
                    acts.push(
                        drop_action_spec(
                            item,
                            item matches DropItem::Node { label, .. } && has_bm25 && !skip_writes && !label_listed(
                                exclude_labels,
                                label@,
                            ),
                        ),
                    ),
                    None,
                ),
            }
        }
    }
}

/// A drop step over the items a traversal yields.
pub struct Drop<I> {
    pub iter: I,
}

impl Drop<Vec<Result<DropItem, EngineError>>> {
    /// The deletions a drop step performs, in order, for the items of a traversal: items
    /// the traversal failed to produce are skipped; an item that cannot be dropped stops
    /// the step with an `Incorrect Type` conversion error, after the deletions before it.
    pub fn drop_traversal(
        items: Vec<Result<DropItem, EngineError>>,
        has_bm25: bool,
        skip_writes: bool,
        exclude_labels: &Vec<String>,
    ) -> (r: (Vec<DropAction>, Option<EngineError>))
        ensures
            (r.0@, match r.1 {
                Some(EngineError::ConversionError(m)) => Some(m@),
                _ => None,
            }) == drop_plan_spec(items@, has_bm25, skip_writes, exclude_labels@),
            r.1 is Some ==> r.1 matches Some(EngineError::ConversionError(_)),
    {
        let mut actions: Vec<DropAction> = Vec::new();
        let mut i: usize = 0;
        while i < items.len()
            invariant
                i <= items@.len(),
                drop_plan_spec(items@.take(i as int), has_bm25, skip_writes, exclude_labels@) == (actions@, None::<Seq<char>>),
            decreases items@.len() - i,
        {
            assert(items@.take(i + 1).drop_last() =~= items@.take(i as int));
            match &items[i] {
                Err(_) => {},
                Ok(DropItem::Other(d)) => {
                    let mut m = to_owned_string("Incorrect Type: ");
                    push_str(&mut m, d.as_str());
                    proof {
                        lemma_drop_plan_stops(items@, has_bm25, skip_writes, exclude_labels@, i + 1);
                    }
                    return (actions, Some(EngineError::ConversionError(m)));
                },
                Ok(item) => {
                    let a = drop_action(item, has_bm25, skip_writes, exclude_labels);
                    actions.push(a);
                },
            }
            i = i + 1;
        }
        assert(items@.take(items@.len() as int) =~= items@);
        (actions, None)
    }
}

/// Once the plan of a prefix ends in an error, the plan of the whole list is the same.
proof fn lemma_drop_plan_stops(
    items: Seq<Result<DropItem, EngineError>>,
    has_bm25: bool,
    skip_writes: bool,
    exclude_labels: Seq<String>,
    k: int,
)
    requires
        0 <= k <= items.len(),
        drop_plan_spec(items.take(k), has_bm25, skip_writes, exclude_labels).1 is Some,
    ensures
        drop_plan_spec(items, has_bm25, skip_writes, exclude_labels) == drop_plan_spec(
            items.take(k),
            has_bm25,
            skip_writes,
            exclude_labels,
        ),
    decreases items.len() - k,
{
    if k < items.len() {
        assert(items.take(k + 1).drop_last() =~= items.take(k));
        lemma_drop_plan_stops(items, has_bm25, skip_writes, exclude_labels, k + 1);
    } else {
        assert(items.take(k) =~= items);
    }
}

/// One storage call of a drop step.
#[derive(Debug, PartialEq, Eq, Structural)]
pub enum DeleteCall {
    Node(u128),
    /// The BM25 document of a deleted node.
    Bm25Doc(u128),
    /// The BM25 document of a deleted node, where a failure is only reported, not an error.
    Bm25DocIfPossible(u128),
    Edge(u128),
    Vector(u128),
}

/// The storage calls of one drop action, in order: a node goes before its BM25 document.
pub open spec fn calls_of(a: DropAction) -> Seq<DeleteCall> {
    match a {
        DropAction::Node { id, bm25 } => if bm25 {
            seq![DeleteCall::Node(id), DeleteCall::Bm25Doc(id)]
        } else {
            seq![DeleteCall::Node(id)]
        },
        DropAction::Edge { id } => seq![DeleteCall::Edge(id)],
        DropAction::Vector { id } => seq![DeleteCall::Vector(id)],
        DropAction::Nothing => Seq::empty(),
        DropAction::Refuse => Seq::empty(),
    }
}

/// The storage calls of a list of drop actions, in order.
pub open spec fn calls_of_plan(actions: Seq<DropAction>) -> Seq<DeleteCall>
    decreases actions.len(),
{
    if actions.len() == 0 {
        Seq::empty()
    } else {
        calls_of_plan(actions.drop_last()) + calls_of(actions.last())
    }
}

/// A drop step going through its storage calls: the calls still to make are those from
/// `pos` on. The first failed call ends the step: no call after it is made.
pub struct DropRun {
    pub calls: Vec<DeleteCall>,
    pub pos: usize,
}

impl DropRun {
    /// The run of a drop plan: its storage calls, none made yet.
    pub fn new(actions: &Vec<DropAction>) -> (r: DropRun)
        ensures
            r.calls@ == calls_of_plan(actions@),
            r.pos == 0,
    {
        let mut calls: Vec<DeleteCall> = Vec::new();
        let mut i: usize = 0;
        while i < actions.len()
            invariant
                i <= actions@.len(),
                calls@ == calls_of_plan(actions@.take(i as int)),
            decreases actions@.len() - i,
        {
            assert(actions@.take(i + 1).drop_last() =~= actions@.take(i as int));
            let ghost before = calls@;
            match &actions[i] {
                DropAction::Node { id, bm25 } => {
                    calls.push(DeleteCall::Node(*id));
                    if *bm25 {
                        calls.push(DeleteCall::Bm25Doc(*id));
                    }
                },
                DropAction::Edge { id } => calls.push(DeleteCall::Edge(*id)),
                DropAction::Vector { id } => calls.push(DeleteCall::Vector(*id)),
                DropAction::Nothing => {},
                DropAction::Refuse => {},
            }
            i = i + 1;
            assert(calls@ =~= before + calls_of(actions@[i - 1]));
        }
        assert(actions@.take(actions@.len() as int) =~= actions@);
        DropRun { calls, pos: 0 }
    }

    /// The storage call to make next, or `None` when the step is over.
    pub fn next_call(&self) -> (r: Option<&DeleteCall>)
        ensures
            self.pos < self.calls@.len() ==> r == Some(&self.calls@[self.pos as int]),
            self.pos >= self.calls@.len() ==> r is None,
    {
        if self.pos < self.calls.len() {
            Some(&self.calls[self.pos])
        } else {
            None
        }
    }

    /// Takes the outcome of the call just made: a success, or a failure of a call that
    /// may fail (`Bm25DocIfPossible`), moves on to the next call; any other failure ends
    /// the step (no further call is made) and is the step's error.
    pub fn record(&mut self, outcome: Result<(), EngineError>) -> (r: Option<EngineError>)
        requires
            old(self).pos < old(self).calls@.len(),
        ensures
            final(self).calls@ == old(self).calls@,
            outcome is Ok || old(self).calls@[old(self).pos as int] is Bm25DocIfPossible ==> r is None
                && final(self).pos == old(self).pos + 1,
            outcome is Err && !(old(self).calls@[old(self).pos as int] is Bm25DocIfPossible) ==> final(self).pos
                == old(self).calls@.len() && r == outcome.err(),
    {
        let n = self.calls.len();
        let may_fail = match &self.calls[self.pos] {
            DeleteCall::Bm25DocIfPossible(_) => true,
            _ => false,
        };
        match outcome {
            Ok(()) => {
                self.pos = self.pos + 1;
                None
            },
            Err(e) => {
                if may_fail {
                    self.pos = self.pos + 1;
                    None
                } else {
                    self.pos = n;
                    Some(e)
                }
            },
        }
    }
}

// ─── rebuilding the BM25 index ───────────────────────────────────────────────

/// Why the BM25 index cannot be rebuilt now.
#[derive(Debug, Clone, Copy, PartialEq, Eq, Structural)]
pub enum RebuildRefusal {
    /// The server runs without a BM25 index.
    NotEnabled,
    /// Writes to the index are paused (`skip_bm25_on_write`).
    Paused,
}

impl RebuildRefusal {
    /// The message answered for the refusal.
    pub fn message(&self) -> (r: &'static str)
        ensures
            *self == RebuildRefusal::NotEnabled ==> r@
                == "BM25 is not enabled (set bm25: true in config and restart)"@,
            *self == RebuildRefusal::Paused ==> r@
                == "BM25 rebuild rejected: skip_bm25_on_write is active. Clear the flag via POST /settings before rebuilding."@,
    {
        match self {
            RebuildRefusal::NotEnabled => "BM25 is not enabled (set bm25: true in config and restart)",
            RebuildRefusal::Paused => "BM25 rebuild rejected: skip_bm25_on_write is active. Clear the flag via POST /settings before rebuilding.",
        }
    }
}

/// Whether a rebuild may start: there must be an index, and writes to it must not be
/// paused (a rebuild would wipe the index the pause is meant to spare).
pub fn rebuild_allowed(has_bm25: bool, skip_writes: bool) -> (r: Result<(), RebuildRefusal>)
    ensures
        !has_bm25 ==> r == Err::<(), RebuildRefusal>(RebuildRefusal::NotEnabled),
        has_bm25 && skip_writes ==> r == Err::<(), RebuildRefusal>(RebuildRefusal::Paused),
        has_bm25 && !skip_writes ==> r is Ok,
{
    if !has_bm25 {
        Err(RebuildRefusal::NotEnabled)
    } else if skip_writes {
        Err(RebuildRefusal::Paused)
    } else {
        Ok(())
    }
}

/// The number of nodes a rebuild commits at a time.
pub const REBUILD_CHUNK_SIZE: usize = 500;

/// What a rebuild did with one stored node.
#[derive(Debug, Clone, Copy, PartialEq, Eq, Structural)]
pub enum NodeRebuild {
    /// The node could not be decoded: skipped.
    Undecodable,
    /// Its label is excluded from the index: skipped.
    Excluded,
    /// It has no properties: nothing to index.
    NoProperties,
    /// The index refused its document: skipped.
    Failed,
    /// Its document was indexed.
    Indexed,
}

/// How many of the outcomes are indexed documents.
pub open spec fn indexed_count(outcomes: Seq<NodeRebuild>) -> nat
    decreases outcomes.len(),
{
    if outcomes.len() == 0 {
        0
    } else {
        indexed_count(outcomes.drop_last()) + if outcomes.last() == NodeRebuild::Indexed {
            1nat
        } else {
            0nat
        }
    }
}

proof fn lemma_indexed_count_bound(outcomes: Seq<NodeRebuild>)
    ensures
        indexed_count(outcomes) <= outcomes.len(),
    decreases outcomes.len(),
{
    if outcomes.len() > 0 {
        lemma_indexed_count_bound(outcomes.drop_last());
    }
}

/// The body answered for a rebuild: `{"ok":true,"indexed":N,"total":M}`, where `M` is the
/// number of stored nodes and `N` the number indexed.
pub fn rebuild_body(outcomes: &Vec<NodeRebuild>) -> (r: String)
    ensures
        r@ == "{\"ok\":true,\"indexed\":"@ + crate::text::decimal(indexed_count(outcomes@))
            + ",\"total\":"@ + crate::text::decimal(outcomes@.len()) + "}"@,
{
    let mut indexed: usize = 0;
    let mut i: usize = 0;
    while i < outcomes.len()
        invariant
            i <= outcomes@.len(),
            indexed == indexed_count(outcomes@.take(i as int)),
        decreases outcomes@.len() - i,
    {
        assert(outcomes@.take(i + 1).drop_last() =~= outcomes@.take(i as int));
        proof {
            lemma_indexed_count_bound(outcomes@.take(i as int));
        }
        if outcomes[i] == NodeRebuild::Indexed {
            indexed = indexed + 1;
        }
        i = i + 1;
    }
    assert(outcomes@.take(outcomes@.len() as int) =~= outcomes@);
    let mut s = to_owned_string("{\"ok\":true,\"indexed\":");
    crate::text::push_decimal(&mut s, indexed as u128);
    push_str(&mut s, ",\"total\":");
    crate::text::push_decimal(&mut s, outcomes.len() as u128);
    push_str(&mut s, "}");
    s
}

} // verus!
