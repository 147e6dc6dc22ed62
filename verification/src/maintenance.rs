//! Database maintenance answers: the compacted copy of the store.
use vstd::prelude::*;
use crate::text::{decimal, push_decimal, push_str, to_owned_string};

verus! {

/// The error when a compacted copy is already there.
pub fn compact_exists_message(compact_path: &str) -> (r: String)
    ensures
        r@ == "compact file already exists at "@ + compact_path@ + "; delete it before running /compact again"@,
{
    let mut s = to_owned_string("compact file already exists at ");
    push_str(&mut s, compact_path);
    push_str(&mut s, "; delete it before running /compact again");
    s
}

/// The error when the store could not be copied.
pub fn compact_failed_message(detail: &str) -> (r: String)
    ensures
        r@ == "compact: mdb_env_copy failed: "@ + detail@,
{
    let mut s = to_owned_string("compact: mdb_env_copy failed: ");
    push_str(&mut s, detail);
    s
}

/// The bytes a compaction saved: never less than zero.
pub open spec fn saved_bytes(original: u64, compacted: u64) -> int {
    if compacted >= original {
        0
    } else {
        original - compacted
    }
}

/// The share of the original size saved, in whole percent (0 for an empty original).
pub open spec fn saved_pct(original: u64, compacted: u64) -> int {
    if original > 0 {
        saved_bytes(original, compacted) * 100 / original as int
    } else {
        0
    }
}

/// The body answered after a compaction: the sizes before and after, what was saved
/// (in bytes and whole percent) and where the copy is.
pub fn compact_report(original: u64, compacted: u64, compact_path: &str) -> (r: String)
    requires
        saved_bytes(original, compacted) * 100 <= u64::MAX,
    ensures
        r@ == "{\"ok\":true,\"original_bytes\":"@ + decimal(original as nat) + ",\"compact_bytes\":"@ + decimal(
            compacted as nat,
        ) + ",\"saved_bytes\":"@ + decimal(saved_bytes(original, compacted) as nat) + ",\"saved_pct\":"@ + decimal(
            saved_pct(original, compacted) as nat,
        ) + ",\"compact_path\":\""@ + compact_path@ + "\"}"@,
{
    let saved = original.saturating_sub(compacted);
    let pct = if original > 0 {
        saved * 100 / original
    } else {
        0
    };
    let mut s = to_owned_string("{\"ok\":true,\"original_bytes\":");
    push_decimal(&mut s, original as u128);
    push_str(&mut s, ",\"compact_bytes\":");
    push_decimal(&mut s, compacted as u128);
    push_str(&mut s, ",\"saved_bytes\":");
    push_decimal(&mut s, saved as u128);
    push_str(&mut s, ",\"saved_pct\":");
    push_decimal(&mut s, pct as u128);
    push_str(&mut s, ",\"compact_path\":\"");
    push_str(&mut s, compact_path);
    push_str(&mut s, "\"}");
    s
}

} // verus!
