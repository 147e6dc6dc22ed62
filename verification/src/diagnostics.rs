//! Health and diagnostics reports, and the reading of process memory figures from the
//! text of `/proc/self/status` and the cgroup limit files.
use vstd::prelude::*;
use crate::runtime::{is_white_space, is_whitespace_char};
use crate::text::{chars_of, decimal, parse_unsigned, parse_u64, push_decimal, push_str, string_from_chars};

verus! {

// ─── reports ─────────────────────────────────────────────────────────────────

/// Counts describing the vector index.
#[derive(Debug, Clone, Copy, PartialEq, Eq, Structural)]
pub struct VectorStats {
    pub total: u64,
    pub active: u64,
    pub soft_deleted: u64,
    pub hnsw_edges: u64,
    pub entry_point_present: bool,
}

/// The text of a boolean.
pub open spec fn bool_json(b: bool) -> Seq<char> {
    if b {
        "true"@
    } else {
        "false"@
    }
}

fn push_bool(s: &mut String, b: bool)
    ensures
        final(s)@ == old(s)@ + bool_json(b),
{
    if b {
        push_str(s, "true");
    } else {
        push_str(s, "false");
    }
}

/// The body of `GET /diagnostics`.
pub open spec fn diagnostics_spec(
    nodes: u64,
    edges: u64,
    v: VectorStats,
    rss_kb: u64,
    limit_kb: u64,
    rss_pct: Seq<char>,
    threads: u32,
) -> Seq<char> {
    "{\"nodes\":"@ + decimal(nodes as nat) + ",\"edges\":"@ + decimal(edges as nat) + ",\"vectors\":{\"total\":"@
        + decimal(v.total as nat) + ",\"active\":"@ + decimal(v.active as nat) + ",\"soft_deleted\":"@ + decimal(
        v.soft_deleted as nat,
    ) + ",\"hnsw_edges\":"@ + decimal(v.hnsw_edges as nat) + ",\"entry_point_present\":"@ + bool_json(
        v.entry_point_present,
    ) + "},\"system\":{\"rss_kb\":"@ + decimal(rss_kb as nat) + ",\"memory_limit_kb\":"@ + decimal(
        limit_kb as nat,
    ) + ",\"rss_pct\":"@ + rss_pct + ",\"thread_count\":"@ + decimal(threads as nat) + "}}"@
}

/// The body of `GET /diagnostics`: node and edge counts, vector index counts, and the
/// process's memory and threads. `rss_pct` is the memory share already written with
/// one decimal (0.0 without a limit).
pub fn diagnostics_inner(
    nodes: u64,
    edges: u64,
    v: &VectorStats,
    rss_kb: u64,
    limit_kb: u64,
    rss_pct: &str,
    threads: u32,
) -> (r: String)
    ensures
        r@ == diagnostics_spec(nodes, edges, *v, rss_kb, limit_kb, rss_pct@, threads),
{
    let mut s = String::new();
    push_str(&mut s, "{\"nodes\":");
    push_decimal(&mut s, nodes as u128);
    push_str(&mut s, ",\"edges\":");
    push_decimal(&mut s, edges as u128);
    push_str(&mut s, ",\"vectors\":{\"total\":");
    push_decimal(&mut s, v.total as u128);
    push_str(&mut s, ",\"active\":");
    push_decimal(&mut s, v.active as u128);
    push_str(&mut s, ",\"soft_deleted\":");
    push_decimal(&mut s, v.soft_deleted as u128);
    push_str(&mut s, ",\"hnsw_edges\":");
    push_decimal(&mut s, v.hnsw_edges as u128);
    push_str(&mut s, ",\"entry_point_present\":");
    push_bool(&mut s, v.entry_point_present);
    push_str(&mut s, "},\"system\":{\"rss_kb\":");
    push_decimal(&mut s, rss_kb as u128);
    push_str(&mut s, ",\"memory_limit_kb\":");
    push_decimal(&mut s, limit_kb as u128);
    push_str(&mut s, ",\"rss_pct\":");
    push_str(&mut s, rss_pct);
    push_str(&mut s, ",\"thread_count\":");
    push_decimal(&mut s, threads as u128);
    push_str(&mut s, "}}");
    assert(Seq::<char>::empty() + "{\"nodes\":"@ =~= "{\"nodes\":"@);
    s
}

/// The health of the vector graph.
#[derive(Debug, Clone, Copy, PartialEq, Eq, Structural)]
pub enum HnswStatus {
    /// No active vector is unreachable.
    Healthy,
    /// At most 5% of the active vectors are unreachable.
    Degraded,
    /// More than 5% are unreachable.
    Broken,
}

/// The health of the vector graph given how many active vectors the search from the
/// entry point reaches.
pub open spec fn health_spec(total_active: u64, reachable: u64) -> HnswStatus {
    let unreachable = if reachable >= total_active {
        0
    } else {
        total_active - reachable
    };
    if total_active == 0 || unreachable == 0 {
        HnswStatus::Healthy
    } else if 20 * unreachable <= total_active {
        HnswStatus::Degraded
    } else {
        HnswStatus::Broken
    }
}

/// The name of a health status.
pub open spec fn status_name(s: HnswStatus) -> Seq<char> {
    match s {
        HnswStatus::Healthy => "healthy"@,
        HnswStatus::Degraded => "degraded"@,
        HnswStatus::Broken => "broken"@,
    }
}

/// Classifies the health of the vector graph.
pub fn hnsw_status(total_active: u64, reachable: u64) -> (r: HnswStatus)
    ensures
        r == health_spec(total_active, reachable),
{
    let unreachable = total_active.saturating_sub(reachable);
    if total_active == 0 || unreachable == 0 {
        HnswStatus::Healthy
    } else if unreachable <= total_active / 20 {
        HnswStatus::Degraded
    } else {
        HnswStatus::Broken
    }
}

/// The body of `GET /hnsw-health`.
pub fn hnsw_health_inner(total_active: u64, reachable: u64) -> (r: String)
    ensures
        r@ == "{\"status\":\""@ + status_name(health_spec(total_active, reachable)) + "\",\"total_active\":"@
            + decimal(total_active as nat) + ",\"reachable\":"@ + decimal(reachable as nat) + ",\"unreachable\":"@
            + decimal((if reachable >= total_active {
            0
        } else {
            total_active - reachable
        }) as nat) + "}"@,
{
    let status = hnsw_status(total_active, reachable);
    let unreachable = total_active.saturating_sub(reachable);
    let mut s = String::new();
    push_str(&mut s, "{\"status\":\"");
    match status {
        HnswStatus::Healthy => push_str(&mut s, "healthy"),
        HnswStatus::Degraded => push_str(&mut s, "degraded"),
        HnswStatus::Broken => push_str(&mut s, "broken"),
    }
    push_str(&mut s, "\",\"total_active\":");
    push_decimal(&mut s, total_active as u128);
    push_str(&mut s, ",\"reachable\":");
    push_decimal(&mut s, reachable as u128);
    push_str(&mut s, ",\"unreachable\":");
    push_decimal(&mut s, unreachable as u128);
    push_str(&mut s, "}");
    assert(Seq::<char>::empty() + "{\"status\":\""@ =~= "{\"status\":\""@);
    s
}

/// The body of `GET /hnsw-integrity`: symmetric when no edge lacks its reverse.
pub fn hnsw_integrity_inner(total_edges: u64, asymmetric_edges: u64) -> (r: String)
    ensures
        r@ == "{\"symmetric\":"@ + bool_json(asymmetric_edges == 0) + ",\"total_edges\":"@ + decimal(
            total_edges as nat,
        ) + ",\"asymmetric_edges\":"@ + decimal(asymmetric_edges as nat) + "}"@,
{
    let mut s = String::new();
    push_str(&mut s, "{\"symmetric\":");
    push_bool(&mut s, asymmetric_edges == 0);
    push_str(&mut s, ",\"total_edges\":");
    push_decimal(&mut s, total_edges as u128);
    push_str(&mut s, ",\"asymmetric_edges\":");
    push_decimal(&mut s, asymmetric_edges as u128);
    push_str(&mut s, "}");
    assert(Seq::<char>::empty() + "{\"symmetric\":"@ =~= "{\"symmetric\":"@);
    s
}

// ─── /proc/self/status ───────────────────────────────────────────────────────

/// The line that starts at position `i` of `s`: up to the next `\n` (not included).
pub open spec fn line_end(s: Seq<char>, i: int) -> int
    decreases s.len() - i,
{
    if i >= s.len() || s[i] == '\n' {
        i
    } else {
        line_end(s, i + 1)
    }
}

/// A line without its final `\r`, if it has one.
pub open spec fn strip_cr(l: Seq<char>) -> Seq<char> {
    if l.len() > 0 && l.last() == '\r' {
        l.drop_last()
    } else {
        l
    }
}

/// The lines of `s` from position `i` on, as `str::lines` gives them: split at `\n`,
/// each without a final `\r`, with no empty line after a final `\n`.
pub open spec fn lines_from(s: Seq<char>, i: int) -> Seq<Seq<char>>
    decreases s.len() - i,
{
    if i >= s.len() || i < 0 {
        Seq::empty()
    } else {
        let e = line_end(s, i);
        proof {
            lemma_line_end_bounds(s, i);
        }
        if e >= s.len() {
            seq![strip_cr(s.subrange(i, e))]
        } else {
            seq![strip_cr(s.subrange(i, e))] + lines_from(s, e + 1)
        }
    }
}

/// The whitespace-separated words of `s` from position `i` on.
pub open spec fn words_from(s: Seq<char>, i: int) -> Seq<Seq<char>>
    decreases s.len() - i,
{
    if i >= s.len() || i < 0 {
        Seq::empty()
    } else if is_white_space(s[i]) {
        words_from(s, i + 1)
    } else {
        let e = word_end(s, i);
        proof {
            lemma_word_end_bounds(s, i);
        }
        seq![s.subrange(i, e)] + words_from(s, e)
    }
}

/// The end of the word that starts at position `i`.
pub open spec fn word_end(s: Seq<char>, i: int) -> int
    decreases s.len() - i,
{
    if i >= s.len() || i < 0 || is_white_space(s[i]) {
        if i < 0 {
            0
        } else {
            i
        }
    } else {
        word_end(s, i + 1)
    }
}

/// The number on the first line of the status text that starts with `field`: its second
/// word read as a `u64`; `None` when no line starts with `field` or that word is no number.
pub open spec fn status_field_in(lines: Seq<Seq<char>>, field: Seq<char>) -> Option<u64>
    decreases lines.len(),
{
    if lines.len() == 0 {
        None
    } else if field.len() <= lines[0].len() && lines[0].take(field.len() as int) == field {
        let w = words_from(lines[0], 0);
        if w.len() >= 2 {
            match parse_unsigned(w[1], u64::MAX as nat) {
                Some(v) => Some(v as u64),
                None => None,
            }
        } else {
            None
        }
    } else {
        status_field_in(lines.drop_first(), field)
    }
}

pub proof fn lemma_line_end_bounds(s: Seq<char>, i: int)
    requires
        0 <= i <= s.len(),
    ensures
        i <= line_end(s, i) <= s.len(),
    decreases s.len() - i,
{
    if i < s.len() && s[i] != '\n' {
        lemma_line_end_bounds(s, i + 1);
    }
}

pub proof fn lemma_word_end_bounds(s: Seq<char>, i: int)
    requires
        0 <= i <= s.len(),
    ensures
        i <= word_end(s, i) <= s.len(),
        word_end(s, i) < s.len() ==> is_white_space(s[word_end(s, i)]),
        i < s.len() && !is_white_space(s[i]) ==> i < word_end(s, i),
    decreases s.len() - i,
{
    if i < s.len() && !is_white_space(s[i]) {
        lemma_word_end_bounds(s, i + 1);
    }
}

fn find_line_end(cs: &Vec<char>, i: usize) -> (e: usize)
    requires
        i <= cs@.len(),
    ensures
        e as int == line_end(cs@, i as int),
        i <= e <= cs@.len(),
{
    let mut e = i;
    proof {
        lemma_line_end_bounds(cs@, i as int);
    }
    while e < cs.len() && cs[e] != '\n'
        invariant
            i <= e <= cs@.len(),
            line_end(cs@, e as int) == line_end(cs@, i as int),
        decreases cs@.len() - e,
    {
        e = e + 1;
    }
    e
}

fn second_word(line: &Vec<char>) -> (r: Option<Vec<char>>)
    ensures
        r is Some <==> words_from(line@, 0).len() >= 2,
        r matches Some(w) ==> w@ == words_from(line@, 0)[1],
{
    let mut i: usize = 0;
    let mut count: usize = 0;
    while i < line.len()
        invariant
            i <= line@.len(),
            count <= 1,
            words_from(line@, 0).len() >= 2 <==> words_from(line@, i as int).len() + count >= 2,
            count == 0 ==> words_from(line@, 0) == words_from(line@, i as int),
            count == 1 ==> words_from(line@, 0).len() >= 1 && words_from(line@, 0).drop_first() =~= words_from(line@, i as int),
        decreases line@.len() - i,
    {
        if is_whitespace_char(line[i]) {
            i = i + 1;
        } else {
            let start = i;
            proof {
                lemma_word_end_bounds(line@, i as int);
            }
            while i < line.len() && !is_whitespace_char(line[i])
                invariant
                    start <= i <= line@.len(),
                    word_end(line@, i as int) == word_end(line@, start as int),
                decreases line@.len() - i,
            {
                i = i + 1;
            }
            let ghost ws = words_from(line@, start as int);
            assert(ws =~= seq![line@.subrange(start as int, i as int)] + words_from(line@, i as int));
            assert(ws[0] == line@.subrange(start as int, i as int));
            if count == 1 {
                assert(words_from(line@, 0).drop_first() =~= ws);
                assert(words_from(line@, 0)[1] == words_from(line@, 0).drop_first()[0]);
                let mut w: Vec<char> = Vec::new();
                let mut k = start;
                while k < i
                    invariant
                        start <= k <= i <= line@.len(),
                        w@ == line@.subrange(start as int, k as int),
                    decreases i - k,
                {
                    w.push(line[k]);
                    assert(w@ =~= line@.subrange(start as int, k + 1));
                    k = k + 1;
                }
                return Some(w);
            }
            count = count + 1;
        }
    }
    None
}

/// Reads a field of `/proc/self/status` from its text: the number after `field` on the
/// first line that starts with it (`VmRSS:  524288 kB`, `Threads:    226`).
pub fn read_status_field(content: &str, field: &str) -> (r: Option<u64>)
    ensures
        r == status_field_in(lines_from(content@, 0), field@),
{
    let cs = chars_of(content);
    let fs = chars_of(field);
    let mut i: usize = 0;
    while i < cs.len()
        invariant
            cs@ == content@,
            fs@ == field@,
            i <= cs@.len(),
            status_field_in(lines_from(content@, 0), field@) == status_field_in(lines_from(cs@, i as int), field@),
        decreases cs@.len() - i,
    {
        let e = find_line_end(&cs, i);
        let mut line: Vec<char> = Vec::new();
        let mut k = i;
        while k < e
            invariant
                i <= k <= e <= cs@.len(),
                line@ == cs@.subrange(i as int, k as int),
            decreases e - k,
        {
            line.push(cs[k]);
            assert(line@ =~= cs@.subrange(i as int, k + 1));
            k = k + 1;
        }
        if line.len() > 0 && line[line.len() - 1] == '\r' {
            line.pop();
        }
        assert(line@ == strip_cr(cs@.subrange(i as int, e as int)));
        let ghost ls = lines_from(cs@, i as int);
        let ghost rest = if e as int >= cs@.len() {
            Seq::<Seq<char>>::empty()
        } else {
            lines_from(cs@, e + 1)
        };
        assert(ls == seq![line@] + rest);
        assert(ls[0] == line@);
        assert(ls.drop_first() =~= rest);
        if crate::text::starts_with_chars(&line, &fs) {
            let w = second_word(&line);
            return match w {
                Some(word) => {
                    let t = string_from_chars(&word);
                    parse_u64(t.as_str())
                },
                None => None,
            };
        }
        if e == cs.len() {
            assert(rest =~= Seq::<Seq<char>>::empty());
            return None;
        }
        i = e + 1;
    }
    assert(lines_from(cs@, i as int) =~= Seq::<Seq<char>>::empty());
    None
}

/// The resident memory of the process in KiB, from the text of `/proc/self/status`
/// (`None` where it cannot be read: 0).
pub fn read_rss_kb(status: Option<&str>) -> (r: u64)
    ensures
        status is None ==> r == 0,
        status matches Some(c) ==> r == (match status_field_in(lines_from(c@, 0), "VmRSS"@) {
            Some(v) => v,
            None => 0,
        }),
{
    match status {
        Some(c) => match read_status_field(c, "VmRSS") {
            Some(v) => v,
            None => 0,
        },
        None => 0,
    }
}

/// The number of threads of the process, from the text of `/proc/self/status`
/// (`None` where it cannot be read: 0); a larger count wraps to 32 bits.
pub fn read_thread_count(status: Option<&str>) -> (r: u32)
    ensures
        status is None ==> r == 0,
        status matches Some(c) ==> r == (match status_field_in(lines_from(c@, 0), "Threads"@) {
            Some(v) => v as u32,
            None => 0,
        }),
{
    match status {
        Some(c) => match read_status_field(c, "Threads") {
            Some(v) => v as u32,
            None => 0,
        },
        None => 0,
    }
}

// ─── cgroup limits ───────────────────────────────────────────────────────────

/// The index of the first character of `s` that is not whitespace (its length when none).
pub open spec fn first_non_ws(s: Seq<char>, i: int) -> int
    decreases s.len() - i,
{
    if i >= s.len() || i < 0 || !is_white_space(s[i]) {
        i
    } else {
        first_non_ws(s, i + 1)
    }
}

/// One past the index of the last character of `s` below `j` that is not whitespace.
pub open spec fn last_non_ws(s: Seq<char>, j: int) -> int
    decreases j,
{
    if j <= 0 || j > s.len() || !is_white_space(s[j - 1]) {
        j
    } else {
        last_non_ws(s, j - 1)
    }
}

/// `s` without leading and trailing whitespace (`str::trim`).
pub open spec fn trim_spec(s: Seq<char>) -> Seq<char> {
    let a = first_non_ws(s, 0);
    let b = last_non_ws(s, s.len() as int);
    if a >= b {
        Seq::empty()
    } else {
        s.subrange(a, b)
    }
}

proof fn lemma_first_non_ws_bounds(s: Seq<char>, i: int)
    requires
        0 <= i <= s.len(),
    ensures
        i <= first_non_ws(s, i) <= s.len(),
    decreases s.len() - i,
{
    if i < s.len() && is_white_space(s[i]) {
        lemma_first_non_ws_bounds(s, i + 1);
    }
}

proof fn lemma_last_non_ws_bounds(s: Seq<char>, j: int)
    requires
        0 <= j <= s.len(),
    ensures
        0 <= last_non_ws(s, j) <= j,
    decreases j,
{
    if j > 0 && is_white_space(s[j - 1]) {
        lemma_last_non_ws_bounds(s, j - 1);
    }
}

/// Trims whitespace from both ends of a text.
pub fn trim_text(s: &str) -> (r: String)
    ensures
        r@ == trim_spec(s@),
{
    let cs = chars_of(s);
    let mut a: usize = 0;
    proof {
        lemma_first_non_ws_bounds(cs@, 0);
    }
    while a < cs.len() && is_whitespace_char(cs[a])
        invariant
            cs@ == s@,
            a <= cs@.len(),
            first_non_ws(cs@, a as int) == first_non_ws(cs@, 0),
        decreases cs@.len() - a,
    {
        a = a + 1;
    }
    let mut b: usize = cs.len();
    proof {
        lemma_last_non_ws_bounds(cs@, cs@.len() as int);
    }
    while b > 0 && is_whitespace_char(cs[b - 1])
        invariant
            cs@ == s@,
            b <= cs@.len(),
            last_non_ws(cs@, b as int) == last_non_ws(cs@, cs@.len() as int),
        decreases b,
    {
        b = b - 1;
    }
    if a >= b {
        return String::new();
    }
    let mut out: Vec<char> = Vec::new();
    let mut k = a;
    while k < b
        invariant
            a <= k <= b <= cs@.len(),
            out@ == cs@.subrange(a as int, k as int),
        decreases b - k,
    {
        out.push(cs[k]);
        assert(out@ =~= cs@.subrange(a as int, k + 1));
        k = k + 1;
    }
    string_from_chars(&out)
}

/// The value cgroup v1 uses for "no limit" (and anything above it).
pub const CGROUP_V1_UNLIMITED: u64 = 0x7FFF_FFFF_FFFF_F000;

/// The memory limit of the container in KiB, from the text of cgroup v2's `memory.max`
/// and of cgroup v1's `memory.limit_in_bytes` (each `None` when it cannot be read): the
/// first that holds a limit wins; 0 for no limit.
pub open spec fn cgroup_limit_spec(v2: Option<Seq<char>>, v1: Option<Seq<char>>) -> u64 {
    let from_v2 = match v2 {
        Some(c) => if trim_spec(c) != "max"@ {
            parse_unsigned(trim_spec(c), u64::MAX as nat)
        } else {
            None
        },
        None => None,
    };
    match from_v2 {
        Some(b) => (b / 1024) as u64,
        None => match v1 {
            Some(c) => match parse_unsigned(trim_spec(c), u64::MAX as nat) {
                Some(b) => if b < CGROUP_V1_UNLIMITED {
                    (b / 1024) as u64
                } else {
                    0
                },
                None => 0,
            },
            None => 0,
        },
    }
}

/// Reads the memory limit of the container (see [`cgroup_limit_spec`]).
pub fn read_cgroup_limit_kb(v2: Option<&str>, v1: Option<&str>) -> (r: u64)
    ensures
        r == cgroup_limit_spec(
            match v2 {
                Some(c) => Some(c@),
                None => None,
            },
            match v1 {
                Some(c) => Some(c@),
                None => None,
            },
        ),
{
    if let Some(c) = v2 {
        let t = trim_text(c);
        if !crate::text::str_eq(t.as_str(), "max") {
            if let Some(bytes) = parse_u64(t.as_str()) {
                return bytes / 1024;
            }
        }
    }
    if let Some(c) = v1 {
        let t = trim_text(c);
        if let Some(bytes) = parse_u64(t.as_str()) {
            if bytes < CGROUP_V1_UNLIMITED {
                return bytes / 1024;
            }
        }
    }
    0
}

/// Whether the memory monitor warns: there is a limit, the resident memory is known,
/// and it is at least 80% of the limit.
pub fn memory_pressure(limit_kb: u64, rss_kb: u64) -> (r: bool)
    ensures
        r == (limit_kb != 0 && rss_kb != 0 && 100 * (rss_kb as int) >= 80 * (limit_kb as int)),
{
    if limit_kb == 0 || rss_kb == 0 {
        return false;
    }
    (rss_kb as u128) * 100 >= (limit_kb as u128) * 80
}

} // verus!
