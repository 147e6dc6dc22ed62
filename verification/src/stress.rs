//! The bookkeeping and response checks of the stress test tool.
use vstd::prelude::*;
use crate::json::{Json, json_u64};
use crate::text::{chars_of, decimal, push_char, push_decimal, push_str, to_owned_string};

verus! {

/// The outcome of one phase of a stress run.
#[derive(Debug)]
pub struct PhaseResult {
    pub name: String,
    pub passed: usize,
    pub failed: usize,
    /// Why each failed check failed, in order.
    pub notes: Vec<String>,
    pub duration_ms: u64,
}

impl PhaseResult {
    /// A phase with no checks yet.
    pub fn new(name: &str) -> (r: PhaseResult)
        ensures
            r.name@ == name@,
            r.passed == 0,
            r.failed == 0,
            r.notes@.len() == 0,
            r.duration_ms == 0,
    {
        PhaseResult { name: to_owned_string(name), passed: 0, failed: 0, notes: Vec::new(), duration_ms: 0 }
    }

    /// Counts a passed check.
    pub fn pass(&mut self)
        requires
            old(self).passed < usize::MAX,
        ensures
            final(self).passed == old(self).passed + 1,
            final(self).failed == old(self).failed,
            final(self).notes@ == old(self).notes@,
            final(self).name@ == old(self).name@,
            final(self).duration_ms == old(self).duration_ms,
    {
        self.passed = self.passed + 1;
    }

    /// Counts a failed check and notes why it failed.
    pub fn fail(&mut self, reason: String)
        requires
            old(self).failed < usize::MAX,
        ensures
            final(self).failed == old(self).failed + 1,
            final(self).passed == old(self).passed,
            final(self).notes@ == old(self).notes@.push(reason),
            final(self).name@ == old(self).name@,
            final(self).duration_ms == old(self).duration_ms,
    {
        self.failed = self.failed + 1;
        self.notes.push(reason);
    }

    /// The report of the phase: a summary line, the first five notes, and how many more
    /// notes there are.
    pub fn report_lines(&self) -> (r: Vec<String>)
        ensures
            r@.len() == 1 + (if self.notes@.len() > 5 {
                6
            } else {
                self.notes@.len() as int
            }),
            r@[0]@ == summary_line(self.name@, self.passed, self.failed, self.duration_ms),
            forall|i: int| 0 <= i < 5 && i < self.notes@.len() ==> #[trigger] r@[i + 1]@ == "    ! "@ + self.notes@[i]@,
            self.notes@.len() > 5 ==> r@[6]@ == "    ! ... and "@ + decimal((self.notes@.len() - 5) as nat)
                + " more failures"@,
    {
        let mut out: Vec<String> = Vec::new();
        out.push(summary_text(self.name.as_str(), self.passed, self.failed, self.duration_ms));
        let mut i: usize = 0;
        while i < 5 && i < self.notes.len()
            invariant
                i <= 5,
                i <= self.notes@.len(),
                out@.len() == 1 + i,
                out@[0]@ == summary_line(self.name@, self.passed, self.failed, self.duration_ms),
                forall|j: int| 0 <= j < i ==> #[trigger] out@[j + 1]@ == "    ! "@ + self.notes@[j]@,
            decreases 5 - i,
        {
            let mut line = to_owned_string("    ! ");
            push_str(&mut line, self.notes[i].as_str());
            out.push(line);
            i = i + 1;
        }
        if self.notes.len() > 5 {
            let mut line = to_owned_string("    ! ... and ");
            push_decimal(&mut line, (self.notes.len() - 5) as u128);
            push_str(&mut line, " more failures");
            out.push(line);
        }
        out
    }
}

/// `s` padded with spaces to at least `width` characters.
pub open spec fn pad_right(s: Seq<char>, width: nat) -> Seq<char> {
    if s.len() >= width {
        s
    } else {
        s + Seq::new((width - s.len()) as nat, |i: int| ' ')
    }
}

/// The summary line of a phase: `  <name padded to 40> passed=P failed=F (D ms)`.
pub open spec fn summary_line(name: Seq<char>, passed: usize, failed: usize, duration_ms: u64) -> Seq<char> {
    "  "@ + pad_right(name, 40) + " passed="@ + decimal(passed as nat) + " failed="@ + decimal(failed as nat)
        + " ("@ + decimal(duration_ms as nat) + " ms)"@
}

fn summary_text(name: &str, passed: usize, failed: usize, duration_ms: u64) -> (r: String)
    ensures
        r@ == summary_line(name@, passed, failed, duration_ms),
{
    let mut s = to_owned_string("  ");
    push_str(&mut s, name);
    let n = crate::text::chars_of(name).len();
    let ghost before = s@;
    let mut k = n;
    while k < 40
        invariant
            n == name@.len(),
            n <= k <= 40 || (n > 40 && k == n),
            s@ == before + Seq::new((k - n) as nat, |i: int| ' '),
        decreases 40 - k,
    {
        push_char(&mut s, ' ');
        assert(s@ =~= before + Seq::new((k + 1 - n) as nat, |i: int| ' '));
        k = k + 1;
    }
    assert(s@ =~= "  "@ + pad_right(name@, 40));
    push_str(&mut s, " passed=");
    push_decimal(&mut s, passed as u128);
    push_str(&mut s, " failed=");
    push_decimal(&mut s, failed as u128);
    push_str(&mut s, " (");
    push_decimal(&mut s, duration_ms as u128);
    push_str(&mut s, " ms)");
    s
}

// ─── response checks ─────────────────────────────────────────────────────────

/// Whether a member value counts as content: a non-empty array, or anything but null.
pub open spec fn value_has_content(v: Json) -> bool {
    match v {
        Json::Array(a) => a@.len() > 0,
        Json::Null => false,
        _ => true,
    }
}

/// Whether some member of an object has content.
pub open spec fn members_have_content(m: Seq<(String, Json)>) -> bool {
    exists|i: int| 0 <= i < m.len() && #[trigger] value_has_content(m[i].1)
}

/// Whether a response has content: a non-empty array, an object with a member that has
/// content, or any value but null.
pub open spec fn nonempty_spec(v: Json) -> bool {
    match v {
        Json::Array(a) => a@.len() > 0,
        Json::Object(m) => members_have_content(m@),
        Json::Null => false,
        _ => true,
    }
}

/// Whether a response has content (see [`nonempty_spec`]).
pub fn is_nonempty(v: &Json) -> (r: bool)
    ensures
        r == nonempty_spec(*v),
{
    match v {
        Json::Array(a) => a.len() > 0,
        Json::Object(m) => {
            let mut i: usize = 0;
            while i < m.len()
                invariant
                    i <= m@.len(),
                    *v == Json::Object(*m),
                    forall|j: int| 0 <= j < i ==> !#[trigger] value_has_content(m@[j].1),
                decreases m@.len() - i,
            {
                let has = match &m[i].1 {
                    Json::Array(a) => a.len() > 0,
                    Json::Null => false,
                    _ => true,
                };
                if has {
                    assert(value_has_content(m@[i as int].1));
                    assert(members_have_content(m@));
                    return true;
                }
                i = i + 1;
            }
            false
        },
        Json::Null => false,
        _ => true,
    }
}

/// The first member of an object for which `f` gives a value.
pub open spec fn first_member_with<T>(m: Seq<(String, Json)>, f: spec_fn(Json) -> Option<T>) -> Option<T>
    decreases m.len(),
{
    if m.len() == 0 {
        None
    } else {
        match f(m[0].1) {
            Some(x) => Some(x),
            None => first_member_with(m.drop_first(), f),
        }
    }
}

/// A count in a response: a number that fits in `u64`, or the first such member of an
/// object (`{"count": 42}`).
pub open spec fn count_spec(v: Json) -> Option<u64> {
    match v {
        Json::Number(n) => n.as_u64,
        Json::Object(m) => first_member_with(m@, |x: Json| json_u64(x)),
        _ => None,
    }
}

/// A boolean in a response: a boolean, or the first boolean member of an object
/// (`{"exists": true}`).
pub open spec fn bool_spec(v: Json) -> Option<bool> {
    match v {
        Json::Bool(b) => Some(b),
        Json::Object(m) => first_member_with(m@, |x: Json| crate::json::json_bool(x)),
        _ => None,
    }
}

proof fn lemma_first_member_skip<T>(m: Seq<(String, Json)>, f: spec_fn(Json) -> Option<T>, i: int)
    requires
        0 <= i <= m.len(),
        forall|j: int| 0 <= j < i ==> f(#[trigger] m[j].1) is None,
    ensures
        first_member_with(m, f) == first_member_with(m.skip(i), f),
    decreases i,
{
    if i > 0 {
        lemma_first_member_skip(m.drop_first(), f, i - 1);
        assert(m.drop_first().skip(i - 1) =~= m.skip(i));
    } else {
        assert(m.skip(0) =~= m);
    }
}

/// Reads a count from a response (see [`count_spec`]).
pub fn extract_count(v: &Json) -> (r: Option<u64>)
    ensures
        r == count_spec(*v),
{
    match v {
        Json::Number(n) => n.as_u64,
        Json::Object(m) => {
            let ghost f = |x: Json| json_u64(x);
            let mut i: usize = 0;
            while i < m.len()
                invariant
                    i <= m@.len(),
                    *v == Json::Object(*m),
                    f == (|x: Json| json_u64(x)),
                    forall|j: int| 0 <= j < i ==> f(#[trigger] m@[j].1) is None,
                decreases m@.len() - i,
            {
                let r = m[i].1.as_u64();
                if r.is_some() {
                    proof {
                        lemma_first_member_skip(m@, f, i as int);
                        assert(m@.skip(i as int)[0] == m@[i as int]);
                    }
                    return r;
                }
                i = i + 1;
            }
            proof {
                lemma_first_member_skip(m@, f, i as int);
                assert(m@.skip(i as int) =~= Seq::<(String, Json)>::empty());
            }
            None
        },
        _ => None,
    }
}

/// Reads a boolean from a response (see [`bool_spec`]).
pub fn extract_bool(v: &Json) -> (r: Option<bool>)
    ensures
        r == bool_spec(*v),
{
    match v {
        Json::Bool(b) => Some(*b),
        Json::Object(m) => {
            let ghost f = |x: Json| crate::json::json_bool(x);
            let mut i: usize = 0;
            while i < m.len()
                invariant
                    i <= m@.len(),
                    *v == Json::Object(*m),
                    f == (|x: Json| crate::json::json_bool(x)),
                    forall|j: int| 0 <= j < i ==> f(#[trigger] m@[j].1) is None,
                decreases m@.len() - i,
            {
                let r = m[i].1.as_bool();
                if r.is_some() {
                    proof {
                        lemma_first_member_skip(m@, f, i as int);
                        assert(m@.skip(i as int)[0] == m@[i as int]);
                    }
                    return r;
                }
                i = i + 1;
            }
            proof {
                lemma_first_member_skip(m@, f, i as int);
                assert(m@.skip(i as int) =~= Seq::<(String, Json)>::empty());
            }
            None
        },
        _ => None,
    }
}


/// The base URL of the server under test: the endpoint as given when it names its scheme
/// (`http://` or `https://`), else over `http://`; then `:` and the port.
pub open spec fn base_url_spec(endpoint: Seq<char>, port: u16) -> Seq<char> {
    if (endpoint.len() >= 7 && endpoint.take(7) == "http://"@) || (endpoint.len() >= 8 && endpoint.take(8)
        == "https://"@) {
        endpoint + ":"@ + decimal(port as nat)
    } else {
        "http://"@ + endpoint + ":"@ + decimal(port as nat)
    }
}

/// The base URL of the server under test (see [`base_url_spec`]).
pub fn base_url(endpoint: &str, port: u16) -> (r: String)
    ensures
        r@ == base_url_spec(endpoint@, port),
{
    let cs = crate::text::chars_of(endpoint);
    let http = crate::text::chars_of("http://");
    let https = crate::text::chars_of("https://");
    proof {
        reveal_strlit("http://");
        reveal_strlit("https://");
    }
    let has_scheme = crate::text::starts_with_chars(&cs, &http) || crate::text::starts_with_chars(&cs, &https);
    let mut s = if has_scheme {
        to_owned_string(endpoint)
    } else {
        let mut t = to_owned_string("http://");
        push_str(&mut t, endpoint);
        t
    };
    push_str(&mut s, ":");
    push_decimal(&mut s, port as u128);
    s
}


// ─── the traversal phase ─────────────────────────────────────────────────────

/// The first `n` characters of a text (all of it when shorter).
pub open spec fn clipped(s: Seq<char>, n: nat) -> Seq<char> {
    if s.len() <= n {
        s
    } else {
        s.take(n as int)
    }
}

fn push_clipped(out: &mut String, s: &str, n: usize)
    ensures
        final(out)@ == old(out)@ + clipped(s@, n as nat),
{
    let cs = chars_of(s);
    let mut i: usize = 0;
    while i < cs.len() && i < n
        invariant
            cs@ == s@,
            i <= cs@.len(),
            i <= n,
            out@ == old(out)@ + s@.take(i as int),
        decreases cs@.len() - i,
    {
        push_char(out, cs[i]);
        i = i + 1;
        assert(s@.take(i as int) =~= s@.take(i - 1).push(cs@[i - 1]));
    }
    assert(clipped(s@, n as nat) =~= s@.take(i as int));
}

/// One query of the traversal phase: the stored query to call, its one parameter (name
/// and text) if it has one, whether the answer must hold data, and the label a failure
/// is reported under.
#[derive(Debug)]
pub struct TraversalTask {
    pub query: String,
    pub param: Option<(String, String)>,
    pub expect_data: bool,
    pub label: String,
}

/// The content of a [`TraversalTask`].
pub struct TraversalTaskV {
    pub query: Seq<char>,
    pub param: Option<(Seq<char>, Seq<char>)>,
    pub expect_data: bool,
    pub label: Seq<char>,
}

impl View for TraversalTask {
    type V = TraversalTaskV;

    open spec fn view(&self) -> TraversalTaskV {
        TraversalTaskV {
            query: self.query@,
            param: match self.param {
                Some((k, v)) => Some((k@, v@)),
                None => None,
            },
            expect_data: self.expect_data,
            label: self.label@,
        }
    }
}

/// The contents of a list of tasks.
pub open spec fn tasks_view(ts: Seq<TraversalTask>) -> Seq<TraversalTaskV> {
    ts.map_values(|t: TraversalTask| t@)
}

/// The label of a task: the query, then in brackets `<kind>=` (when a kind is given) and
/// the first `clip` characters of the value.
pub open spec fn task_label(query: Seq<char>, kind: Option<Seq<char>>, value: Seq<char>, clip: nat) -> Seq<char> {
    query + "("@ + match kind {
        Some(k) => k + "="@,
        None => Seq::empty(),
    } + clipped(value, clip) + ")"@
}

/// The tasks calling `query` with `param` set to each value in turn.
pub open spec fn group_spec(
    query: Seq<char>,
    param: Seq<char>,
    values: Seq<String>,
    kind: Option<Seq<char>>,
    clip: nat,
    expect: bool,
) -> Seq<TraversalTaskV> {
    values.map_values(
        |v: String|
            TraversalTaskV {
                query,
                param: Some((param, v@)),
                expect_data: expect,
                label: task_label(query, kind, v@, clip),
            },
    )
}

fn push_group(
    out: &mut Vec<TraversalTask>,
    query: &str,
    param: &str,
    values: &[String],
    limit: usize,
    kind: Option<&str>,
    clip: usize,
    expect: bool,
)
    ensures
        tasks_view(final(out)@) == tasks_view(old(out)@) + group_spec(
            query@,
            param@,
            values@.take(if limit < values@.len() { limit as int } else { values@.len() as int }),
            match kind {
                Some(k) => Some(k@),
                None => None,
            },
            clip as nat,
            expect,
        ),
{
    let n = if limit < values.len() {
        limit
    } else {
        values.len()
    };
    let ghost start = tasks_view(out@);
    let ghost kv = match kind {
        Some(k) => Some(k@),
        None => None::<Seq<char>>,
    };
    let mut i: usize = 0;
    while i < n
        invariant
            n <= values@.len(),
            i <= n,
            tasks_view(out@) == start + group_spec(query@, param@, values@.take(i as int), kv, clip as nat, expect),
            kv == match kind {
                Some(k) => Some(k@),
                None => None::<Seq<char>>,
            },
        decreases n - i,
    {
        let mut label = to_owned_string(query);
        push_str(&mut label, "(");
        match kind {
            Some(k) => {
                push_str(&mut label, k);
                push_str(&mut label, "=");
            },
            None => {},
        }
        push_clipped(&mut label, values[i].as_str(), clip);
        push_str(&mut label, ")");
        let t = TraversalTask {
            query: to_owned_string(query),
            param: Some((to_owned_string(param), values[i].clone())),
            expect_data: expect,
            label,
        };
        let ghost before = out@;
        out.push(t);
        proof {
            assert(t@.label =~= task_label(query@, kv, values@[i as int]@, clip as nat));
            assert(values@.take(i + 1) =~= values@.take(i as int).push(values@[i as int]));
            assert(tasks_view(out@) =~= tasks_view(before).push(t@));
            assert(group_spec(query@, param@, values@.take(i + 1), kv, clip as nat, expect) =~= group_spec(
                query@,
                param@,
                values@.take(i as int),
                kv,
                clip as nat,
                expect,
            ).push(t@));
        }
        i = i + 1;
    }
}

/// A task without parameter, expecting data.
pub open spec fn whole_task(query: Seq<char>) -> TraversalTaskV {
    TraversalTaskV { query, param: None, expect_data: true, label: query + "()"@ }
}

fn push_whole(out: &mut Vec<TraversalTask>, query: &str)
    ensures
        tasks_view(final(out)@) == tasks_view(old(out)@).push(whole_task(query@)),
{
    let mut label = to_owned_string(query);
    push_str(&mut label, "()");
    let t = TraversalTask { query: to_owned_string(query), param: None, expect_data: true, label };
    let ghost before = out@;
    out.push(t);
    assert(tasks_view(out@) =~= tasks_view(before).push(t@));
}

/// The first `n` items of a list (all of them when shorter).
pub open spec fn first<T>(s: Seq<T>, n: int) -> Seq<T> {
    if n < s.len() {
        s.take(n)
    } else {
        s
    }
}

/// The queries of the traversal phase, given the people sampled in each group (by id),
/// the companies' names and the jobs' professions: per person the company or job query
/// (expecting data where the person has one, and taking any answer where not), the full
/// information of people with both, then queries on the first 15 companies, the first 10
/// jobs, the first 5 companies and jobs by name, and the three queries over all items.
pub open spec fn traversal_tasks_spec(
    with_company: Seq<String>,
    without_company: Seq<String>,
    with_job: Seq<String>,
    without_job: Seq<String>,
    with_both: Seq<String>,
    companies: Seq<String>,
    jobs: Seq<String>,
) -> Seq<TraversalTaskV> {
    group_spec("GetPersonCompany"@, "person_id"@, with_company, Some("has_company"@), 8, true)
        + group_spec("GetPersonCompany"@, "person_id"@, without_company, Some("no_company"@), 8, false)
        + group_spec("GetPersonJob"@, "person_id"@, with_job, Some("has_job"@), 8, true)
        + group_spec("GetPersonJob"@, "person_id"@, without_job, Some("no_job"@), 8, false)
        + group_spec("GetPersonFullInfo"@, "person_id"@, with_both, None, 8, true)
        + group_spec("getPeopleAtCompany"@, "company_name"@, first(companies, 15), None, 20, true)
        + group_spec("getCompanyJobs"@, "company_name"@, first(companies, 15), None, 20, true)
        + group_spec("getPeopleWithJob"@, "profession"@, first(jobs, 10), None, 20, true)
        + group_spec("getCompaniesOfferingJob"@, "profession"@, first(jobs, 10), None, 20, true)
        + group_spec("getCompanyByName"@, "name"@, first(companies, 5), None, 20, true)
        + group_spec("getJobByProfession"@, "profession"@, first(jobs, 5), None, 20, true)
        + seq![whole_task("getAllPeople"@), whole_task("getAllCompanies"@), whole_task("getAllJobs"@)]
}

/// The queries of the traversal phase (see [`traversal_tasks_spec`]).
pub fn traversal_tasks(
    with_company: &[String],
    without_company: &[String],
    with_job: &[String],
    without_job: &[String],
    with_both: &[String],
    companies: &[String],
    jobs: &[String],
) -> (r: Vec<TraversalTask>)
    ensures
        tasks_view(r@) == traversal_tasks_spec(
            with_company@,
            without_company@,
            with_job@,
            without_job@,
            with_both@,
            companies@,
            jobs@,
        ),
{
    let mut out: Vec<TraversalTask> = Vec::new();
    assert(tasks_view(out@) =~= Seq::<TraversalTaskV>::empty());
    push_group(&mut out, "GetPersonCompany", "person_id", with_company, with_company.len(), Some("has_company"), 8, true);
    push_group(&mut out, "GetPersonCompany", "person_id", without_company, without_company.len(), Some("no_company"), 8, false);
    push_group(&mut out, "GetPersonJob", "person_id", with_job, with_job.len(), Some("has_job"), 8, true);
    push_group(&mut out, "GetPersonJob", "person_id", without_job, without_job.len(), Some("no_job"), 8, false);
    push_group(&mut out, "GetPersonFullInfo", "person_id", with_both, with_both.len(), None, 8, true);
    push_group(&mut out, "getPeopleAtCompany", "company_name", companies, 15, None, 20, true);
    push_group(&mut out, "getCompanyJobs", "company_name", companies, 15, None, 20, true);
    push_group(&mut out, "getPeopleWithJob", "profession", jobs, 10, None, 20, true);
    push_group(&mut out, "getCompaniesOfferingJob", "profession", jobs, 10, None, 20, true);
    push_group(&mut out, "getCompanyByName", "name", companies, 5, None, 20, true);
    push_group(&mut out, "getJobByProfession", "profession", jobs, 5, None, 20, true);
    push_whole(&mut out, "getAllPeople");
    push_whole(&mut out, "getAllCompanies");
    push_whole(&mut out, "getAllJobs");
    proof {
        assert(with_company@.take(with_company@.len() as int) =~= with_company@);
        assert(without_company@.take(without_company@.len() as int) =~= without_company@);
        assert(with_job@.take(with_job@.len() as int) =~= with_job@);
        assert(without_job@.take(without_job@.len() as int) =~= without_job@);
        assert(with_both@.take(with_both@.len() as int) =~= with_both@);
        assert(tasks_view(out@) =~= traversal_tasks_spec(
            with_company@,
            without_company@,
            with_job@,
            without_job@,
            with_both@,
            companies@,
            jobs@,
        ));
    }
    out
}

/// The verdict on one answer of the traversal phase: `Err` with the note to record, or
/// `Ok` for a pass. A failed request fails with `<label>: HTTP error – <body>`; an answer
/// without data where data is expected fails with `<label>: expected data but got empty
/// – <body>`. `body_text` is the answer's JSON text.
pub fn judge_traversal(task: &TraversalTask, http_ok: bool, body: &Json, body_text: &str) -> (r: Result<(), String>)
    ensures
        !http_ok ==> r is Err && r->Err_0@ == task.label@ + ": HTTP error \u{2013} "@ + body_text@,
        http_ok && task.expect_data && !nonempty_spec(*body) ==> r is Err && r->Err_0@ == task.label@
            + ": expected data but got empty \u{2013} "@ + body_text@,
        http_ok && !(task.expect_data && !nonempty_spec(*body)) ==> r is Ok,
{
    if !http_ok {
        let mut m = task.label.clone();
        push_str(&mut m, ": HTTP error \u{2013} ");
        push_str(&mut m, body_text);
        Err(m)
    } else if task.expect_data && !is_nonempty(body) {
        let mut m = task.label.clone();
        push_str(&mut m, ": expected data but got empty \u{2013} ");
        push_str(&mut m, body_text);
        Err(m)
    } else {
        Ok(())
    }
}


// ─── the HNSW lifecycle phase ────────────────────────────────────────────────

/// What came back from a query: the answer (whether its status was a success, the JSON
/// body and its text), or why no answer came.
pub enum HttpAnswer {
    Reply { ok: bool, body: Json, text: String },
    Error(String),
}

/// Where the HNSW lifecycle phase stands.
#[derive(Debug, Clone, Copy, PartialEq, Eq, Structural)]
pub enum LifecycleStage {
    Start,
    InsertingFirst,
    SearchingFirst,
    ListingFirst,
    DeletingFirst,
    ListingAfterDelete,
    InsertingSecond,
    SearchingSecond,
    CleaningUp,
    Over,
}

/// What the host reports.
pub enum LifecycleEvent {
    Start,
    /// How many vectors of a batch were inserted.
    Inserted(usize),
    Answer(HttpAnswer),
}

/// What the host does next: insert a batch of random vectors under the first or the
/// second tag (labelled with the prefix and their position), search with the batch's
/// first vector (`k` = 5), list or delete the vectors of the first tag (or delete those
/// of the second), or finish.
#[derive(Debug)]
pub enum LifecycleAction {
    Insert { second: bool, count: usize, label_prefix: &'static str },
    Search { second: bool },
    ListFirst,
    Delete { second: bool },
    Finish,
}

/// The check an answer makes at a stage: `None` when it makes none, `Some(None)` for a
/// pass, `Some(Some(note))` for a failure with its note. `inserted` is the size of the
/// first batch and `tag` the first tag.
pub open spec fn lifecycle_check(stage: LifecycleStage, a: HttpAnswer, inserted: nat, tag: Seq<char>) -> Option<
    Option<Seq<char>>,
> {
    match stage {
        LifecycleStage::SearchingFirst => Some(
            match a {
                HttpAnswer::Reply { ok: true, body, text } => if nonempty_spec(body) {
                    None
                } else {
                    Some("SearchV returned empty after inserting "@ + decimal(inserted) + " vectors: "@ + text@)
                },
                HttpAnswer::Reply { ok: false, text, .. } => Some("SearchV HTTP error: "@ + text@),
                HttpAnswer::Error(e) => Some("SearchV error: "@ + e@),
            },
        ),
        LifecycleStage::ListingFirst => Some(
            match a {
                HttpAnswer::Reply { ok: true, body, text } => if nonempty_spec(body) {
                    None
                } else {
                    Some("skillVecsWithTag("@ + tag + ") returned empty: "@ + text@)
                },
                HttpAnswer::Reply { ok: false, text, .. } => Some("skillVecsWithTag HTTP error: "@ + text@),
                HttpAnswer::Error(e) => Some("skillVecsWithTag error: "@ + e@),
            },
        ),
        LifecycleStage::DeletingFirst => Some(
            match a {
                HttpAnswer::Reply { ok: true, .. } => None,
                HttpAnswer::Reply { ok: false, text, .. } => Some("deleteSkillVecsByTag failed: "@ + text@),
                HttpAnswer::Error(e) => Some("deleteSkillVecsByTag error: "@ + e@),
            },
        ),
        LifecycleStage::ListingAfterDelete => Some(
            match a {
                HttpAnswer::Reply { ok: true, body, text } => if nonempty_spec(body) {
                    Some("HNSW vectors still visible after delete: "@ + text@)
                } else {
                    None
                },
                HttpAnswer::Reply { ok: false, .. } => None,
                HttpAnswer::Error(e) => Some("skillVecsWithTag after delete error: "@ + e@),
            },
        ),
        LifecycleStage::SearchingSecond => Some(
            match a {
                HttpAnswer::Reply { ok: true, body, text } => if nonempty_spec(body) {
                    None
                } else {
                    Some("SearchV empty after re-insert: "@ + text@)
                },
                _ => None,
            },
        ),
        _ => None,
    }
}

fn joined_note(head: &str, mid: &str, tail: &str, end: &str) -> (r: String)
    ensures
        r@ == head@ + mid@ + tail@ + end@,
{
    let mut s = to_owned_string(head);
    push_str(&mut s, mid);
    push_str(&mut s, tail);
    push_str(&mut s, end);
    s
}

fn short_note(head: &str, mid: &str) -> (r: String)
    ensures
        r@ == head@ + mid@,
{
    let mut s = to_owned_string(head);
    push_str(&mut s, mid);
    s
}

/// The check an answer makes at a stage (see [`lifecycle_check`]).
pub fn judge_lifecycle(stage: LifecycleStage, a: &HttpAnswer, inserted: usize, tag: &str) -> (r: Option<
    Option<String>,
>)
    ensures
        match r {
            None => lifecycle_check(stage, *a, inserted as nat, tag@) is None,
            Some(None) => lifecycle_check(stage, *a, inserted as nat, tag@) == Some(None::<Seq<char>>),
            Some(Some(n)) => lifecycle_check(stage, *a, inserted as nat, tag@) == Some(Some(n@)),
        },
{
    match stage {
        LifecycleStage::SearchingFirst => Some(
            match a {
                HttpAnswer::Reply { ok: true, body, text } => if is_nonempty(body) {
                    None
                } else {
                    let mut s = to_owned_string("SearchV returned empty after inserting ");
                    push_decimal(&mut s, inserted as u128);
                    push_str(&mut s, " vectors: ");
                    push_str(&mut s, text.as_str());
                    Some(s)
                },
                HttpAnswer::Reply { ok: false, text, .. } => Some(short_note("SearchV HTTP error: ", text.as_str())),
                HttpAnswer::Error(e) => Some(short_note("SearchV error: ", e.as_str())),
            },
        ),
        LifecycleStage::ListingFirst => Some(
            match a {
                HttpAnswer::Reply { ok: true, body, text } => if is_nonempty(body) {
                    None
                } else {
                    Some(joined_note("skillVecsWithTag(", tag, ") returned empty: ", text.as_str()))
                },
                HttpAnswer::Reply { ok: false, text, .. } => Some(
                    short_note("skillVecsWithTag HTTP error: ", text.as_str()),
                ),
                HttpAnswer::Error(e) => Some(short_note("skillVecsWithTag error: ", e.as_str())),
            },
        ),
        LifecycleStage::DeletingFirst => Some(
            match a {
                HttpAnswer::Reply { ok: true, .. } => None,
                HttpAnswer::Reply { ok: false, text, .. } => Some(
                    short_note("deleteSkillVecsByTag failed: ", text.as_str()),
                ),
                HttpAnswer::Error(e) => Some(short_note("deleteSkillVecsByTag error: ", e.as_str())),
            },
        ),
        LifecycleStage::ListingAfterDelete => Some(
            match a {
                HttpAnswer::Reply { ok: true, body, text } => if is_nonempty(body) {
                    Some(short_note("HNSW vectors still visible after delete: ", text.as_str()))
                } else {
                    None
                },
                HttpAnswer::Reply { ok: false, .. } => None,
                HttpAnswer::Error(e) => Some(short_note("skillVecsWithTag after delete error: ", e.as_str())),
            },
        ),
        LifecycleStage::SearchingSecond => Some(
            match a {
                HttpAnswer::Reply { ok: true, body, text } => if is_nonempty(body) {
                    None
                } else {
                    Some(short_note("SearchV empty after re-insert: ", text.as_str()))
                },
                _ => None,
            },
        ),
        _ => None,
    }
}

/// The stage after an answer at `stage`, and what the host does next.
pub open spec fn after_answer(stage: LifecycleStage) -> (LifecycleStage, LifecycleAction) {
    match stage {
        LifecycleStage::SearchingFirst => (LifecycleStage::ListingFirst, LifecycleAction::ListFirst),
        LifecycleStage::ListingFirst => (LifecycleStage::DeletingFirst, LifecycleAction::Delete { second: false }),
        LifecycleStage::DeletingFirst => (LifecycleStage::ListingAfterDelete, LifecycleAction::ListFirst),
        LifecycleStage::ListingAfterDelete => (
            LifecycleStage::InsertingSecond,
            LifecycleAction::Insert { second: true, count: 5, label_prefix: "reinsertion_" },
        ),
        LifecycleStage::SearchingSecond => (LifecycleStage::CleaningUp, LifecycleAction::Delete { second: true }),
        _ => (LifecycleStage::Over, LifecycleAction::Finish),
    }
}

/// The stages that wait for the answer of a query.
pub open spec fn answer_stage(s: LifecycleStage) -> bool {
    s == LifecycleStage::SearchingFirst || s == LifecycleStage::ListingFirst || s == LifecycleStage::DeletingFirst
        || s == LifecycleStage::ListingAfterDelete || s == LifecycleStage::SearchingSecond || s
        == LifecycleStage::CleaningUp
}

/// The HNSW lifecycle phase of a stress run, with its checks so far.
pub struct HnswLifecycle {
    pub stage: LifecycleStage,
    pub result: PhaseResult,
    /// How many vectors of the first batch were inserted.
    pub inserted: usize,
    /// The first batch's tag.
    pub tag: String,
}

impl HnswLifecycle {
    /// One step of the phase: it inserts 20 vectors under the first tag (none inserted
    /// fails the phase, which ends there), searches with the first of them, lists them by
    /// tag, deletes them by tag, checks that listing finds none, inserts 5 under the
    /// second tag, searches with the first of those when any was inserted (an empty answer
    /// fails; a failed request does not), and deletes the second batch. Each answer
    /// counts as at most one check (see [`lifecycle_check`]).
    pub fn step(&mut self, ev: LifecycleEvent) -> (a: LifecycleAction)
        requires
            old(self).result.passed < usize::MAX,
            old(self).result.failed < usize::MAX,
        ensures
            final(self).tag == old(self).tag,
            final(self).result.name@ == old(self).result.name@,
            final(self).result.duration_ms == old(self).result.duration_ms,
            old(self).stage == LifecycleStage::Start ==> final(self).stage == LifecycleStage::InsertingFirst
                && a == (LifecycleAction::Insert { second: false, count: 20, label_prefix: "skill_" })
                && final(self).result == old(self).result && final(self).inserted == old(self).inserted,
            old(self).stage == LifecycleStage::InsertingFirst ==> (ev matches LifecycleEvent::Inserted(n) ==> ({
                &&& final(self).inserted == n
                &&& n == 0 ==> final(self).stage == LifecycleStage::Over && a == LifecycleAction::Finish
                    && final(self).result.failed == old(self).result.failed + 1 && final(self).result.passed
                    == old(self).result.passed && final(self).result.notes@.len() == old(self).result.notes@.len() + 1
                    && final(self).result.notes@.last()@ == "HNSW: no vectors could be inserted"@
                &&& n > 0 ==> final(self).stage == LifecycleStage::SearchingFirst && a == (LifecycleAction::Search {
                    second: false,
                }) && final(self).result.passed == old(self).result.passed + 1 && final(self).result.failed
                    == old(self).result.failed && final(self).result.notes@ == old(self).result.notes@
            })),
            old(self).stage == LifecycleStage::InsertingSecond ==> (ev matches LifecycleEvent::Inserted(m) ==> ({
                &&& final(self).result == old(self).result
                &&& final(self).inserted == old(self).inserted
                &&& m > 0 ==> final(self).stage == LifecycleStage::SearchingSecond && a == (LifecycleAction::Search {
                    second: true,
                })
                &&& m == 0 ==> final(self).stage == LifecycleStage::CleaningUp && a == (LifecycleAction::Delete {
                    second: true,
                })
            })),
            answer_stage(old(self).stage) ==> (ev matches LifecycleEvent::Answer(ans) ==> ({
                let check = lifecycle_check(old(self).stage, ans, old(self).inserted as nat, old(self).tag@);
                &&& (final(self).stage, a) == after_answer(old(self).stage)
                &&& final(self).inserted == old(self).inserted
                &&& check is None ==> final(self).result == old(self).result
                &&& check == Some(None::<Seq<char>>) ==> final(self).result.passed == old(self).result.passed + 1
                    && final(self).result.failed == old(self).result.failed && final(self).result.notes@
                    == old(self).result.notes@
                &&& check matches Some(Some(note)) ==> final(self).result.failed == old(self).result.failed + 1
                    && final(self).result.passed == old(self).result.passed && final(self).result.notes@.len()
                    == old(self).result.notes@.len() + 1 && final(self).result.notes@.last()@ == note
            })),
    {
        match self.stage {
            LifecycleStage::Start => {
                self.stage = LifecycleStage::InsertingFirst;
                return LifecycleAction::Insert { second: false, count: 20, label_prefix: "skill_" };
            },
            LifecycleStage::InsertingFirst => {
                if let LifecycleEvent::Inserted(n) = ev {
                    self.inserted = n;
                    if n == 0 {
                        self.result.fail(to_owned_string("HNSW: no vectors could be inserted"));
                        self.stage = LifecycleStage::Over;
                        return LifecycleAction::Finish;
                    }
                    self.result.pass();
                    self.stage = LifecycleStage::SearchingFirst;
                    return LifecycleAction::Search { second: false };
                }
            },
            LifecycleStage::InsertingSecond => {
                if let LifecycleEvent::Inserted(m) = ev {
                    if m > 0 {
                        self.stage = LifecycleStage::SearchingSecond;
                        return LifecycleAction::Search { second: true };
                    }
                    self.stage = LifecycleStage::CleaningUp;
                    return LifecycleAction::Delete { second: true };
                }
            },
            LifecycleStage::Over => {
                return LifecycleAction::Finish;
            },
            _ => {
                if let LifecycleEvent::Answer(ans) = ev {
                    let stage = self.stage;
                    match judge_lifecycle(stage, &ans, self.inserted, self.tag.as_str()) {
                        Some(None) => self.result.pass(),
                        Some(Some(note)) => self.result.fail(note),
                        None => {},
                    }
                    let (next, action) = match stage {
                        LifecycleStage::SearchingFirst => (LifecycleStage::ListingFirst, LifecycleAction::ListFirst),
                        LifecycleStage::ListingFirst => (
                            LifecycleStage::DeletingFirst,
                            LifecycleAction::Delete { second: false },
                        ),
                        LifecycleStage::DeletingFirst => (LifecycleStage::ListingAfterDelete, LifecycleAction::ListFirst),
                        LifecycleStage::ListingAfterDelete => (
                            LifecycleStage::InsertingSecond,
                            LifecycleAction::Insert { second: true, count: 5, label_prefix: "reinsertion_" },
                        ),
                        LifecycleStage::SearchingSecond => (
                            LifecycleStage::CleaningUp,
                            LifecycleAction::Delete { second: true },
                        ),
                        _ => (LifecycleStage::Over, LifecycleAction::Finish),
                    };
                    self.stage = next;
                    return action;
                }
            },
        }
        self.stage = LifecycleStage::Over;
        LifecycleAction::Finish
    }
}

} // verus!
