//! Decisions of the episodic memory kept for agents: which earlier run a new run
//! follows, which open questions it carries forward, how a run or a question changes
//! status, and the names of the indices the memory graph is searched by.
use vstd::prelude::*;
use crate::text::{str_eq, to_owned_string};
use crate::value::{Value, ValueV};

verus! {

/// The index of findings by thread id.
pub const FINDING_THREAD_ID: &'static str = "finding:thread_id";

/// The index of findings by entity id.
pub const FINDING_ENTITY_ID: &'static str = "finding:entity_id";

/// The index of open questions by thread id.
pub const QUESTION_THREAD_ID: &'static str = "question:thread_id";

/// The index of open questions by status.
pub const QUESTION_STATUS: &'static str = "question:status";

/// The index of agent runs by thread id.
pub const RUN_THREAD_ID: &'static str = "run:thread_id";

/// The index of run summaries by thread id.
pub const SUMMARY_THREAD_ID: &'static str = "summary:thread_id";

/// The names of all the indices of the memory graph, in the order they are configured.
pub fn all_indices() -> (r: Vec<&'static str>)
    ensures
        r@.len() == 6,
        r@[0]@ == FINDING_THREAD_ID@,
        r@[1]@ == FINDING_ENTITY_ID@,
        r@[2]@ == QUESTION_THREAD_ID@,
        r@[3]@ == QUESTION_STATUS@,
        r@[4]@ == RUN_THREAD_ID@,
        r@[5]@ == SUMMARY_THREAD_ID@,
{
    vec![FINDING_THREAD_ID, FINDING_ENTITY_ID, QUESTION_THREAD_ID, QUESTION_STATUS, RUN_THREAD_ID, SUMMARY_THREAD_ID]
}

/// The `status` property of a node's properties, read as a map built from them in
/// order: the last entry named `status` wins.
pub open spec fn status_of(props: Seq<(String, Value)>) -> Option<ValueV>
    decreases props.len(),
{
    if props.len() == 0 {
        None
    } else if props.last().0@ == "status"@ {
        Some(props.last().1@)
    } else {
        status_of(props.drop_last())
    }
}

/// Whether a node's `status` property is the text `status`.
pub open spec fn has_status(props: Seq<(String, Value)>, status: Seq<char>) -> bool {
    status_of(props) == Some(ValueV::String(status))
}

/// Whether a node's `status` property is the given text.
pub fn status_is(props: &Vec<(String, Value)>, status: &str) -> (r: bool)
    ensures
        r == has_status(props@, status@),
{
    let mut i: usize = props.len();
    assert(props@.take(i as int) =~= props@);
    while i > 0
        invariant
            i <= props@.len(),
            status_of(props@) == status_of(props@.take(i as int)),
        decreases i,
    {
        assert(props@.take(i as int).drop_last() =~= props@.take(i - 1));
        assert(props@.take(i as int).last() == props@[i - 1]);
        if str_eq(props[i - 1].0.as_str(), "status") {
            return match &props[i - 1].1 {
                Value::String(s) => str_eq(s.as_str(), status),
                _ => false,
            };
        }
        i = i - 1;
    }
    false
}

/// Whether a run is a candidate for the run a new run follows: another run that completed.
pub open spec fn completed_other(run_id: u128, run: (u128, Vec<(String, Value)>)) -> bool {
    run.0 != run_id && has_status(run.1@, "completed"@)
}

/// The run a new run follows: the completed run of the thread with the largest id,
/// other than the new run itself (interrupted and orphaned runs are skipped).
pub fn previous_completed_run(run_id: u128, runs: &Vec<(u128, Vec<(String, Value)>)>) -> (r: Option<u128>)
    ensures
        r is None <==> forall|i: int| 0 <= i < runs@.len() ==> !completed_other(run_id, #[trigger] runs@[i]),
        r matches Some(id) ==> (exists|i: int| 0 <= i < runs@.len() && completed_other(run_id, #[trigger] runs@[i])
            && runs@[i].0 == id) && forall|i: int|
            0 <= i < runs@.len() && completed_other(run_id, #[trigger] runs@[i]) ==> runs@[i].0 <= id,
{
    let mut best: Option<u128> = None;
    let mut i: usize = 0;
    while i < runs.len()
        invariant
            i <= runs@.len(),
            best is None <==> forall|j: int| 0 <= j < i ==> !completed_other(run_id, #[trigger] runs@[j]),
            best matches Some(id) ==> (exists|j: int| 0 <= j < i && completed_other(run_id, #[trigger] runs@[j])
                && runs@[j].0 == id) && forall|j: int|
                0 <= j < i && completed_other(run_id, #[trigger] runs@[j]) ==> runs@[j].0 <= id,
        decreases runs@.len() - i,
    {
        let id = runs[i].0;
        if id != run_id && status_is(&runs[i].1, "completed") {
            assert(completed_other(run_id, runs@[i as int]));
            best = match best {
                Some(b) => if b < id {
                    Some(id)
                } else {
                    Some(b)
                },
                None => Some(id),
            };
        }
        i = i + 1;
    }
    best
}

/// The ids of the questions that are still open, in order.
pub open spec fn open_question_ids(questions: Seq<(u128, Vec<(String, Value)>)>) -> Seq<u128>
    decreases questions.len(),
{
    if questions.len() == 0 {
        Seq::empty()
    } else if has_status(questions.last().1@, "open"@) {
        open_question_ids(questions.drop_last()).push(questions.last().0)
    } else {
        open_question_ids(questions.drop_last())
    }
}

/// The questions of a thread that a new run carries forward: those still open.
pub fn carried_questions(questions: &Vec<(u128, Vec<(String, Value)>)>) -> (r: Vec<u128>)
    ensures
        r@ == open_question_ids(questions@),
{
    let mut out: Vec<u128> = Vec::new();
    let mut i: usize = 0;
    while i < questions.len()
        invariant
            i <= questions@.len(),
            out@ == open_question_ids(questions@.take(i as int)),
        decreases questions@.len() - i,
    {
        assert(questions@.take(i + 1).drop_last() =~= questions@.take(i as int));
        if status_is(&questions[i].1, "open") {
            out.push(questions[i].0);
        }
        i = i + 1;
    }
    assert(questions@.take(questions@.len() as int) =~= questions@);
    out
}


// ─── status changes ──────────────────────────────────────────────────────────

/// A node's properties without the entries named `key`, in order.
pub open spec fn without_key(props: Seq<(String, Value)>, key: Seq<char>) -> Seq<(String, Value)>
    decreases props.len(),
{
    if props.len() == 0 {
        Seq::empty()
    } else if props.last().0@ == key {
        without_key(props.drop_last(), key)
    } else {
        without_key(props.drop_last(), key).push(props.last())
    }
}

/// A node's properties with its `status` set to the text `status`: the other properties
/// stay, in order, and one `status` entry ends the list. A run becomes `completed` or
/// `interrupted` this way, and an answered question `resolved`.
pub fn set_status(props: Vec<(String, Value)>, status: &str) -> (r: Vec<(String, Value)>)
    ensures
        r@.len() > 0,
        r@.drop_last() == without_key(props@, "status"@),
        r@.last().0@ == "status"@,
        r@.last().1@ == ValueV::String(status@),
        has_status(r@, status@),
{
    let ghost all = props@;
    let mut out: Vec<(String, Value)> = Vec::new();
    let mut rest = props;
    let n = rest.len();
    let mut i: usize = 0;
    while i < n
        invariant
            n == all.len(),
            i <= n,
            rest@ == all.skip(i as int),
            out@ == without_key(all.take(i as int), "status"@),
        decreases n - i,
    {
        let e = rest.remove(0);
        assert(e == all[i as int]);
        assert(all.take(i + 1).drop_last() =~= all.take(i as int));
        assert(all.skip(i as int).remove(0) =~= all.skip(i + 1));
        if !str_eq(e.0.as_str(), "status") {
            out.push(e);
        }
        i = i + 1;
    }
    assert(all.take(n as int) =~= all);
    let ghost kept = out@;
    out.push((to_owned_string("status"), Value::String(to_owned_string(status))));
    assert(out@.drop_last() =~= kept);
    out
}

/// The ids of the open questions of a list made of two parts are those of each part.
proof fn lemma_open_ids_concat(a: Seq<(u128, Vec<(String, Value)>)>, b: Seq<(u128, Vec<(String, Value)>)>)
    ensures
        open_question_ids(a + b) == open_question_ids(a) + open_question_ids(b),
    decreases b.len(),
{
    if b.len() == 0 {
        assert(a + b =~= a);
        assert(open_question_ids(b) =~= Seq::<u128>::empty());
        assert(open_question_ids(a) + open_question_ids(b) =~= open_question_ids(a));
    } else {
        lemma_open_ids_concat(a, b.drop_last());
        assert((a + b).drop_last() =~= a + b.drop_last());
        assert((a + b).last() == b.last());
        if has_status(b.last().1@, "open"@) {
            assert(open_question_ids(a) + open_question_ids(b) =~= (open_question_ids(a) + open_question_ids(
                b.drop_last(),
            )).push(b.last().0));
        } else {
            assert(open_question_ids(a) + open_question_ids(b) =~= open_question_ids(a) + open_question_ids(
                b.drop_last(),
            ));
        }
    }
}

/// Answering a question takes it, and it alone, out of what the next run carries
/// forward: once the `i`-th question's status is no longer `open` (its properties became
/// `props`), the questions carried are the open ones before it and after it.
pub proof fn lemma_answered_question_not_carried(
    questions: Seq<(u128, Vec<(String, Value)>)>,
    i: int,
    props: Vec<(String, Value)>,
)
    requires
        0 <= i < questions.len(),
        !has_status(props@, "open"@),
    ensures
        open_question_ids(questions.update(i, (questions[i].0, props))) == open_question_ids(questions.take(i))
            + open_question_ids(questions.skip(i + 1)),
{
    let q = questions.update(i, (questions[i].0, props));
    let one = seq![(questions[i].0, props)];
    assert(q =~= questions.take(i) + one + questions.skip(i + 1));
    lemma_open_ids_concat(questions.take(i) + one, questions.skip(i + 1));
    lemma_open_ids_concat(questions.take(i), one);
    assert(one.drop_last() =~= Seq::<(u128, Vec<(String, Value)>)>::empty());
    assert(one.last() == (questions[i].0, props));
    assert(open_question_ids(one.drop_last()) =~= Seq::<u128>::empty());
    assert(open_question_ids(one) =~= Seq::<u128>::empty());
    assert(open_question_ids(questions.take(i)) + open_question_ids(one) =~= open_question_ids(questions.take(i)));
}

/// A resolved question is not open.
pub proof fn lemma_resolved_is_not_open(props: Seq<(String, Value)>)
    requires
        has_status(props, "resolved"@),
    ensures
        !has_status(props, "open"@),
{
    assert("resolved"@.len() != "open"@.len()) by {
        reveal_strlit("resolved");
        reveal_strlit("open");
    }
}


/// A run that was interrupted is never the run a new run follows.
pub proof fn lemma_interrupted_run_not_followed(run_id: u128, run: (u128, Vec<(String, Value)>))
    requires
        has_status(run.1@, "interrupted"@),
    ensures
        !completed_other(run_id, run),
{
    assert("interrupted"@.len() != "completed"@.len()) by {
        reveal_strlit("interrupted");
        reveal_strlit("completed");
    }
}

/// The properties of the summary node a completed run writes: the summary text, the
/// numbers of findings and questions the run produced, and the run's and thread's ids.
pub fn summary_props(summary: &str, finding_count: u32, question_count: u32, run_id: u128, thread_id: u128) -> (r:
    Vec<(String, Value)>)
    ensures
        r@.len() == 5,
        r@[0].0@ == "summary"@ && r@[0].1@ == ValueV::String(summary@),
        r@[1].0@ == "finding_count"@ && r@[1].1@ == ValueV::U32(finding_count),
        r@[2].0@ == "question_count"@ && r@[2].1@ == ValueV::U32(question_count),
        r@[3].0@ == "run_id"@ && r@[3].1@ == ValueV::U128(run_id),
        r@[4].0@ == "thread_id"@ && r@[4].1@ == ValueV::U128(thread_id),
{
    vec![
        (to_owned_string("summary"), Value::String(to_owned_string(summary))),
        (to_owned_string("finding_count"), Value::U32(finding_count)),
        (to_owned_string("question_count"), Value::U32(question_count)),
        (to_owned_string("run_id"), Value::U128(run_id)),
        (to_owned_string("thread_id"), Value::U128(thread_id)),
    ]
}

} // verus!
