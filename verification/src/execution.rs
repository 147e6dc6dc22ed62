//! Running lowered operations (the runtime query endpoint) and compatibility steps
//! against the storage. Each operation is a small exchange: the step names the storage
//! call to make, the host makes it inside the request's one write transaction and
//! answers with what came back, until the step binds its result, finishes or fails.
//! The host rolls the transaction back when a step fails.
use vstd::prelude::*;
use crate::compat::{CompatStep, indexed_field_names, indexed_fields, endpoint_missing_message};
use crate::engine::{DropItem, DeleteCall, label_listed, bm25_write_allowed};
use crate::lower::{LoweredOp, MutationOp};
use crate::names::NameMap;
use crate::runtime::{edge_end, edge_end_spec};
use crate::text::{push_str, to_owned_string};
use crate::value::PropMap;

verus! {

/// Why an operation failed: its variables do not fit (a lowering error), or the storage
/// refused a call (an execution error).
#[derive(Debug)]
pub enum StepError {
    Lowering(String),
    Execution(String),
}

/// What the host answers after a storage call.
#[derive(Debug)]
pub enum StepEvent {
    /// Nothing yet: the operation starts.
    Start,
    /// The items the call reached or wrote.
    Items(Vec<DropItem>),
    /// The number of items a counting traversal reached.
    Counted(usize),
    /// The deletions were made.
    Done,
    /// The call failed, with the storage's message.
    Failed(String),
}

/// What the host does next for an operation.
#[derive(Debug)]
pub enum StepAction {
    /// Run the operation's traversal: from the items bound to its seed variable (none
    /// when that variable is unbound), or from the whole graph when it has none.
    Traverse,
    /// Run the operation's traversal in the same way, counting the items it reaches.
    Count,
    /// Read the nodes with the operation's ids; ids without a node are skipped.
    Lookup,
    /// Create the operation's node, entering it into the named secondary indices.
    AddNode { indices: Option<Vec<String>> },
    /// Create the operation's edge between two nodes.
    AddEdge { from: u128, to: u128 },
    /// Set the operation's properties on each of the items.
    Update { targets: Vec<DropItem> },
    /// Make the deletions in order, stopping at the first that fails (see `DropRun`).
    Drop { calls: Vec<DeleteCall> },
    /// Bind the items to the operation's name: the operation is done.
    Bind(Vec<DropItem>),
    /// Bind the number to the operation's name (no items stay bound): the operation is done.
    BindCount(usize),
    /// The operation is done and binds nothing.
    Finish,
    /// The operation failed.
    Fail(StepError),
}

/// Where an operation stands.
#[derive(Debug, Clone, Copy, PartialEq, Eq, Structural)]
pub enum StepState {
    Start,
    /// Waiting for the items of a traversal or a write, which the operation then binds.
    AwaitItems,
    /// Waiting for the items an update or a deletion applies to.
    AwaitTargets,
    /// Waiting for the number of items a counting traversal reached.
    AwaitCount,
    /// Waiting for the deletions to be made.
    AwaitDrop,
    Over,
}

// ─── deletions ───────────────────────────────────────────────────────────────

/// The deletions for one item: a node (and, when the BM25 index follows writes of its
/// label, its BM25 document, whose failure is only reported), or an edge; other items
/// are left alone.
pub open spec fn target_calls(t: DropItem, has_bm25: bool, skip_writes: bool, exclude: Seq<String>) -> Seq<
    DeleteCall,
> {
    match t {
        DropItem::Node { id, label } => if has_bm25 && !skip_writes && !label_listed(exclude, label@) {
            seq![DeleteCall::Node(id), DeleteCall::Bm25DocIfPossible(id)]
        } else {
            seq![DeleteCall::Node(id)]
        },
        DropItem::Edge { id } => seq![DeleteCall::Edge(id)],
        _ => Seq::empty(),
    }
}

/// The deletions for a list of items, in order.
pub open spec fn targets_calls(ts: Seq<DropItem>, has_bm25: bool, skip_writes: bool, exclude: Seq<String>) -> Seq<
    DeleteCall,
>
    decreases ts.len(),
{
    if ts.len() == 0 {
        Seq::empty()
    } else {
        targets_calls(ts.drop_last(), has_bm25, skip_writes, exclude) + target_calls(
            ts.last(),
            has_bm25,
            skip_writes,
            exclude,
        )
    }
}

/// The deletions for the items an operation reached.
pub fn delete_calls(targets: &Vec<DropItem>, has_bm25: bool, skip_writes: bool, exclude: &Vec<String>) -> (r: Vec<
    DeleteCall,
>)
    ensures
        r@ == targets_calls(targets@, has_bm25, skip_writes, exclude@),
{
    let mut out: Vec<DeleteCall> = Vec::new();
    let mut i: usize = 0;
    while i < targets.len()
        invariant
            i <= targets@.len(),
            out@ == targets_calls(targets@.take(i as int), has_bm25, skip_writes, exclude@),
        decreases targets@.len() - i,
    {
        assert(targets@.take(i + 1).drop_last() =~= targets@.take(i as int));
        let ghost before = out@;
        match &targets[i] {
            DropItem::Node { id, label } => {
                out.push(DeleteCall::Node(*id));
                if bm25_write_allowed(has_bm25, skip_writes, exclude, label.as_str()) {
                    out.push(DeleteCall::Bm25DocIfPossible(*id));
                }
            },
            DropItem::Edge { id } => out.push(DeleteCall::Edge(*id)),
            _ => {},
        }
        i = i + 1;
        assert(out@ =~= before + target_calls(targets@[i - 1], has_bm25, skip_writes, exclude@));
    }
    assert(targets@.take(targets@.len() as int) =~= targets@);
    out
}

// ─── small pieces ────────────────────────────────────────────────────────────

/// The message of an event that does not fit where the operation stands.
pub open spec fn out_of_order_message() -> Seq<char> {
    "storage answer out of order"@
}

fn out_of_order() -> (r: (StepState, StepAction))
    ensures
        r.0 == StepState::Over,
        r.1 matches StepAction::Fail(StepError::Execution(m)) && m@ == out_of_order_message(),
{
    (StepState::Over, StepAction::Fail(StepError::Execution(to_owned_string("storage answer out of order"))))
}

/// Whether `indices` names the secondary indices a new node with `fields` goes into.
pub open spec fn indices_for<T>(indices: Option<Vec<String>>, fields: PropMap, secondary: Map<Seq<char>, T>) -> bool {
    &&& indices is None <==> indexed_field_names(fields.entries@, secondary).len() == 0
    &&& indices matches Some(v) ==> v@.map_values(|s: String| s@) == indexed_field_names(fields.entries@, secondary)
}

/// The answer to an event once an operation waits: a failure ends it with an execution
/// error; the items it waits for are bound; anything else is out of order.
pub open spec fn await_items_ok(event: StepEvent, r: (StepState, StepAction)) -> bool {
    match event {
        StepEvent::Failed(m) => fails_in_execution(r, m@),
        StepEvent::Items(v) => r.0 == StepState::Over && r.1 == StepAction::Bind(v),
        _ => out_of_order_result(r),
    }
}

/// An operation ended with an execution error with the message `m`.
pub open spec fn fails_in_execution(r: (StepState, StepAction), m: Seq<char>) -> bool {
    r.0 == StepState::Over && (r.1 matches StepAction::Fail(StepError::Execution(e)) && e@ == m)
}

/// An operation ended with a lowering error with the message `m`.
pub open spec fn fails_in_lowering(r: (StepState, StepAction), m: Seq<char>) -> bool {
    r.0 == StepState::Over && (r.1 matches StepAction::Fail(StepError::Lowering(e)) && e@ == m)
}

/// An operation ended because an event did not fit.
pub open spec fn out_of_order_result(r: (StepState, StepAction)) -> bool {
    fails_in_execution(r, out_of_order_message())
}

fn failed(m: String) -> (r: (StepState, StepAction))
    ensures
        r.0 == StepState::Over,
        r.1 matches StepAction::Fail(StepError::Execution(e)) && e == m,
{
    (StepState::Over, StepAction::Fail(StepError::Execution(m)))
}

// ─── the runtime query endpoint ──────────────────────────────────────────────

/// One exchange of a lowered operation with the storage. A traversal runs and binds
/// what it reached. A new node is written with the secondary indices of its fields and
/// bound. A new edge joins the nodes bound to its two variables, each of which must hold
/// exactly one node (a lowering error otherwise). A deletion reaches its targets, deletes
/// the nodes and edges among them, and binds nothing reached; an update reaches its
/// targets, updates them and binds the updated items. A failed storage call ends the
/// operation with an execution error.
pub fn mutation_step<T>(
    op: &LoweredOp,
    bindings: &NameMap<Vec<DropItem>>,
    secondary: &NameMap<T>,
    state: StepState,
    event: StepEvent,
) -> (r: (StepState, StepAction))
    requires
        bindings.wf(),
        secondary.wf(),
    ensures
        state == StepState::Start ==> match op {
            LoweredOp::Traversal(_) => r.0 == StepState::AwaitItems && r.1 is Traverse,
            LoweredOp::Mutation { op: MutationOp::AddNode { fields, .. }, .. } => r.0 == StepState::AwaitItems
                && (r.1 matches StepAction::AddNode { indices } && indices_for(indices, *fields, secondary@)),
            LoweredOp::Mutation { op: MutationOp::AddEdge { from_var, to_var, .. }, .. } => match (
                edge_end_spec(bindings@, from_var@, "From"@),
                edge_end_spec(bindings@, to_var@, "To"@),
            ) {
                (Err(m), _) => fails_in_lowering(r, m),
                (Ok(_), Err(m)) => fails_in_lowering(r, m),
                (Ok(f), Ok(t)) => r.0 == StepState::AwaitItems && r.1 == StepAction::AddEdge { from: f, to: t },
            },
            LoweredOp::Mutation { op: MutationOp::DropNodes { .. }, .. } => r.0 == StepState::AwaitTargets
                && r.1 is Traverse,
            LoweredOp::Mutation { op: MutationOp::UpdateNodes { .. }, .. } => r.0 == StepState::AwaitTargets
                && r.1 is Traverse,
        },
        state == StepState::AwaitItems ==> await_items_ok(event, r),
        state == StepState::AwaitTargets ==> match event {
            StepEvent::Failed(m) => fails_in_execution(r, m@),
            StepEvent::Items(ts) => match op {
                LoweredOp::Mutation { op: MutationOp::DropNodes { .. }, .. } => r.0 == StepState::AwaitDrop
                    && (r.1 matches StepAction::Drop { calls } && calls@ == targets_calls(
                    ts@,
                    false,
                    false,
                    Seq::empty(),
                )),
                LoweredOp::Mutation { op: MutationOp::UpdateNodes { .. }, .. } => r.0 == StepState::AwaitItems
                    && r.1 == StepAction::Update { targets: ts },
                _ => out_of_order_result(r),
            },
            _ => out_of_order_result(r),
        },
        state == StepState::AwaitDrop ==> match event {
            StepEvent::Failed(m) => fails_in_execution(r, m@),
            StepEvent::Done => r.0 == StepState::Over && (r.1 matches StepAction::Bind(v) && v@.len() == 0),
            _ => out_of_order_result(r),
        },
        state == StepState::AwaitCount || state == StepState::Over ==> out_of_order_result(r),
{
    match state {
        StepState::Start => match op {
            LoweredOp::Traversal(_) => (StepState::AwaitItems, StepAction::Traverse),
            LoweredOp::Mutation { op: MutationOp::AddNode { fields, .. }, .. } => (
                StepState::AwaitItems,
                StepAction::AddNode { indices: indexed_fields(fields, secondary) },
            ),
            LoweredOp::Mutation { op: MutationOp::AddEdge { from_var, to_var, .. }, .. } => {
                match edge_end(bindings, from_var.as_str(), "From") {
                    Err(m) => (StepState::Over, StepAction::Fail(StepError::Lowering(m))),
                    Ok(f) => match edge_end(bindings, to_var.as_str(), "To") {
                        Err(m) => (StepState::Over, StepAction::Fail(StepError::Lowering(m))),
                        Ok(t) => (StepState::AwaitItems, StepAction::AddEdge { from: f, to: t }),
                    },
                }
            },
            LoweredOp::Mutation { op: MutationOp::DropNodes { .. }, .. } => (StepState::AwaitTargets, StepAction::Traverse),
            LoweredOp::Mutation { op: MutationOp::UpdateNodes { .. }, .. } => (
                StepState::AwaitTargets,
                StepAction::Traverse,
            ),
        },
        StepState::AwaitItems => match event {
            StepEvent::Failed(m) => failed(m),
            StepEvent::Items(v) => (StepState::Over, StepAction::Bind(v)),
            _ => out_of_order(),
        },
        StepState::AwaitTargets => match event {
            StepEvent::Failed(m) => failed(m),
            StepEvent::Items(ts) => match op {
                LoweredOp::Mutation { op: MutationOp::DropNodes { .. }, .. } => {
                    let none: Vec<String> = Vec::new();
                    (StepState::AwaitDrop, StepAction::Drop { calls: delete_calls(&ts, false, false, &none) })
                },
                LoweredOp::Mutation { op: MutationOp::UpdateNodes { .. }, .. } => (
                    StepState::AwaitItems,
                    StepAction::Update { targets: ts },
                ),
                _ => out_of_order(),
            },
            _ => out_of_order(),
        },
        StepState::AwaitDrop => match event {
            StepEvent::Failed(m) => failed(m),
            StepEvent::Done => (StepState::Over, StepAction::Bind(Vec::new())),
            _ => out_of_order(),
        },
        _ => out_of_order(),
    }
}

// ─── the compatibility endpoint ──────────────────────────────────────────────

/// The id of an item a new edge can end at; `None` for an item without one.
pub open spec fn item_id(t: DropItem) -> Option<u128> {
    match t {
        DropItem::Node { id, .. } => Some(id),
        DropItem::Edge { id } => Some(id),
        DropItem::Vector { id } => Some(id),
        DropItem::VectorWithoutData { id } => Some(id),
        _ => None,
    }
}

/// The id of the first item bound to a name, if it has one.
pub open spec fn first_id(bindings: Map<Seq<char>, Vec<DropItem>>, name: Seq<char>) -> Option<u128> {
    if bindings.contains_key(name) && bindings[name]@.len() > 0 {
        item_id(bindings[name]@[0])
    } else {
        None
    }
}

fn first_bound_id(bindings: &NameMap<Vec<DropItem>>, name: &str, which: &str) -> (r: Result<u128, String>)
    requires
        bindings.wf(),
    ensures
        r matches Ok(id) ==> first_id(bindings@, name@) == Some(id),
        r matches Err(m) ==> first_id(bindings@, name@) is None && m@ == endpoint_missing_message(which@, name@),
{
    let found = match bindings.get(name) {
        Some(items) => if items.len() > 0 {
            match &items[0] {
                DropItem::Node { id, .. } => Some(*id),
                DropItem::Edge { id } => Some(*id),
                DropItem::Vector { id } => Some(*id),
                DropItem::VectorWithoutData { id } => Some(*id),
                _ => None,
            }
        } else {
            None
        },
        None => None,
    };
    match found {
        Some(id) => Ok(id),
        None => {
            let mut m = to_owned_string("AddEdge: ");
            push_str(&mut m, which);
            push_str(&mut m, " '");
            push_str(&mut m, name);
            push_str(&mut m, "' not found");
            Err(m)
        },
    }
}

/// One exchange of a compatibility step with the storage. A traversal binds what it
/// reached, or with `count` the number of items. A lookup binds the nodes it found. A new
/// node is written with the secondary indices of its fields and bound. A new edge joins
/// the first items bound to its two names (an execution error `AddEdge: from_var|to_var
/// '<name>' not found` when a name holds no item with an id). An update reaches its
/// targets, updates them and binds them. A deletion reaches its targets and deletes the
/// nodes (with their BM25 documents where the index follows writes of their label; a
/// failed BM25 deletion is only reported) and edges, binding nothing. A failed storage
/// call ends the step with an execution error.
pub fn compat_step<T>(
    step: &CompatStep,
    bindings: &NameMap<Vec<DropItem>>,
    secondary: &NameMap<T>,
    has_bm25: bool,
    skip_writes: bool,
    exclude_labels: &Vec<String>,
    state: StepState,
    event: StepEvent,
) -> (r: (StepState, StepAction))
    requires
        bindings.wf(),
        secondary.wf(),
    ensures
        state == StepState::Start ==> match step {
            CompatStep::Traverse { count, .. } => if *count {
                r.0 == StepState::AwaitCount && r.1 is Count
            } else {
                r.0 == StepState::AwaitItems && r.1 is Traverse
            },
            CompatStep::LookupByUuid { .. } => r.0 == StepState::AwaitItems && r.1 is Lookup,
            CompatStep::AddNode { fields, .. } => r.0 == StepState::AwaitItems && (r.1 matches StepAction::AddNode {
                indices,
            } && indices_for(indices, *fields, secondary@)),
            CompatStep::AddEdge { from_var, to_var, .. } => match (
                first_id(bindings@, from_var@),
                first_id(bindings@, to_var@),
            ) {
                (None, _) => fails_in_execution(r, endpoint_missing_message("from_var"@, from_var@)),
                (Some(_), None) => fails_in_execution(r, endpoint_missing_message("to_var"@, to_var@)),
                (Some(f), Some(t)) => r.0 == StepState::AwaitItems && r.1 == StepAction::AddEdge { from: f, to: t },
            },
            CompatStep::UpdateProperties { .. } => r.0 == StepState::AwaitTargets && r.1 is Traverse,
            CompatStep::DropNodes { .. } => r.0 == StepState::AwaitTargets && r.1 is Traverse,
        },
        state == StepState::AwaitItems ==> await_items_ok(event, r),
        state == StepState::AwaitCount ==> match event {
            StepEvent::Failed(m) => fails_in_execution(r, m@),
            StepEvent::Counted(n) => r.0 == StepState::Over && r.1 == StepAction::BindCount(n),
            _ => out_of_order_result(r),
        },
        state == StepState::AwaitTargets ==> match event {
            StepEvent::Failed(m) => fails_in_execution(r, m@),
            StepEvent::Items(ts) => match step {
                CompatStep::DropNodes { .. } => r.0 == StepState::AwaitDrop && (r.1 matches StepAction::Drop {
                    calls,
                } && calls@ == targets_calls(ts@, has_bm25, skip_writes, exclude_labels@)),
                CompatStep::UpdateProperties { .. } => r.0 == StepState::AwaitItems && r.1 == StepAction::Update {
                    targets: ts,
                },
                _ => out_of_order_result(r),
            },
            _ => out_of_order_result(r),
        },
        state == StepState::AwaitDrop ==> match event {
            StepEvent::Failed(m) => fails_in_execution(r, m@),
            StepEvent::Done => r.0 == StepState::Over && r.1 is Finish,
            _ => out_of_order_result(r),
        },
        state == StepState::Over ==> out_of_order_result(r),
{
    match state {
        StepState::Start => match step {
            CompatStep::Traverse { count, .. } => if *count {
                (StepState::AwaitCount, StepAction::Count)
            } else {
                (StepState::AwaitItems, StepAction::Traverse)
            },
            CompatStep::LookupByUuid { .. } => (StepState::AwaitItems, StepAction::Lookup),
            CompatStep::AddNode { fields, .. } => (
                StepState::AwaitItems,
                StepAction::AddNode { indices: indexed_fields(fields, secondary) },
            ),
            CompatStep::AddEdge { from_var, to_var, .. } => match first_bound_id(bindings, from_var.as_str(), "from_var") {
                Err(m) => failed(m),
                Ok(f) => match first_bound_id(bindings, to_var.as_str(), "to_var") {
                    Err(m) => failed(m),
                    Ok(t) => (StepState::AwaitItems, StepAction::AddEdge { from: f, to: t }),
                },
            },
            CompatStep::UpdateProperties { .. } => (StepState::AwaitTargets, StepAction::Traverse),
            CompatStep::DropNodes { .. } => (StepState::AwaitTargets, StepAction::Traverse),
        },
        StepState::AwaitItems => match event {
            StepEvent::Failed(m) => failed(m),
            StepEvent::Items(v) => (StepState::Over, StepAction::Bind(v)),
            _ => out_of_order(),
        },
        StepState::AwaitCount => match event {
            StepEvent::Failed(m) => failed(m),
            StepEvent::Counted(n) => (StepState::Over, StepAction::BindCount(n)),
            _ => out_of_order(),
        },
        StepState::AwaitTargets => match event {
            StepEvent::Failed(m) => failed(m),
            StepEvent::Items(ts) => match step {
                CompatStep::DropNodes { .. } => (
                    StepState::AwaitDrop,
                    StepAction::Drop { calls: delete_calls(&ts, has_bm25, skip_writes, exclude_labels) },
                ),
                CompatStep::UpdateProperties { .. } => (StepState::AwaitItems, StepAction::Update { targets: ts }),
                _ => out_of_order(),
            },
            _ => out_of_order(),
        },
        StepState::AwaitDrop => match event {
            StepEvent::Failed(m) => failed(m),
            StepEvent::Done => (StepState::Over, StepAction::Finish),
            _ => out_of_order(),
        },
        StepState::Over => out_of_order(),
    }
}


// ─── a whole request ─────────────────────────────────────────────────────────

/// How an operation's step ended its exchange: it asks for a storage call, it is done
/// (it binds or finishes), or it failed.
pub enum OpOutcome {
    Storage,
    Done,
    Failed,
}

/// The outcome of an operation's action.
pub open spec fn outcome_of(a: StepAction) -> OpOutcome {
    match a {
        StepAction::Bind(_) => OpOutcome::Done,
        StepAction::BindCount(_) => OpOutcome::Done,
        StepAction::Finish => OpOutcome::Done,
        StepAction::Fail(_) => OpOutcome::Failed,
        _ => OpOutcome::Storage,
    }
}

/// What the host does next for a request.
#[derive(Debug)]
pub enum RequestAction {
    /// What the current operation asks (a storage call, or binding its result, after
    /// which the next operation starts).
    Op(StepAction),
    /// A mutation of a runtime query is done: bind its result (the action), then commit
    /// its writes; the next operation starts in a new transaction.
    CommitOp(StepAction),
    /// Every operation succeeded: commit the transaction.
    Commit,
    /// An operation failed: drop the transaction uncommitted, so nothing is written, and
    /// answer the error.
    Abort(StepError),
    /// The request is over; nothing to do.
    Idle,
}

/// The kinds of request actions, as the law about a request speaks of them.
pub enum RequestKind {
    /// A storage call of the current operation.
    Continue,
    /// The current operation is done; the next one starts.
    NextOp,
    Commit,
    Abort,
    Idle,
}

/// How a request goes on: from the operation at `pos` of `n` (and whether it is over),
/// given how the current operation's exchange ended, where it goes and what kind of
/// action it takes. Once every operation is done the request commits; the first failure
/// aborts it; after either it does nothing more.
pub open spec fn request_next(pos: nat, n: nat, over: bool, o: OpOutcome) -> (nat, bool, RequestKind) {
    if over {
        (pos, true, RequestKind::Idle)
    } else if pos >= n {
        (pos, true, RequestKind::Commit)
    } else {
        match o {
            OpOutcome::Storage => (pos, false, RequestKind::Continue),
            OpOutcome::Failed => (pos, true, RequestKind::Abort),
            OpOutcome::Done => ((pos + 1) as nat, false, RequestKind::NextOp),
        }
    }
}

/// The kind of a request action, given the outcome of the operation's action it came from.
pub open spec fn kind_of(a: RequestAction) -> RequestKind {
    match a {
        RequestAction::Op(s) => match outcome_of(s) {
            OpOutcome::Done => RequestKind::NextOp,
            _ => RequestKind::Continue,
        },
        RequestAction::CommitOp(_) => RequestKind::NextOp,
        RequestAction::Commit => RequestKind::Commit,
        RequestAction::Abort(_) => RequestKind::Abort,
        RequestAction::Idle => RequestKind::Idle,
    }
}

/// The kinds of actions a request takes when its operations' exchanges end as `outs`.
pub open spec fn request_kinds(pos: nat, n: nat, over: bool, outs: Seq<OpOutcome>) -> Seq<RequestKind>
    decreases outs.len(),
{
    if outs.len() == 0 {
        Seq::empty()
    } else {
        let (p, o, k) = request_next(pos, n, over, outs[0]);
        seq![k] + request_kinds(p, n, o, outs.drop_first())
    }
}

/// The number of operations finished within a list of request actions.
pub open spec fn ops_done(ks: Seq<RequestKind>) -> nat
    decreases ks.len(),
{
    if ks.len() == 0 {
        0
    } else {
        (if ks[0] is NextOp {
            1nat
        } else {
            0nat
        }) + ops_done(ks.drop_first())
    }
}

/// A request is atomic: it commits only after all of its operations are done and none
/// failed, and once it commits or aborts it takes no further action (a failed operation
/// is never followed by a storage call or a commit).
pub proof fn lemma_request_atomic(pos: nat, n: nat, outs: Seq<OpOutcome>)
    requires
        pos <= n,
    ensures
        forall|k: int|
            0 <= k < request_kinds(pos, n, false, outs).len() && #[trigger] request_kinds(pos, n, false, outs)[k] is Commit
                ==> pos + ops_done(request_kinds(pos, n, false, outs).take(k)) == n && forall|j: int|
                0 <= j < k ==> !(request_kinds(pos, n, false, outs)[j] is Abort),
        forall|j: int, k: int|
            #![trigger request_kinds(pos, n, false, outs)[j], request_kinds(pos, n, false, outs)[k]]
            0 <= j < k < request_kinds(pos, n, false, outs).len() && (request_kinds(pos, n, false, outs)[j] is Abort
                || request_kinds(pos, n, false, outs)[j] is Commit) ==> request_kinds(pos, n, false, outs)[k] is Idle,
    decreases outs.len(),
{
    let ks = request_kinds(pos, n, false, outs);
    if outs.len() > 0 {
        let (p, o, k0) = request_next(pos, n, false, outs[0]);
        let rest = request_kinds(p, n, o, outs.drop_first());
        assert(ks == seq![k0] + rest);
        if o {
            lemma_over_idle(p, n, outs.drop_first());
        } else {
            lemma_request_atomic(p, n, outs.drop_first());
        }
        assert forall|k: int| 0 <= k < ks.len() && #[trigger] ks[k] is Commit implies pos + ops_done(ks.take(k)) == n
            && forall|j: int| 0 <= j < k ==> !(ks[j] is Abort) by {
            if k > 0 {
                assert(ks[k] == rest[k - 1]);
                assert(ks.take(k).drop_first() =~= rest.take(k - 1));
                assert(ks.take(k)[0] == k0);
                assert forall|j: int| 0 <= j < k implies !(ks[j] is Abort) by {
                    if j > 0 {
                        assert(ks[j] == rest[j - 1]);
                    }
                }
            } else {
                assert(ks.take(0) =~= Seq::<RequestKind>::empty());
            }
        }
        assert forall|j: int, k: int|
            #![trigger ks[j], ks[k]]
            0 <= j < k < ks.len() && (ks[j] is Abort || ks[j] is Commit) implies ks[k] is Idle by {
            assert(ks[k] == rest[k - 1]);
            if j > 0 {
                assert(ks[j] == rest[j - 1]);
            }
        }
    }
}

/// Once a request is over, it only ever answers `Idle`.
proof fn lemma_over_idle(pos: nat, n: nat, outs: Seq<OpOutcome>)
    ensures
        forall|k: int| 0 <= k < request_kinds(pos, n, true, outs).len() ==> #[trigger] request_kinds(pos, n, true, outs)[k] is Idle,
    decreases outs.len(),
{
    if outs.len() > 0 {
        lemma_over_idle(pos, n, outs.drop_first());
        let ks = request_kinds(pos, n, true, outs);
        let rest = request_kinds(pos, n, true, outs.drop_first());
        assert forall|k: int| 0 <= k < ks.len() implies #[trigger] ks[k] is Idle by {
            if k > 0 {
                assert(ks[k] == rest[k - 1]);
            }
        }
    }
}

/// A request run went on from `old` to `new` on the action `a` an operation's step gave
/// (which left the operation at `next`), answering `r`: as `request_next` says; what it
/// hands to the host is `a` itself (with `Op` or `CommitOp`); an abort carries the step's
/// error; the operation stays where its step left it, or the next one starts.
pub open spec fn handed_on(old: RequestRun, new: RequestRun, n: nat, next: StepState, a: StepAction, r: RequestAction) -> bool {
    &&& (new.pos as nat, new.over, kind_of(r)) == request_next(old.pos as nat, n, old.over, outcome_of(a))
    &&& r matches RequestAction::Op(x) ==> x == a
    &&& r matches RequestAction::CommitOp(x) ==> x == a
    &&& r matches RequestAction::Abort(e) ==> a == StepAction::Fail(e)
    &&& outcome_of(a) is Storage ==> new.state == next
    &&& outcome_of(a) is Done ==> new.state == StepState::Start
}

/// A request going through its operations in order within one transaction.
pub struct RequestRun {
    /// The operation at hand.
    pub pos: usize,
    /// Where that operation stands.
    pub state: StepState,
    /// Whether the request committed or aborted.
    pub over: bool,
}

impl RequestRun {
    /// A request whose first operation is about to start.
    pub fn new() -> (r: RequestRun)
        ensures
            r.pos == 0,
            r.state == StepState::Start,
            !r.over,
    {
        RequestRun { pos: 0, state: StepState::Start, over: false }
    }

    /// Takes the action an operation's step gave (see `request_next`): a failure aborts
    /// the request, the end of the last operation's exchange is followed by a commit,
    /// and anything else is handed on.
    fn follow(&mut self, n: usize, next: StepState, a: StepAction) -> (r: RequestAction)
        requires
            !old(self).over,
            old(self).pos < n,
        ensures
            handed_on(*old(self), *final(self), n as nat, next, a, r),
            !(r is CommitOp),
    {
        match a {
            StepAction::Fail(e) => {
                self.over = true;
                RequestAction::Abort(e)
            },
            StepAction::Bind(v) => {
                self.pos = self.pos + 1;
                self.state = StepState::Start;
                RequestAction::Op(StepAction::Bind(v))
            },
            StepAction::BindCount(c) => {
                self.pos = self.pos + 1;
                self.state = StepState::Start;
                RequestAction::Op(StepAction::BindCount(c))
            },
            StepAction::Finish => {
                self.pos = self.pos + 1;
                self.state = StepState::Start;
                RequestAction::Op(StepAction::Finish)
            },
            other => {
                self.state = next;
                RequestAction::Op(other)
            },
        }
    }

    /// One exchange of a runtime query's request: the current operation's step (see
    /// `mutation_step`) on the host's answer, handed on; or the commit once every
    /// operation is done. As on the server, each mutation is its own transaction: when one
    /// is done, its writes are committed (`CommitOp`), so a later failure aborts only the
    /// operation at hand.
    pub fn plan_step<T>(
        &mut self,
        ops: &[LoweredOp],
        bindings: &NameMap<Vec<DropItem>>,
        secondary: &NameMap<T>,
        event: StepEvent,
    ) -> (r: RequestAction)
        requires
            bindings.wf(),
            secondary.wf(),
            old(self).pos <= ops@.len(),
        ensures
            final(self).pos <= ops@.len(),
            old(self).over ==> r is Idle && *final(self) == *old(self),
            !old(self).over && old(self).pos == ops@.len() ==> r is Commit && final(self).over,
            !old(self).over && old(self).pos < ops@.len() ==> exists|next: StepState, a: StepAction|
                #[trigger] call_ensures(
                    mutation_step::<T>,
                    (&ops@[old(self).pos as int], bindings, secondary, old(self).state, event),
                    (next, a),
                ) && handed_on(*old(self), *final(self), ops@.len() as nat, next, a, r) && (outcome_of(a) is Done ==> (
                r is CommitOp <==> ops@[old(self).pos as int] is Mutation)),
    {
        if self.over {
            return RequestAction::Idle;
        }
        if self.pos >= ops.len() {
            self.over = true;
            return RequestAction::Commit;
        }
        let is_mutation = match &ops[self.pos] {
            LoweredOp::Mutation { .. } => true,
            LoweredOp::Traversal(_) => false,
        };
        let step = mutation_step::<T>;
        let (next, a) = step(&ops[self.pos], bindings, secondary, self.state, event);
        let r = self.follow(ops.len(), next, a);
        match r {
            RequestAction::Op(x) => match x {
                StepAction::Bind(v) => if is_mutation {
                    RequestAction::CommitOp(StepAction::Bind(v))
                } else {
                    RequestAction::Op(StepAction::Bind(v))
                },
                other => RequestAction::Op(other),
            },
            other => other,
        }
    }

    /// One exchange of a compatibility request: the current step's exchange (see
    /// `compat_step`) on the host's answer, handed on; or the commit once every step is
    /// done. The whole request is one transaction: it commits only after every step
    /// succeeded (see `lemma_request_atomic`).
    pub fn compat_step<T>(
        &mut self,
        steps: &[CompatStep],
        bindings: &NameMap<Vec<DropItem>>,
        secondary: &NameMap<T>,
        has_bm25: bool,
        skip_writes: bool,
        exclude_labels: &Vec<String>,
        event: StepEvent,
    ) -> (r: RequestAction)
        requires
            bindings.wf(),
            secondary.wf(),
            old(self).pos <= steps@.len(),
        ensures
            final(self).pos <= steps@.len(),
            !(r is CommitOp),
            old(self).over ==> r is Idle && *final(self) == *old(self),
            !old(self).over && old(self).pos == steps@.len() ==> r is Commit && final(self).over,
            !old(self).over && old(self).pos < steps@.len() ==> exists|next: StepState, a: StepAction|
                #[trigger] call_ensures(
                    compat_step::<T>,
                    (
                        &steps@[old(self).pos as int],
                        bindings,
                        secondary,
                        has_bm25,
                        skip_writes,
                        exclude_labels,
                        old(self).state,
                        event,
                    ),
                    (next, a),
                ) && handed_on(*old(self), *final(self), steps@.len() as nat, next, a, r),
    {
        if self.over {
            return RequestAction::Idle;
        }
        if self.pos >= steps.len() {
            self.over = true;
            return RequestAction::Commit;
        }
        let step = compat_step::<T>;
        let (next, a) = step(
            &steps[self.pos],
            bindings,
            secondary,
            has_bm25,
            skip_writes,
            exclude_labels,
            self.state,
            event,
        );
        self.follow(steps.len(), next, a)
    }
}

} // verus!
