//! Traversal tool arguments: the steps a query chain is made of.
use vstd::prelude::*;
use crate::value::{Value, ValueV};

verus! {

/// A comparison used by a property filter.
#[derive(Debug, Clone, Copy, PartialEq, Eq, Structural)]
pub enum Operator {
    Eq,
    Neq,
    Gt,
    Gte,
    Lt,
    Lte,
}

/// What an out/in step lands on.
#[derive(Debug, Clone, Copy, PartialEq, Eq, Structural)]
pub enum EdgeType {
    Node,
    Vec,
}

/// One property condition: `key <operator> value`.
#[derive(Debug)]
pub struct FilterProperties {
    pub key: String,
    pub value: Value,
    pub operator: Option<Operator>,
}

/// The content of a [`FilterProperties`].
pub struct FilterPropertiesV {
    pub key: Seq<char>,
    pub value: ValueV,
    pub operator: Option<Operator>,
}

impl View for FilterProperties {
    type V = FilterPropertiesV;

    open spec fn view(&self) -> FilterPropertiesV {
        FilterPropertiesV { key: self.key@, value: self.value@, operator: self.operator }
    }
}

/// A filter: a disjunction of conjunctions of property conditions.
#[derive(Debug)]
pub struct FilterTraversal {
    pub properties: Option<Vec<Vec<FilterProperties>>>,
}

/// The content of a [`FilterTraversal`].
pub struct FilterTraversalV {
    pub properties: Option<Seq<Seq<FilterPropertiesV>>>,
}

/// The content of a list of property conditions.
pub open spec fn props_view(v: Seq<FilterProperties>) -> Seq<FilterPropertiesV> {
    v.map_values(|p: FilterProperties| p@)
}

/// The content of a list of lists of property conditions.
pub open spec fn prop_rows_view(v: Seq<Vec<FilterProperties>>) -> Seq<Seq<FilterPropertiesV>> {
    v.map_values(|row: Vec<FilterProperties>| props_view(row@))
}

impl View for FilterTraversal {
    type V = FilterTraversalV;

    open spec fn view(&self) -> FilterTraversalV {
        FilterTraversalV {
            properties: match self.properties {
                Some(rows) => Some(prop_rows_view(rows@)),
                None => None,
            },
        }
    }
}

/// The content of an optional filter.
pub open spec fn opt_filter_view(f: Option<FilterTraversal>) -> Option<FilterTraversalV> {
    match f {
        Some(x) => Some(x@),
        None => None,
    }
}

/// One step of a traversal chain.
#[derive(Debug)]
pub enum ToolArgs {
    NFromType { node_type: String },
    EFromType { edge_type: String },
    FilterItems { filter: FilterTraversal },
    OutStep { edge_label: String, edge_type: EdgeType, filter: Option<FilterTraversal> },
    InStep { edge_label: String, edge_type: EdgeType, filter: Option<FilterTraversal> },
    OutEStep { edge_label: String, filter: Option<FilterTraversal> },
    InEStep { edge_label: String, filter: Option<FilterTraversal> },
    SearchVec { vector: Vec<u64>, k: usize, min_score: Option<u64> },
    Limit { n: usize },
}

/// The content of a [`ToolArgs`].
pub enum ToolArgsV {
    NFromType { node_type: Seq<char> },
    EFromType { edge_type: Seq<char> },
    FilterItems { filter: FilterTraversalV },
    OutStep { edge_label: Seq<char>, edge_type: EdgeType, filter: Option<FilterTraversalV> },
    InStep { edge_label: Seq<char>, edge_type: EdgeType, filter: Option<FilterTraversalV> },
    OutEStep { edge_label: Seq<char>, filter: Option<FilterTraversalV> },
    InEStep { edge_label: Seq<char>, filter: Option<FilterTraversalV> },
    SearchVec { vector: Seq<u64>, k: usize, min_score: Option<u64> },
    Limit { n: usize },
}

impl View for ToolArgs {
    type V = ToolArgsV;

    open spec fn view(&self) -> ToolArgsV {
        match self {
            ToolArgs::NFromType { node_type } => ToolArgsV::NFromType { node_type: node_type@ },
            ToolArgs::EFromType { edge_type } => ToolArgsV::EFromType { edge_type: edge_type@ },
            ToolArgs::FilterItems { filter } => ToolArgsV::FilterItems { filter: filter@ },
            ToolArgs::OutStep { edge_label, edge_type, filter } => ToolArgsV::OutStep {
                edge_label: edge_label@,
                edge_type: *edge_type,
                filter: opt_filter_view(*filter),
            },
            ToolArgs::InStep { edge_label, edge_type, filter } => ToolArgsV::InStep {
                edge_label: edge_label@,
                edge_type: *edge_type,
                filter: opt_filter_view(*filter),
            },
            ToolArgs::OutEStep { edge_label, filter } => ToolArgsV::OutEStep {
                edge_label: edge_label@,
                filter: opt_filter_view(*filter),
            },
            ToolArgs::InEStep { edge_label, filter } => ToolArgsV::InEStep {
                edge_label: edge_label@,
                filter: opt_filter_view(*filter),
            },
            ToolArgs::SearchVec { vector, k, min_score } => ToolArgsV::SearchVec {
                vector: vector@,
                k: *k,
                min_score: *min_score,
            },
            ToolArgs::Limit { n } => ToolArgsV::Limit { n: *n },
        }
    }
}

/// The content of a list of steps.
pub open spec fn args_view(v: Seq<ToolArgs>) -> Seq<ToolArgsV> {
    v.map_values(|a: ToolArgs| a@)
}

/// A filter holding exactly one conjunction of conditions.
pub fn single_row_filter(row: Vec<FilterProperties>) -> (f: FilterTraversal)
    ensures
        f@ == (FilterTraversalV { properties: Some(seq![props_view(row@)]) }),
{
    let mut rows: Vec<Vec<FilterProperties>> = Vec::new();
    rows.push(row);
    let f = FilterTraversal { properties: Some(rows) };
    assert(prop_rows_view(rows@) =~= seq![props_view(row@)]);
    f
}

/// Appends a step to a list of steps.
pub fn push_arg(v: &mut Vec<ToolArgs>, a: ToolArgs)
    ensures
        args_view(final(v)@) == args_view(old(v)@).push(a@),
{
    v.push(a);
    assert(args_view(v@) =~= args_view(old(v)@).push(a@));
}

/// Appends all steps of `more` to `v`.
pub fn extend_args(v: &mut Vec<ToolArgs>, more: Vec<ToolArgs>)
    ensures
        args_view(final(v)@) == args_view(old(v)@) + args_view(more@),
{
    let mut more = more;
    let ghost m = more@;
    let ghost start = v@;
    let mut rest: Vec<ToolArgs> = Vec::new();
    // Move the elements out back to front, then push them in order.
    while more.len() > 0
        invariant
            args_view(more@) + args_view(rest@).reverse() == args_view(m),
            v@ == start,
        decreases more@.len(),
    {
        let ghost before_more = more@;
        let ghost before_rest = rest@;
        let a = more.pop().unwrap();
        rest.push(a);
        proof {
            assert(before_more =~= more@.push(a));
            assert(args_view(before_more) =~= args_view(more@).push(a@));
            assert(args_view(rest@) =~= args_view(before_rest).push(a@));
            assert(args_view(rest@).reverse() =~= seq![a@] + args_view(before_rest).reverse());
            assert(args_view(more@) + args_view(rest@).reverse() =~= args_view(more@).push(a@)
                + args_view(before_rest).reverse());
        }
    }
    assert(args_view(more@) =~= Seq::<ToolArgsV>::empty());
    assert(args_view(rest@).reverse() =~= args_view(m));
    let ghost full = args_view(rest@);
    while rest.len() > 0
        invariant
            args_view(v@) + args_view(rest@).reverse() == args_view(start) + args_view(m),
        decreases rest@.len(),
    {
        let ghost before_rest = rest@;
        let ghost before_v = v@;
        let a = rest.pop().unwrap();
        push_arg(v, a);
        proof {
            assert(before_rest =~= rest@.push(a));
            assert(args_view(before_rest) =~= args_view(rest@).push(a@));
            assert(args_view(before_rest).reverse() =~= seq![a@] + args_view(rest@).reverse());
            assert(args_view(v@) + args_view(rest@).reverse() =~= args_view(before_v) + args_view(
                before_rest,
            ).reverse());
        }
    }
    assert(args_view(rest@).reverse() =~= Seq::<ToolArgsV>::empty());
    assert(args_view(v@) =~= args_view(start) + args_view(m));
}

} // verus!
