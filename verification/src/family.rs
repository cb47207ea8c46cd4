//! The items to emit for a function: one type per stage, one callable per
//! transition, and the function itself under an internal name.

use crate::descriptor::{FunctionDescriptor, HardError, Warning};
use crate::plan::{
    edge_table, is_edge, kind_of, lemma_edge_table_legal, plan_edges, stage_count, EdgeKind,
    TransitionEdge,
};
use vstd::prelude::*;

verus! {

/// The value type of a stage: its fields are the types of the arguments
/// bound so far, addressed by position.
pub struct StageType {
    pub index: usize,
    pub fields: Vec<String>,
}

/// Where an argument of a constructed value comes from: a field of the stage
/// that is called, or one of the arguments of the call.
#[derive(Clone, Copy, Debug, PartialEq, Eq, Structural)]
pub enum FieldSource {
    Bound(usize),
    Supplied(usize),
}

/// What a transition hands back: the value of a later stage, or the result
/// of the function, with its type.
pub enum EdgeOutput {
    Stage(usize),
    Return(String),
}

/// The callable of one transition.
pub struct TransitionImpl {
    pub edge: TransitionEdge,
    pub arg_types: Vec<String>,
    pub output: EdgeOutput,
    pub sources: Vec<FieldSource>,
}

/// The function under its internal name, signature unchanged; only
/// terminal transitions call it.
pub struct UnderlyingImpl {
    pub params: Vec<String>,
    pub return_type: String,
}

/// Everything that is emitted for one function.
pub struct CurryFamily {
    pub entry_name: String,
    pub stages: Vec<StageType>,
    pub transitions: Vec<TransitionImpl>,
    pub underlying: UnderlyingImpl,
}

/// The outcome for one function: the warnings, and the family or the error
/// that stands in its place.
pub struct Expansion {
    pub warnings: Vec<Warning>,
    pub output: Result<CurryFamily, HardError>,
}

/// The arguments with which a transition from `from` to `to` builds its
/// result: the bound fields in order, then the supplied arguments in order.
pub open spec fn field_sources(from: int, to: int) -> Seq<FieldSource> {
    Seq::new(
        to as nat,
        |k: int|
            if k < from {
                FieldSource::Bound(k as usize)
            } else {
                FieldSource::Supplied((k - from) as usize)
            },
    )
}

/// What the transition to `to` returns in a function of arity `n` and
/// return type `return_type`.
pub open spec fn edge_output(n: int, to: int, return_type: String) -> EdgeOutput {
    if to < n {
        EdgeOutput::Stage(to as usize)
    } else {
        EdgeOutput::Return(return_type)
    }
}

impl StageType {
    /// The type of stage `i` holds the first `i` parameter types.
    pub open spec fn is_stage(&self, params: Seq<String>, i: int) -> bool {
        &&& self.index == i
        &&& self.fields@ == params.subrange(0, i)
    }
}

impl TransitionImpl {
    /// The callable of `edge` takes the parameter types that the edge
    /// spans, and builds its result from all arguments known by then.
    pub open spec fn implements(
        &self,
        params: Seq<String>,
        return_type: String,
        edge: TransitionEdge,
    ) -> bool {
        &&& self.edge == edge
        &&& self.arg_types@ == params.subrange(edge.from as int, edge.to as int)
        &&& self.output == edge_output(params.len() as int, edge.to as int, return_type)
        &&& self.sources@ == field_sources(edge.from as int, edge.to as int)
    }

    /// The kind of the transition follows from what it returns.
    pub open spec fn spec_kind(&self) -> EdgeKind {
        match self.output {
            EdgeOutput::Stage(_) => EdgeKind::Intermediate,
            EdgeOutput::Return(_) => EdgeKind::Terminal,
        }
    }

    /// The kind of the transition.
    pub fn kind(&self) -> (kind: EdgeKind)
        ensures
            kind == self.spec_kind(),
    {
        match &self.output {
            EdgeOutput::Stage(_) => EdgeKind::Intermediate,
            EdgeOutput::Return(_) => EdgeKind::Terminal,
        }
    }
}

impl CurryFamily {
    /// The family of a function: the entry under the function's name, the
    /// stage types by index, one callable for each transition of the table
    /// and in its order, and the function itself unchanged.
    pub open spec fn is_family_of(&self, d: &FunctionDescriptor) -> bool {
        &&& self.entry_name == d.name
        &&& self.stages@.len() == stage_count(d.spec_arity())
        &&& forall|i: int|
            0 <= i < self.stages@.len() ==> (#[trigger] self.stages@[i]).is_stage(d.params@, i)
        &&& self.transitions@.len() == edge_table(d.spec_arity()).len()
        &&& forall|k: int|
            0 <= k < self.transitions@.len() ==> (#[trigger] self.transitions@[k]).implements(
                d.params@,
                d.return_type,
                edge_table(d.spec_arity())[k],
            )
        &&& self.underlying.params@ == d.params@
        &&& self.underlying.return_type == d.return_type
    }
}

/// Copies the parameter types at the positions from `lo` up to `hi`.
pub fn param_slice(params: &Vec<String>, lo: usize, hi: usize) -> (slice: Vec<String>)
    requires
        lo <= hi <= params@.len(),
    ensures
        slice@ == params@.subrange(lo as int, hi as int),
{
    let mut slice: Vec<String> = Vec::new();
    let mut i: usize = lo;
    while i < hi
        invariant
            lo <= i <= hi <= params@.len(),
            slice@ == params@.subrange(lo as int, i as int),
        decreases hi - i,
    {
        slice.push(params[i].clone());
        i += 1;
        assert(slice@ =~= params@.subrange(lo as int, i as int));
    }
    assert(slice@ =~= params@.subrange(lo as int, hi as int));
    slice
}

/// Lists where the arguments of the value built by the transition from
/// `from` to `to` come from.
pub fn plan_sources(from: usize, to: usize) -> (sources: Vec<FieldSource>)
    requires
        from <= to,
    ensures
        sources@ == field_sources(from as int, to as int),
{
    let mut sources: Vec<FieldSource> = Vec::new();
    let mut k: usize = 0;
    while k < to
        invariant
            from <= to,
            0 <= k <= to,
            sources@ == field_sources(from as int, to as int).subrange(0, k as int),
        decreases to - k,
    {
        if k < from {
            sources.push(FieldSource::Bound(k));
        } else {
            sources.push(FieldSource::Supplied(k - from));
        }
        k += 1;
        assert(sources@ =~= field_sources(from as int, to as int).subrange(0, k as int));
    }
    assert(sources@ =~= field_sources(from as int, to as int));
    sources
}

/// Emits the stage types of a function with these parameter types.
pub fn stage_types(params: &Vec<String>) -> (stages: Vec<StageType>)
    ensures
        stages@.len() == stage_count(params@.len() as int),
        forall|i: int| 0 <= i < stages@.len() ==> (#[trigger] stages@[i]).is_stage(params@, i),
{
    let n: usize = params.len();
    let mut stages: Vec<StageType> = Vec::new();
    stages.push(StageType { index: 0, fields: param_slice(params, 0, 0) });
    let mut i: usize = 1;
    while i < n
        invariant
            1 <= i,
            n == params@.len(),
            i <= n || (n == 0 && i == 1),
            stages@.len() == i,
            forall|j: int| 0 <= j < stages@.len() ==> (#[trigger] stages@[j]).is_stage(params@, j),
        decreases n - i,
    {
        stages.push(StageType { index: i, fields: param_slice(params, 0, i) });
        i += 1;
    }
    stages
}

/// Emits the callable of one transition.
pub fn transition_impl(params: &Vec<String>, return_type: &String, edge: TransitionEdge) -> (made:
    TransitionImpl)
    requires
        is_edge(params@.len() as int, edge.from as int, edge.to as int),
    ensures
        made.implements(params@, *return_type, edge),
        made.spec_kind() == kind_of(params@.len() as int, edge.to as int),
{
    let output = if edge.to < params.len() {
        EdgeOutput::Stage(edge.to)
    } else {
        EdgeOutput::Return(return_type.clone())
    };
    TransitionImpl {
        edge,
        arg_types: param_slice(params, edge.from, edge.to),
        output,
        sources: plan_sources(edge.from, edge.to),
    }
}

/// Generates the curried family of a function, or the error that stands in
/// its place. A receiver or an `async` qualifier stops the generation;
/// attributes and a `const` qualifier are dropped with a warning.
pub fn auto_curry(descriptor: &FunctionDescriptor) -> (expansion: Expansion)
    ensures
        expansion.warnings@ == descriptor.spec_warnings(),
        match expansion.output {
            Ok(family) => descriptor.spec_hard_error() is None && family.is_family_of(descriptor),
            Err(error) => descriptor.spec_hard_error() == Some(error),
        },
{
    let found = descriptor.diagnose();
    let output = match found.error {
        Some(error) => Err(error),
        None => Ok(generate_curry_family(descriptor)),
    };
    Expansion { warnings: found.warnings, output }
}

/// Lays out the family of a function that can be curried: the stage types,
/// then one callable for each transition of the table.
pub fn generate_curry_family(descriptor: &FunctionDescriptor) -> (family: CurryFamily)
    requires
        descriptor.spec_hard_error() is None,
    ensures
        family.is_family_of(descriptor),
{
    let n: usize = descriptor.params.len();
    let edges = plan_edges(n);
    proof {
        lemma_edge_table_legal(n as int);
    }
    let mut transitions: Vec<TransitionImpl> = Vec::new();
    let mut k: usize = 0;
    while k < edges.len()
        invariant
            n == descriptor.params@.len(),
            edges@ == edge_table(n as int),
            0 <= k <= edges@.len(),
            transitions@.len() == k,
            forall|j: int|
                0 <= j < edges@.len() ==> is_edge(
                    n as int,
                    (#[trigger] edges@[j]).from as int,
                    edges@[j].to as int,
                ),
            forall|j: int|
                0 <= j < k ==> (#[trigger] transitions@[j]).implements(
                    descriptor.params@,
                    descriptor.return_type,
                    edge_table(n as int)[j],
                ),
        decreases edges@.len() - k,
    {
        let made = transition_impl(&descriptor.params, &descriptor.return_type, edges[k]);
        transitions.push(made);
        k += 1;
    }
    assert(descriptor.params@.subrange(0, n as int) =~= descriptor.params@);
    CurryFamily {
        entry_name: descriptor.name.clone(),
        stages: stage_types(&descriptor.params),
        transitions,
        underlying: UnderlyingImpl {
            params: param_slice(&descriptor.params, 0, n),
            return_type: descriptor.return_type.clone(),
        },
    }
}

} // verus!
