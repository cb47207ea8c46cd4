//! The stage planner: which stages exist for an arity, and which transitions
//! lead from one prefix of the arguments to a longer one.

use vstd::prelude::*;

verus! {

/// A move from the stage that holds the first `from` arguments to the point
/// where the first `to` arguments are known.
#[derive(Clone, Copy, Debug, PartialEq, Eq, Structural)]
pub struct TransitionEdge {
    pub from: usize,
    pub to: usize,
}

/// Whether a transition yields a further stage or runs the function.
#[derive(Clone, Copy, Debug, PartialEq, Eq, Structural)]
pub enum EdgeKind {
    Intermediate,
    Terminal,
}

/// The legal transitions of a function of arity `n`: any non-empty run of
/// further arguments, and for a function without parameters the one call
/// with none.
pub open spec fn is_edge(n: int, from: int, to: int) -> bool {
    if n == 0 {
        from == 0 && to == 0
    } else {
        0 <= from < to <= n
    }
}

/// The number of stage types of a function of arity `n`. The entry stage
/// always exists; the point where all arguments are known is no stage.
pub open spec fn stage_count(n: int) -> int {
    if n <= 0 {
        1
    } else {
        n
    }
}

/// A transition is terminal when it completes the argument list.
pub open spec fn kind_of(n: int, to: int) -> EdgeKind {
    if to < n {
        EdgeKind::Intermediate
    } else {
        EdgeKind::Terminal
    }
}

/// The transitions that leave stage `from`, by ascending target.
pub open spec fn edge_row(n: int, from: int) -> Seq<TransitionEdge> {
    Seq::new(
        (n - from) as nat,
        |j: int| TransitionEdge { from: from as usize, to: (from + 1 + j) as usize },
    )
}

/// The rows of the stages below `upto`, one after the other.
pub open spec fn edge_rows(n: int, upto: int) -> Seq<TransitionEdge>
    decreases upto,
{
    if upto <= 0 {
        Seq::empty()
    } else {
        edge_rows(n, upto - 1) + edge_row(n, upto - 1)
    }
}

/// The whole transition table of a function of arity `n`, ordered by source
/// stage and then by target.
pub open spec fn edge_table(n: int) -> Seq<TransitionEdge> {
    if n <= 0 {
        seq![TransitionEdge { from: 0, to: 0 }]
    } else {
        edge_rows(n, n)
    }
}

/// Where the row of stage `from` begins in the table.
pub open spec fn row_start(n: int, from: int) -> int
    decreases from,
{
    if from <= 0 {
        0
    } else {
        row_start(n, from - 1) + (n - (from - 1))
    }
}

/// Where the transition from `from` to `to` stands in the table.
pub open spec fn edge_index(n: int, from: int, to: int) -> int {
    if n <= 0 {
        0
    } else {
        row_start(n, from) + (to - from - 1)
    }
}

impl TransitionEdge {
    /// The number of arguments that the transition consumes.
    pub open spec fn spec_arg_count(&self) -> int {
        self.to - self.from
    }

    /// The number of arguments that the transition consumes.
    pub fn arg_count(&self) -> (count: usize)
        requires
            self.from <= self.to,
        ensures
            count == self.spec_arg_count(),
    {
        self.to - self.from
    }

    /// The kind of the transition in a function of arity `n`.
    pub fn kind(&self, n: usize) -> (kind: EdgeKind)
        ensures
            kind == kind_of(n as int, self.to as int),
    {
        if self.to < n {
            EdgeKind::Intermediate
        } else {
            EdgeKind::Terminal
        }
    }
}

/// Tells whether `from -> to` is a transition of a function of arity `n`.
pub fn is_legal_edge(n: usize, from: usize, to: usize) -> (legal: bool)
    ensures
        legal == is_edge(n as int, from as int, to as int),
{
    if n == 0 {
        from == 0 && to == 0
    } else {
        from < to && to <= n
    }
}

/// The number of stage types to emit for arity `n`.
pub fn count_stages(n: usize) -> (count: usize)
    ensures
        count == stage_count(n as int),
{
    if n == 0 {
        1
    } else {
        n
    }
}

/// Enumerates every transition of a function of arity `n`, each once, by
/// source stage and then by target.
pub fn plan_edges(n: usize) -> (edges: Vec<TransitionEdge>)
    ensures
        edges@ == edge_table(n as int),
{
    let mut edges: Vec<TransitionEdge> = Vec::new();
    if n == 0 {
        edges.push(TransitionEdge { from: 0, to: 0 });
        assert(edges@ =~= edge_table(0));
        return edges;
    }
    let mut from: usize = 0;
    while from < n
        invariant
            0 <= from <= n,
            edges@ == edge_rows(n as int, from as int),
        decreases n - from,
    {
        let width: usize = n - from;
        let ghost before = edges@;
        let mut j: usize = 0;
        while j < width
            invariant
                0 <= j <= width,
                width == n - from,
                from < n,
                edges@ == before + edge_row(n as int, from as int).subrange(0, j as int),
            decreases width - j,
        {
            edges.push(TransitionEdge { from, to: from + 1 + j });
            j += 1;
            assert(edges@ =~= before + edge_row(n as int, from as int).subrange(0, j as int));
        }
        assert(edge_row(n as int, from as int).subrange(0, width as int) =~= edge_row(
            n as int,
            from as int,
        ));
        from += 1;
    }
    edges
}

/// The length of the rows below `upto`.
pub proof fn lemma_edge_rows_len(n: int, upto: int)
    requires
        0 <= upto <= n,
    ensures
        edge_rows(n, upto).len() == row_start(n, upto),
        0 <= row_start(n, upto),
        2 * row_start(n, upto) == upto * (2 * n - upto + 1),
    decreases upto,
{
    if upto > 0 {
        lemma_edge_rows_len(n, upto - 1);
        assert(2 * (row_start(n, upto - 1) + (n - (upto - 1))) == upto * (2 * n - upto + 1))
            by (nonlinear_arith)
            requires
                2 * row_start(n, upto - 1) == (upto - 1) * (2 * n - (upto - 1) + 1),
        ;
    } else {
        assert(upto * (2 * n - upto + 1) == 0) by (nonlinear_arith)
            requires
                upto == 0,
        ;
    }
}

/// What stands at each place of the rows below `upto`: a legal transition
/// from a stage below `upto`, at the place that `edge_index` gives to it.
pub proof fn lemma_edge_rows_entries(n: int, upto: int)
    requires
        0 <= upto <= n <= usize::MAX,
    ensures
        forall|k: int|
            0 <= k < edge_rows(n, upto).len() ==> {
                let e = #[trigger] edge_rows(n, upto)[k];
                &&& e.from < upto
                &&& is_edge(n, e.from as int, e.to as int)
                &&& edge_index(n, e.from as int, e.to as int) == k
            },
        forall|from: int, to: int|
            0 <= from < upto && from < to <= n ==> {
                &&& 0 <= #[trigger] edge_index(n, from, to) < edge_rows(n, upto).len()
                &&& edge_rows(n, upto)[edge_index(n, from, to)] == (TransitionEdge {
                    from: from as usize,
                    to: to as usize,
                })
            },
    decreases upto,
{
    if upto > 0 {
        lemma_edge_rows_entries(n, upto - 1);
        lemma_edge_rows_len(n, upto - 1);
        lemma_edge_rows_len(n, upto);
        let below = edge_rows(n, upto - 1);
        let row = edge_row(n, upto - 1);
        assert forall|k: int| 0 <= k < edge_rows(n, upto).len() implies {
            let e = #[trigger] edge_rows(n, upto)[k];
            &&& e.from < upto
            &&& is_edge(n, e.from as int, e.to as int)
            &&& edge_index(n, e.from as int, e.to as int) == k
        } by {
            if k < below.len() {
                assert(edge_rows(n, upto)[k] == below[k]);
            } else {
                assert(edge_rows(n, upto)[k] == row[k - below.len()]);
            }
        }
        assert forall|from: int, to: int| 0 <= from < upto && from < to <= n implies {
            &&& 0 <= #[trigger] edge_index(n, from, to) < edge_rows(n, upto).len()
            &&& edge_rows(n, upto)[edge_index(n, from, to)] == (TransitionEdge {
                from: from as usize,
                to: to as usize,
            })
        } by {
            if from < upto - 1 {
                assert(0 <= edge_index(n, from, to) < below.len());
                assert(edge_rows(n, upto)[edge_index(n, from, to)] == below[edge_index(
                    n,
                    from,
                    to,
                )]);
            } else {
                assert(edge_index(n, from, to) == below.len() + (to - from - 1));
                assert(edge_rows(n, upto)[edge_index(n, from, to)] == row[to - from - 1]);
            }
        }
    }
}

/// The table has `n * (n + 1) / 2` transitions, and the one call where there
/// is no parameter.
pub proof fn lemma_edge_table_len(n: int)
    requires
        0 <= n,
    ensures
        n == 0 ==> edge_table(n).len() == 1,
        n > 0 ==> 2 * edge_table(n).len() == n * (n + 1),
{
    if n > 0 {
        lemma_edge_rows_len(n, n);
    }
}

/// Every entry of the table is a legal transition.
pub proof fn lemma_edge_table_legal(n: int)
    requires
        0 <= n <= usize::MAX,
    ensures
        forall|k: int|
            0 <= k < edge_table(n).len() ==> is_edge(
                n,
                (#[trigger] edge_table(n)[k]).from as int,
                edge_table(n)[k].to as int,
            ),
{
    if n > 0 {
        lemma_edge_rows_entries(n, n);
    }
}

/// The table is complete and without duplicates: each legal transition
/// stands in it, at the one place that `edge_index` gives to it, and
/// nothing else stands anywhere. So for each stage and each longer prefix
/// there is exactly one transition.
pub proof fn lemma_edge_table_exact(n: int)
    requires
        0 <= n <= usize::MAX,
    ensures
        forall|from: int, to: int|
            is_edge(n, from, to) ==> {
                &&& 0 <= #[trigger] edge_index(n, from, to) < edge_table(n).len()
                &&& edge_table(n)[edge_index(n, from, to)] == (TransitionEdge {
                    from: from as usize,
                    to: to as usize,
                })
            },
        forall|k: int|
            0 <= k < edge_table(n).len() ==> {
                let e = #[trigger] edge_table(n)[k];
                &&& is_edge(n, e.from as int, e.to as int)
                &&& edge_index(n, e.from as int, e.to as int) == k
            },
{
    if n > 0 {
        lemma_edge_rows_entries(n, n);
    }
}

/// Without parameters there is the entry stage alone and the one terminal
/// call without arguments; with one parameter the entry stage alone and
/// the one terminal call with the argument.
pub proof fn lemma_small_tables()
    ensures
        stage_count(0) == 1,
        edge_table(0) == seq![TransitionEdge { from: 0, to: 0 }],
        kind_of(0, 0) == EdgeKind::Terminal,
        stage_count(1) == 1,
        edge_table(1) == seq![TransitionEdge { from: 0, to: 1 }],
        kind_of(1, 1) == EdgeKind::Terminal,
{
    reveal_with_fuel(edge_rows, 3);
    assert(edge_table(1) =~= seq![TransitionEdge { from: 0, to: 1 }]);
}

} // verus!
