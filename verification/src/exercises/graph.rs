//! Graphs as lists of neighbours, and what the two searches share.

use vstd::prelude::*;

verus! {

/// Whether every neighbour that `graph` names is one of its nodes.
pub open spec fn closed_graph(graph: Seq<Vec<usize>>) -> bool {
    forall|u: int, k: int|
        0 <= u < graph.len() && 0 <= k < graph[u].len() ==> #[trigger] graph[u][k] < graph.len()
}

/// Whether `graph` has an edge from `u` to `v`.
pub open spec fn edge(graph: Seq<Vec<usize>>, u: usize, v: usize) -> bool {
    u < graph.len() && graph[u as int]@.contains(v)
}

/// Whether `order` names, at an index from `from` on and before `j`, a node
/// that has an edge to the node that it names at index `j`.
pub open spec fn has_parent(graph: Seq<Vec<usize>>, order: Seq<usize>, from: int, j: int) -> bool {
    exists|i: int| from <= i < j && edge(graph, #[trigger] order[i], order[j])
}

/// Whether `order` is an order in which a search of `graph` from `start` can
/// come upon the nodes: it starts with `start`, names no node twice, names
/// only nodes, names each node but the first after a node that has an edge to
/// it, and names every neighbour of every node that it names. So it names
/// exactly the nodes that can be reached from `start`.
pub open spec fn search_order(graph: Seq<Vec<usize>>, start: usize, order: Seq<usize>) -> bool {
    &&& order.len() > 0
    &&& order[0] == start
    &&& order.no_duplicates()
    &&& forall|i: int| 0 <= i < order.len() ==> #[trigger] order[i] < graph.len()
    &&& forall|j: int| 0 < j < order.len() ==> #[trigger] has_parent(graph, order, 0, j)
    &&& forall|i: int, k: int|
        0 <= i < order.len() && 0 <= k < graph[order[i] as int].len() ==> order.contains(
            #[trigger] graph[order[i] as int][k],
        )
}

/// The number of entries of `marks` that are not set.
pub open spec fn unmarked(marks: Seq<bool>) -> nat
    decreases marks.len(),
{
    if marks.len() == 0 {
        0
    } else if marks.last() {
        unmarked(marks.drop_last())
    } else {
        unmarked(marks.drop_last()) + 1
    }
}

/// Setting an entry that was not set leaves one unset entry less.
pub proof fn lemma_mark(marks: Seq<bool>, at: int)
    requires
        0 <= at < marks.len(),
        !marks[at],
    ensures
        unmarked(marks.update(at, true)) + 1 == unmarked(marks),
    decreases marks.len(),
{
    let after = marks.update(at, true);
    if at == marks.len() - 1 {
        assert(after.drop_last() =~= marks.drop_last());
    } else {
        lemma_mark(marks.drop_last(), at);
        assert(after.drop_last() =~= marks.drop_last().update(at, true));
    }
}

/// Where no entry is set, as many are unset as there are entries.
pub proof fn lemma_none_marked(marks: Seq<bool>)
    requires
        forall|i: int| 0 <= i < marks.len() ==> !#[trigger] marks[i],
    ensures
        unmarked(marks) == marks.len(),
    decreases marks.len(),
{
    if marks.len() > 0 {
        assert forall|i: int| 0 <= i < marks.drop_last().len() implies !#[trigger] marks.drop_last()[i] by {
            assert(!marks[i]);
        }
        lemma_none_marked(marks.drop_last());
        assert(!marks[marks.len() - 1]);
    }
}

/// A vector of `n` entries, none of which is set.
pub fn no_marks(n: usize) -> (marks: Vec<bool>)
    ensures
        marks.len() == n,
        forall|i: int| 0 <= i < n ==> !#[trigger] marks[i],
        unmarked(marks@) == n,
{
    let mut marks: Vec<bool> = Vec::new();
    while marks.len() < n
        invariant
            marks.len() <= n,
            forall|i: int| 0 <= i < marks.len() ==> !#[trigger] marks[i],
        decreases n - marks.len(),
    {
        marks.push(false);
    }
    proof {
        lemma_none_marked(marks@);
    }
    marks
}

/// Whether `visited` marks exactly the nodes that `order` names.
pub open spec fn marks_order(visited: Seq<bool>, order: Seq<usize>) -> bool {
    &&& forall|i: int| 0 <= i < order.len() ==> #[trigger] order[i] < visited.len()
    &&& forall|i: int| 0 <= i < order.len() ==> visited[#[trigger] order[i] as int]
    &&& forall|v: usize| v < visited.len() && #[trigger] visited[v as int] ==> order.contains(v)
}

} // verus!
