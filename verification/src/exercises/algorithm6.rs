//! Depth-first search.

use crate::exercises::graph::{
    closed_graph, edge, has_parent, lemma_mark, lemma_none_marked, search_order, unmarked,
};
use std::collections::HashSet;
use vstd::prelude::*;

verus! {

broadcast use vstd::std_specs::hash::group_hash_axioms;

/// Of each of `n` nodes whether `visited` holds it.
pub open spec fn marks_of(visited: Set<usize>, n: nat) -> Seq<bool> {
    Seq::new(n, |v: int| visited.contains(v as usize))
}

/// Whether `visited` holds exactly the nodes that `order` names, all of
/// which are among `n` nodes.
pub open spec fn holds_order(visited: Set<usize>, order: Seq<usize>, n: nat) -> bool {
    &&& forall|i: int| 0 <= i < order.len() ==> #[trigger] order[i] < n
    &&& forall|i: int| 0 <= i < order.len() ==> visited.contains(#[trigger] order[i])
    &&& forall|v: usize| #[trigger] visited.contains(v) ==> order.contains(v)
}

/// The nodes that a depth-first search knows when it has come upon `node`,
/// knowing the nodes of `known` before, and has followed the edges from it:
/// `node` comes behind the nodes known before, and then what the search finds
/// from each neighbour of `node` that is not known when its turn comes. The
/// search goes no deeper than `depth` nodes.
pub open spec fn dfs_visit(graph: Seq<Vec<usize>>, known: Seq<usize>, node: usize, depth: nat) -> Seq<
    usize,
>
    decreases depth, 0int, 0int,
{
    if depth == 0 || node >= graph.len() {
        known.push(node)
    } else {
        dfs_each(graph, known.push(node), graph[node as int]@, 0, (depth - 1) as nat)
    }
}

/// The nodes that a depth-first search knows when it has followed the edges
/// to the nodes of `neighbours` from index `k` on, knowing the nodes of
/// `known` before.
pub open spec fn dfs_each(
    graph: Seq<Vec<usize>>,
    known: Seq<usize>,
    neighbours: Seq<usize>,
    k: int,
    depth: nat,
) -> Seq<usize>
    decreases depth, 1int, neighbours.len() - k,
{
    if 0 <= k < neighbours.len() {
        let next = if known.contains(neighbours[k]) {
            known
        } else {
            dfs_visit(graph, known, neighbours[k], depth)
        };
        dfs_each(graph, next, neighbours, k + 1, depth)
    } else {
        known
    }
}

/// The order in which a depth-first search of `graph` from `start` comes
/// upon the nodes. No search goes deeper than there are nodes.
pub open spec fn dfs_order(graph: Seq<Vec<usize>>, start: usize) -> Seq<usize> {
    dfs_visit(graph, Seq::empty(), start, graph.len())
}

/// Visits `node`, which is not visited yet, and from it everything that can
/// be reached without passing a visited node, each neighbour in its turn.
fn dfs_helper(
    graph: &Vec<Vec<usize>>,
    node: usize,
    visited: &mut HashSet<usize>,
    order: &mut Vec<usize>,
    Ghost(depth): Ghost<nat>,
)
    requires
        depth >= unmarked(marks_of(old(visited)@, graph.len() as nat)),
        closed_graph(graph@),
        node < graph.len(),
        !old(visited)@.contains(node),
        holds_order(old(visited)@, old(order)@, graph.len() as nat),
        old(order)@.no_duplicates(),
    ensures
        final(order)@ == dfs_visit(graph@, old(order)@, node, depth),
        holds_order(final(visited)@, final(order)@, graph.len() as nat),
        final(order)@.no_duplicates(),
        final(order)@.len() > old(order)@.len(),
        final(order)@.subrange(0, old(order)@.len() as int) == old(order)@,
        final(order)@[old(order)@.len() as int] == node,
        forall|v: usize| old(visited)@.contains(v) ==> #[trigger] final(visited)@.contains(v),
        unmarked(marks_of(final(visited)@, graph.len() as nat)) < unmarked(
            marks_of(old(visited)@, graph.len() as nat),
        ),
        forall|j: int|
            old(order)@.len() < j < final(order)@.len() ==> #[trigger] has_parent(
                graph@,
                final(order)@,
                old(order)@.len() as int,
                j,
            ),
        forall|i: int, k: int|
            old(order)@.len() <= i < final(order)@.len() && 0 <= k < graph[final(order)@[i] as int].len()
                ==> final(visited)@.contains(#[trigger] graph[final(order)@[i] as int][k]),
    decreases unmarked(marks_of(old(visited)@, graph.len() as nat)),
{
    let ghost n = graph.len() as nat;
    let ghost before = order@;
    let ghost marks_before = visited@;
    proof {
        lemma_mark(marks_of(visited@, n), node as int);
    }
    visited.insert(node);
    order.push(node);
    assert(marks_of(visited@, n) =~= marks_of(marks_before, n).update(node as int, true));
    assert(holds_order(visited@, order@, n)) by {
        assert forall|i: int| 0 <= i < order@.len() implies visited@.contains(
            #[trigger] order@[i],
        ) by {
            if i < before.len() {
                assert(before[i] == order@[i]);
            }
        }
        assert forall|v: usize| #[trigger] visited@.contains(v) implies order@.contains(v) by {
            if v == node {
                assert(order@[before.len() as int] == node);
            } else {
                assert(before.contains(v));
                let i = choose|i: int| 0 <= i < before.len() && before[i] == v;
                assert(order@[i] == v);
            }
        }
    }
    assert(order@.no_duplicates()) by {
        assert forall|i: int, j: int|
            0 <= i < order@.len() && 0 <= j < order@.len() && i != j implies order@[i]
            != order@[j] by {
            if i == before.len() {
                assert(before[j] == order@[j]);
                assert(marks_before.contains(before[j]));
            } else if j == before.len() {
                assert(before[i] == order@[i]);
                assert(marks_before.contains(before[i]));
            } else {
                assert(before[i] == order@[i] && before[j] == order@[j]);
            }
        }
    }
    let mut k: usize = 0;
    while k < graph[node].len()
        invariant
            n == graph.len(),
            closed_graph(graph@),
            node < graph.len(),
            k <= graph[node as int].len(),
            holds_order(visited@, order@, n),
            order@.no_duplicates(),
            order@.len() > before.len(),
            order@.subrange(0, before.len() as int) == before,
            order@[before.len() as int] == node,
            forall|v: usize| marks_before.contains(v) ==> #[trigger] visited@.contains(v),
            unmarked(marks_of(visited@, n)) < unmarked(marks_of(marks_before, n)),
            marks_before == old(visited)@,
            before == old(order)@,
            depth >= unmarked(marks_of(marks_before, n)),
            dfs_visit(graph@, before, node, depth) == dfs_each(
                graph@,
                order@,
                graph[node as int]@,
                k as int,
                (depth - 1) as nat,
            ),
            forall|j: int|
                before.len() < j < order@.len() ==> #[trigger] has_parent(
                    graph@,
                    order@,
                    before.len() as int,
                    j,
                ),
            forall|i: int, m: int|
                before.len() < i < order@.len() && 0 <= m < graph[order@[i] as int].len()
                    ==> visited@.contains(#[trigger] graph[order@[i] as int][m]),
            forall|m: int| 0 <= m < k ==> visited@.contains(#[trigger] graph[node as int][m]),
        decreases graph[node as int].len() - k,
    {
        let neighbor = graph[node][k];
        if !visited.contains(&neighbor) {
            let ghost held = order@;
            let ghost marked = visited@;
            assert(!order@.contains(neighbor)) by {
                if order@.contains(neighbor) {
                    let i = choose|i: int| 0 <= i < order@.len() && order@[i] == neighbor;
                    assert(visited@.contains(order@[i]));
                }
            }
            dfs_helper(graph, neighbor, visited, order, Ghost((depth - 1) as nat));
            assert(order@.subrange(0, before.len() as int) =~= before) by {
                assert(order@.subrange(0, held.len() as int) == held);
                assert forall|i: int| 0 <= i < before.len() implies order@[i] == before[i] by {
                    assert(order@.subrange(0, held.len() as int)[i] == order@[i]);
                    assert(held.subrange(0, before.len() as int)[i] == held[i]);
                }
            }
            assert(order@[before.len() as int] == node) by {
                assert(order@.subrange(0, held.len() as int)[before.len() as int]
                    == held[before.len() as int]);
            }
            assert forall|j: int| before.len() < j < order@.len() implies #[trigger] has_parent(
                graph@,
                order@,
                before.len() as int,
                j,
            ) by {
                if j < held.len() {
                    assert(has_parent(graph@, held, before.len() as int, j));
                    let i = choose|i: int|
                        before.len() <= i < j && edge(graph@, #[trigger] held[i], held[j]);
                    assert(order@.subrange(0, held.len() as int)[i] == order@[i]);
                    assert(order@.subrange(0, held.len() as int)[j] == order@[j]);
                    assert(edge(graph@, order@[i], order@[j]));
                } else if j == held.len() {
                    assert(graph[node as int]@[k as int] == neighbor);
                    assert(edge(graph@, order@[before.len() as int], order@[j]));
                } else {
                    assert(has_parent(graph@, order@, held.len() as int, j));
                    let i = choose|i: int|
                        held.len() <= i < j && edge(graph@, #[trigger] order@[i], order@[j]);
                    assert(edge(graph@, order@[i], order@[j]));
                }
            }
            assert forall|i: int, m: int|
                before.len() < i < order@.len() && 0 <= m < graph[order@[i] as int].len() implies visited@.contains(
                #[trigger] graph[order@[i] as int][m],
            ) by {
                if i < held.len() {
                    assert(order@.subrange(0, held.len() as int)[i] == order@[i]);
                    assert(marked.contains(graph[held[i] as int][m]));
                }
            }
        } else {
            assert(order@.contains(neighbor));
        }
        k = k + 1;
    }
}

/// The order in which a depth-first search of `graph` from `start` comes
/// upon the nodes that it can reach: first `start`, then what the search
/// finds from its first neighbour, then from the next neighbour not found
/// yet, and so on, each node once. Every neighbour that the graph names is
/// one of its nodes, and so is `start`.
pub fn dfs(graph: &Vec<Vec<usize>>, start: usize) -> (order: Vec<usize>)
    requires
        closed_graph(graph@),
        start < graph.len(),
    ensures
        order@ == dfs_order(graph@, start),
        search_order(graph@, start, order@),
{
    let mut visited: HashSet<usize> = HashSet::new();
    let mut order: Vec<usize> = Vec::new();
    proof {
        lemma_none_marked(marks_of(visited@, graph.len() as nat));
    }
    dfs_helper(graph, start, &mut visited, &mut order, Ghost(graph.len() as nat));
    assert forall|i: int, k: int|
        0 <= i < order@.len() && 0 <= k < graph[order@[i] as int].len() implies order@.contains(
        #[trigger] graph[order@[i] as int][k],
    ) by {
        assert(visited@.contains(graph[order@[i] as int][k]));
    }
    assert forall|j: int| 0 < j < order@.len() implies #[trigger] has_parent(
        graph@,
        order@,
        0,
        j,
    ) by {
        assert(has_parent(graph@, order@, 0, j));
    }
    order
}

} // verus!
