//! Breadth-first search.

use crate::exercises::graph::{
    closed_graph, edge, has_parent, lemma_mark, marks_order, no_marks, search_order, unmarked,
};
use std::collections::VecDeque;
use vstd::prelude::*;

verus! {

/// `known` with those of the nodes of `neighbours` from index `k` on added at
/// its end, in their order, that it does not hold yet.
pub open spec fn discover(known: Seq<usize>, neighbours: Seq<usize>, k: int) -> Seq<usize>
    decreases neighbours.len() - k,
{
    if 0 <= k < neighbours.len() {
        if known.contains(neighbours[k]) {
            discover(known, neighbours, k + 1)
        } else {
            discover(known.push(neighbours[k]), neighbours, k + 1)
        }
    } else {
        known
    }
}

/// The order of a breadth-first search that has come upon the nodes of
/// `known`, in this order, and has looked at the neighbours of the first
/// `head` of them: it looks at the neighbours of the next known node, which
/// adds the new ones among them to the known nodes, and so on until it has
/// looked at the neighbours of every known node.
pub open spec fn bfs_from(graph: Seq<Vec<usize>>, known: Seq<usize>, head: int) -> Seq<usize>
    decreases graph.len() - head,
{
    if 0 <= head < known.len() && head < graph.len() && known[head] < graph.len() {
        bfs_from(graph, discover(known, graph[known[head] as int]@, 0), head + 1)
    } else {
        known
    }
}

/// The order in which a breadth-first search of `graph` from `start` comes
/// upon the nodes.
pub open spec fn bfs_order(graph: Seq<Vec<usize>>, start: usize) -> Seq<usize> {
    bfs_from(graph, seq![start], 0)
}

/// The order in which a breadth-first search of `graph` from `start` comes
/// upon the nodes that it can reach: first `start`, then its neighbours in
/// the order in which the graph names them, then theirs, and so on, each
/// node once. Every neighbour that the graph names is one of its nodes, and
/// so is `start`.
pub fn bfs(graph: &Vec<Vec<usize>>, start: usize) -> (order: Vec<usize>)
    requires
        closed_graph(graph@),
        start < graph.len(),
    ensures
        order@ == bfs_order(graph@, start),
        search_order(graph@, start, order@),
{
    let mut visited = no_marks(graph.len());
    let mut queue: VecDeque<usize> = VecDeque::new();
    let mut order: Vec<usize> = Vec::new();
    proof {
        lemma_mark(visited@, start as int);
    }
    visited.set(start, true);
    queue.push_back(start);
    assert((order@ + queue@) =~= seq![start]);
    assert(marks_order(visited@, order@ + queue@)) by {
        assert((order@ + queue@)[0] == start);
    }
    while queue.len() > 0
        invariant
            closed_graph(graph@),
            visited.len() == graph.len(),
            (order@ + queue@).len() > 0,
            (order@ + queue@)[0] == start,
            (order@ + queue@).no_duplicates(),
            marks_order(visited@, order@ + queue@),
            forall|j: int|
                0 < j < (order@ + queue@).len() ==> #[trigger] has_parent(
                    graph@,
                    order@ + queue@,
                    0,
                    j,
                ),
            forall|i: int, k: int|
                0 <= i < order@.len() && 0 <= k < graph[order@[i] as int].len()
                    ==> visited[#[trigger] graph[order@[i] as int][k] as int],
            unmarked(visited@) + (order@ + queue@).len() == graph.len(),
            bfs_order(graph@, start) == bfs_from(graph@, order@ + queue@, order@.len() as int),
        decreases 2 * unmarked(visited@) + queue@.len(),
    {
        let ghost all = order@ + queue@;
        let ghost head = order@.len() as int;
        assert(all[head] == queue@[0]);
        let ghost measure = 2 * unmarked(visited@) + queue@.len();
        let node = queue.pop_front().unwrap();
        order.push(node);
        assert((order@ + queue@) =~= all);
        assert(node < graph.len()) by {
            assert(all[order@.len() - 1] == node);
        }
        let ghost at = (order@.len() - 1) as int;
        let mut k: usize = 0;
        while k < graph[node].len()
            invariant
                closed_graph(graph@),
                node < graph.len(),
                k <= graph[node as int].len(),
                visited.len() == graph.len(),
                0 <= at == order@.len() - 1,
                order@[at] == node,
                (order@ + queue@).len() > 0,
                (order@ + queue@)[0] == start,
                (order@ + queue@).no_duplicates(),
                marks_order(visited@, order@ + queue@),
                forall|j: int|
                    0 < j < (order@ + queue@).len() ==> #[trigger] has_parent(
                        graph@,
                        order@ + queue@,
                        0,
                        j,
                    ),
                forall|i: int, m: int|
                    0 <= i < at && 0 <= m < graph[order@[i] as int].len()
                        ==> visited[#[trigger] graph[order@[i] as int][m] as int],
                forall|m: int| 0 <= m < k ==> visited[#[trigger] graph[node as int][m] as int],
                2 * unmarked(visited@) + queue@.len() < measure,
                unmarked(visited@) + (order@ + queue@).len() == graph.len(),
                discover(all, graph[node as int]@, 0) == discover(
                    order@ + queue@,
                    graph[node as int]@,
                    k as int,
                ),
            decreases graph[node as int].len() - k,
        {
            let neighbor = graph[node][k];
            assert(visited[neighbor as int] == (order@ + queue@).contains(neighbor)) by {
                if (order@ + queue@).contains(neighbor) {
                    let i = choose|i: int|
                        0 <= i < (order@ + queue@).len() && (order@ + queue@)[i] == neighbor;
                    assert(visited[(order@ + queue@)[i] as int]);
                }
            }
            if !visited[neighbor] {
                let ghost held = order@ + queue@;
                let ghost marks = visited@;
                proof {
                    lemma_mark(visited@, neighbor as int);
                }
                visited.set(neighbor, true);
                queue.push_back(neighbor);
                let ghost now = order@ + queue@;
                assert(now =~= held.push(neighbor));
                assert forall|i: int, m: int|
                    0 <= i < at && 0 <= m < graph[order@[i] as int].len() implies visited[#[trigger] graph[order@[i] as int][m] as int] by {
                    assert(held[i] == order@[i]);
                    assert(marks[graph[order@[i] as int][m] as int]);
                }
                assert forall|m: int| 0 <= m < k implies visited[#[trigger] graph[node as int][m] as int] by {
                    assert(marks[graph[node as int][m] as int]);
                }
                assert(now.no_duplicates()) by {
                    assert forall|i: int, j: int|
                        0 <= i < now.len() && 0 <= j < now.len() && i != j implies now[i]
                        != now[j] by {
                        if i == held.len() {
                            assert(marks[held[j] as int]);
                        } else if j == held.len() {
                            assert(marks[held[i] as int]);
                        }
                    }
                }
                assert(marks_order(visited@, now)) by {
                    assert forall|v: usize|
                        v < visited.len() && #[trigger] visited[v as int] implies now.contains(
                        v,
                    ) by {
                        if v == neighbor {
                            assert(now[held.len() as int] == neighbor);
                        } else {
                            assert(held.contains(v));
                            let i = choose|i: int| 0 <= i < held.len() && held[i] == v;
                            assert(now[i] == v);
                        }
                    }
                }
                assert forall|j: int| 0 < j < now.len() implies #[trigger] has_parent(
                    graph@,
                    now,
                    0,
                    j,
                ) by {
                    if j < held.len() {
                        assert(has_parent(graph@, held, 0, j));
                        let i = choose|i: int|
                            0 <= i < j && edge(graph@, #[trigger] held[i], held[j]);
                        assert(edge(graph@, now[i], now[j]));
                    } else {
                        assert(graph[node as int]@[k as int] == neighbor);
                        assert(now[at] == node);
                        assert(edge(graph@, now[at], now[j]));
                    }
                }
            }
            k = k + 1;
        }
    }
    assert((order@ + queue@) =~= order@);
    assert forall|i: int, k: int|
        0 <= i < order@.len() && 0 <= k < graph[order@[i] as int].len() implies order@.contains(
        #[trigger] graph[order@[i] as int][k],
    ) by {
        assert(visited[graph[order@[i] as int][k] as int]);
    }
    order
}

} // verus!
