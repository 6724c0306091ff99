use rustlings::exercises::algorithm5::bfs;
use rustlings::exercises::algorithm6::dfs;
use rustlings::exercises::algorithm7::MyStack;

#[test]
fn test_bfs_all_nodes_visited() {
    let graph = vec![vec![1, 4], vec![0, 2, 3], vec![1], vec![1], vec![0]];
    assert_eq!(bfs(&graph, 0), vec![0, 1, 4, 2, 3]);
}

#[test]
fn test_bfs_different_start() {
    let graph = vec![vec![1], vec![0, 2], vec![1]];
    assert_eq!(bfs(&graph, 2), vec![2, 1, 0]);
}

#[test]
fn test_bfs_single_node() {
    let graph = vec![vec![]];
    assert_eq!(bfs(&graph, 0), vec![0]);
}

#[test]
fn test_bfs_with_cycle() {
    let graph = vec![vec![1], vec![0, 2], vec![1]];
    assert_eq!(bfs(&graph, 0), vec![0, 1, 2]);
}

#[test]
fn test_bfs_unreachable_nodes_are_left_out() {
    let graph = vec![vec![1], vec![0], vec![3], vec![2]];
    assert_eq!(bfs(&graph, 0), vec![0, 1]);
    assert_eq!(bfs(&graph, 3), vec![3, 2]);
}

#[test]
fn test_bfs_goes_level_by_level() {
    let graph = vec![vec![1, 2], vec![3], vec![4], vec![], vec![]];
    assert_eq!(bfs(&graph, 0), vec![0, 1, 2, 3, 4]);
}

#[test]
fn test_dfs_all_nodes_visited() {
    let graph = vec![vec![1, 4], vec![0, 2, 3], vec![1], vec![1], vec![0]];
    assert_eq!(dfs(&graph, 0), vec![0, 1, 2, 3, 4]);
}

#[test]
fn test_dfs_different_start() {
    let graph = vec![vec![1], vec![0, 2], vec![1]];
    assert_eq!(dfs(&graph, 2), vec![2, 1, 0]);
}

#[test]
fn test_dfs_single_node() {
    let graph = vec![vec![]];
    assert_eq!(dfs(&graph, 0), vec![0]);
}

#[test]
fn test_dfs_with_cycle() {
    let graph = vec![vec![1], vec![0, 2], vec![1]];
    assert_eq!(dfs(&graph, 0), vec![0, 1, 2]);
}

#[test]
fn test_dfs_goes_deep_first() {
    let graph = vec![vec![1, 2], vec![3], vec![4], vec![], vec![]];
    assert_eq!(dfs(&graph, 0), vec![0, 1, 3, 2, 4]);
}

#[test]
fn test_dfs_self_loop_and_repeated_edge() {
    let graph = vec![vec![0, 1, 1], vec![1, 0]];
    assert_eq!(dfs(&graph, 0), vec![0, 1]);
    assert_eq!(bfs(&graph, 1), vec![1, 0]);
}

#[test]
fn test_stack() {
    let mut stack = MyStack::new();
    assert!(stack.is_empty());

    stack.push(1);
    stack.push(2);
    stack.push(3);
    assert!(!stack.is_empty());

    assert_eq!(stack.pop(), Some(3));
    assert_eq!(stack.pop(), Some(2));
    assert_eq!(stack.pop(), Some(1));
    assert_eq!(stack.pop(), None);
    assert!(stack.is_empty());
}
