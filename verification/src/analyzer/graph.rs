//! The dependency graph, a `petgraph` directed graph whose node weights are crate
//! names. Nodes are numbered in the order they were added; each node's neighbour
//! list is kept in the order `petgraph` reports it.

use petgraph::graph::{DiGraph, NodeIndex};
use vstd::prelude::*;

verus! {

/// petgraph's graph, carried opaquely.
#[verifier::external_type_specification]
#[verifier::external_body]
#[verifier::reject_recursive_types(N)]
#[verifier::reject_recursive_types(E)]
#[verifier::reject_recursive_types(Ty)]
#[verifier::reject_recursive_types(Ix)]
pub struct ExGraph<N, E, Ty, Ix>(petgraph::graph::Graph<N, E, Ty, Ix>);

/// petgraph's marker for directed graphs.
#[verifier::external_type_specification]
#[verifier::external_body]
pub struct ExDirected(petgraph::Directed);

/// The nodes of a dependency graph, by index: each node's name and the indices of
/// its outgoing neighbours, most recently added edge first.
pub uninterp spec fn graph_nodes(g: DiGraph<String, ()>) -> Seq<(Seq<char>, Seq<usize>)>;

/// The number of edges of a dependency graph.
pub uninterp spec fn graph_edge_count(g: DiGraph<String, ()>) -> nat;

/// `Graph::new`: an empty directed graph.
#[verifier::external_body]
pub(crate) fn graph_new() -> (g: DiGraph<String, ()>)
    ensures
        graph_nodes(g) == Seq::<(Seq<char>, Seq<usize>)>::empty(),
        graph_edge_count(g) == 0,
{
    DiGraph::new()
}

/// `Graph::add_node`: appends a node without edges and returns its index, which is
/// the previous node count. `petgraph` panics once the `u32` index space is exhausted.
#[verifier::external_body]
pub(crate) fn graph_add_node(g: &mut DiGraph<String, ()>, name: String) -> (i: usize)
    requires
        graph_nodes(*old(g)).len() < u32::MAX,
    ensures
        i == graph_nodes(*old(g)).len(),
        graph_nodes(*final(g)) == graph_nodes(*old(g)).push((name@, Seq::<usize>::empty())),
        graph_edge_count(*final(g)) == graph_edge_count(*old(g)),
{
    g.add_node(name).index()
}

/// `Graph::add_edge`: adds the edge `from -> to`; in a directed graph the new
/// neighbour is listed first among `from`'s neighbours. `petgraph` panics on an index
/// out of bounds and once the `u32` edge index space is exhausted.
#[verifier::external_body]
pub(crate) fn graph_add_edge(g: &mut DiGraph<String, ()>, from: usize, to: usize)
    requires
        from < graph_nodes(*old(g)).len(),
        to < graph_nodes(*old(g)).len(),
        graph_edge_count(*old(g)) < u32::MAX,
    ensures
        graph_nodes(*final(g)) == graph_nodes(*old(g)).update(
            from as int,
            (
                graph_nodes(*old(g))[from as int].0,
                seq![to] + graph_nodes(*old(g))[from as int].1,
            ),
        ),
        graph_edge_count(*final(g)) == graph_edge_count(*old(g)) + 1,
{
    g.add_edge(NodeIndex::new(from), NodeIndex::new(to), ());
}

/// `Graph::neighbors`: the outgoing neighbours of node `a`, as indices, in the order
/// `petgraph` yields them (most recently added edge first).
#[verifier::external_body]
pub(crate) fn graph_neighbors(g: &DiGraph<String, ()>, a: usize) -> (v: Vec<usize>)
    requires
        a < graph_nodes(*g).len(),
    ensures
        v@ == graph_nodes(*g)[a as int].1,
{
    g.neighbors(NodeIndex::new(a)).map(|n| n.index()).collect()
}

/// Indexing a graph by node: a copy of the name of node `a`.
#[verifier::external_body]
pub(crate) fn graph_node_name(g: &DiGraph<String, ()>, a: usize) -> (name: String)
    requires
        a < graph_nodes(*g).len(),
    ensures
        name@ == graph_nodes(*g)[a as int].0,
{
    g[NodeIndex::new(a)].clone()
}

} // verus!
