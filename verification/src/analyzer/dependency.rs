//! Dependency analysis over cargo metadata: per-crate information and the
//! dependency tree of a crate, found by a depth-first walk of the dependency graph.

use petgraph::graph::DiGraph;
use vstd::hash_map::StringHashMap;
use vstd::prelude::*;

use super::graph::{
    graph_add_edge, graph_add_node, graph_edge_count, graph_neighbors, graph_new,
    graph_node_name, graph_nodes,
};

verus! {

/// Information about a crate.
#[derive(Debug, Clone)]
pub struct CrateInfo {
    pub name: String,
    pub version: String,
    pub authors: Vec<String>,
    pub license: Option<String>,
    pub description: Option<String>,
    pub homepage: Option<String>,
    pub repository: Option<String>,
    pub documentation: Option<String>,
    pub dependencies: Vec<DependencyInfo>,
    pub features: Vec<String>,
    pub default_features: Vec<String>,
    pub edition: String,
    pub rust_version: Option<String>,
}

/// Information about a dependency.
#[derive(Debug, Clone)]
pub struct DependencyInfo {
    pub name: String,
    pub version: String,
    pub optional: bool,
    pub features: Vec<String>,
    pub kind: DependencyKind,
}

/// Kind of dependency.
#[derive(Debug, Clone, Copy, PartialEq, Eq, Structural)]
pub enum DependencyKind {
    Normal,
    Dev,
    Build,
}

/// The name under which a dependency kind is displayed.
pub open spec fn kind_name(k: DependencyKind) -> Seq<char> {
    match k {
        DependencyKind::Normal => "normal"@,
        DependencyKind::Dev => "dev"@,
        DependencyKind::Build => "build"@,
    }
}

impl DependencyKind {
    /// The displayed name: `normal`, `dev` or `build`.
    pub fn to_string(&self) -> (s: String)
        ensures
            s@ == kind_name(*self),
    {
        match self {
            DependencyKind::Normal => String::from_str("normal"),
            DependencyKind::Dev => String::from_str("dev"),
            DependencyKind::Build => String::from_str("build"),
        }
    }
}

/// How cargo classifies a dependency (`Unknown` stands for kinds it does not name).
#[derive(Debug, Clone, Copy, PartialEq, Eq, Structural)]
pub enum CargoDependencyKind {
    Normal,
    Development,
    Build,
    Unknown,
}

/// A dependency as cargo metadata lists it.
#[derive(Debug, Clone)]
pub struct PackageDependency {
    pub name: String,
    /// The version requirement, as written.
    pub req: String,
    pub optional: bool,
    pub features: Vec<String>,
    pub kind: CargoDependencyKind,
}

/// A package as cargo metadata lists it. `features` holds the feature table in
/// ascending key order, each key once.
#[derive(Debug, Clone)]
pub struct PackageMetadata {
    pub name: String,
    pub version: String,
    pub authors: Vec<String>,
    pub license: Option<String>,
    pub description: Option<String>,
    pub homepage: Option<String>,
    pub repository: Option<String>,
    pub documentation: Option<String>,
    pub dependencies: Vec<PackageDependency>,
    pub features: Vec<(String, Vec<String>)>,
    pub edition: String,
    pub rust_version: Option<String>,
}

/// The packages of a workspace and the index of its root package, if any.
#[derive(Debug, Clone)]
pub struct WorkspaceMetadata {
    pub packages: Vec<PackageMetadata>,
    pub root: Option<usize>,
}

/// Analyzer for crate dependencies.
pub struct DependencyAnalyzer {
    metadata: WorkspaceMetadata,
    graph: DiGraph<String, ()>,
    node_map: StringHashMap<usize>,
}

/// The map from a package name to the index of the last package of that name.
pub open spec fn name_index(pkgs: Seq<PackageMetadata>) -> Map<Seq<char>, usize>
    decreases pkgs.len(),
{
    if pkgs.len() == 0 {
        Map::empty()
    } else {
        name_index(pkgs.drop_last()).insert(pkgs.last().name@, (pkgs.len() - 1) as usize)
    }
}

/// The graph edges `from -> to` added for `deps`, in order: one per dependency whose
/// name is the name of some package.
pub open spec fn dep_edges(idx: Map<Seq<char>, usize>, from: usize, deps: Seq<PackageDependency>) -> Seq<
    (usize, usize),
>
    decreases deps.len(),
{
    if deps.len() == 0 {
        Seq::empty()
    } else {
        let rest = dep_edges(idx, from, deps.drop_last());
        if idx.contains_key(deps.last().name@) {
            rest.push((from, idx[deps.last().name@]))
        } else {
            rest
        }
    }
}

/// The graph edges added for the first `k` packages, in order; each package's edges
/// start at the node its name resolves to.
pub open spec fn graph_edges(pkgs: Seq<PackageMetadata>, k: int) -> Seq<(usize, usize)>
    decreases k,
{
    if k <= 0 {
        Seq::empty()
    } else {
        let idx = name_index(pkgs);
        graph_edges(pkgs, k - 1) + dep_edges(idx, idx[pkgs[k - 1].name@], pkgs[k - 1].dependencies@)
    }
}

/// The neighbours of node `v` after adding `edges` in order: most recent edge first.
pub open spec fn out_neighbors(edges: Seq<(usize, usize)>, v: usize) -> Seq<usize>
    decreases edges.len(),
{
    if edges.len() == 0 {
        Seq::empty()
    } else {
        let rest = out_neighbors(edges.drop_last(), v);
        if edges.last().0 == v {
            seq![edges.last().1] + rest
        } else {
            rest
        }
    }
}

/// The dependency graph of a workspace: one node per package, named after it, with
/// an edge to every dependency that names a package of the workspace.
pub open spec fn dependency_graph(pkgs: Seq<PackageMetadata>) -> Seq<(Seq<char>, Seq<usize>)> {
    Seq::new(
        pkgs.len(),
        |i: int| (pkgs[i].name@, out_neighbors(graph_edges(pkgs, pkgs.len() as int), i as usize)),
    )
}

/// The number of unvisited nodes.
pub open spec fn count_false(v: Seq<bool>) -> nat
    decreases v.len(),
{
    if v.len() == 0 {
        0
    } else {
        count_false(v.drop_last()) + if v.last() {
            0nat
        } else {
            1nat
        }
    }
}

proof fn lemma_count_false_all(v: Seq<bool>)
    requires
        forall|i: int| 0 <= i < v.len() ==> !#[trigger] v[i],
    ensures
        count_false(v) == v.len(),
    decreases v.len(),
{
    if v.len() > 0 {
        lemma_count_false_all(v.drop_last());
    }
}

/// The stack entries for the neighbours of `v`, at depth `depth`, pushed so that the
/// first neighbour ends on top.
pub open spec fn pushed_neighbors(nodes: Seq<(Seq<char>, Seq<usize>)>, v: usize, depth: usize) -> Seq<
    (usize, usize),
> {
    let ns = nodes[v as int].1;
    Seq::new(ns.len(), |i: int| (ns[ns.len() - 1 - i], depth))
}

/// Marking an unmarked entry leaves one unmarked entry fewer.
pub proof fn lemma_count_false_set(v: Seq<bool>, k: int)
    requires
        0 <= k < v.len(),
        !v[k],
    ensures
        count_false(v.update(k, true)) + 1 == count_false(v),
    decreases v.len(),
{
    if k < v.len() - 1 {
        lemma_count_false_set(v.drop_last(), k);
        assert(v.update(k, true).drop_last() =~= v.drop_last().update(k, true));
    } else {
        assert(v.update(k, true).drop_last() =~= v.drop_last());
    }
}

/// The nodes, with their depths, in the order a depth-first walk lists them: the
/// walk takes the top of `stack`; a node already visited is skipped, otherwise it
/// is listed and its neighbours are walked next, in neighbour order, one level deeper.
pub open spec fn dfs_order(
    nodes: Seq<(Seq<char>, Seq<usize>)>,
    stack: Seq<(usize, usize)>,
    visited: Seq<bool>,
) -> Seq<(usize, usize)>
    decreases count_false(visited), stack.len(),
{
    if stack.len() == 0 {
        Seq::empty()
    } else {
        let top = stack.last();
        let rest = stack.drop_last();
        if top.0 >= visited.len() || top.0 >= nodes.len() || visited[top.0 as int] {
            dfs_order(nodes, rest, visited)
        } else {
            proof {
                lemma_count_false_set(visited, top.0 as int);
            }
            seq![top] + dfs_order(
                nodes,
                rest + pushed_neighbors(nodes, top.0, (top.1 + 1) as usize),
                visited.update(top.0 as int, true),
            )
        }
    }
}

/// The walk of the dependency graph from the package the name `root` resolves to,
/// as (package index, depth) pairs; empty when no package has that name.
pub open spec fn tree_walk(pkgs: Seq<PackageMetadata>, root: Seq<char>) -> Seq<(usize, usize)> {
    let idx = name_index(pkgs);
    if idx.contains_key(root) {
        dfs_order(
            dependency_graph(pkgs),
            seq![(idx[root], 0usize)],
            Seq::new(pkgs.len(), |i: int| false),
        )
    } else {
        Seq::empty()
    }
}

/// The dependency tree of the crate named `root`, as (name, depth) pairs.
pub open spec fn dependency_tree_of(pkgs: Seq<PackageMetadata>, root: Seq<char>) -> Seq<
    (Seq<char>, usize),
> {
    tree_walk(pkgs, root).map_values(|e: (usize, usize)| (pkgs[e.0 as int].name@, e.1))
}

/// A tree listing as (name, depth) pairs.
pub open spec fn tree_view(t: Seq<(String, usize)>) -> Seq<(Seq<char>, usize)> {
    t.map_values(|e: (String, usize)| (e.0@, e.1))
}

/// The total number of dependency entries of the packages.
pub open spec fn total_dependencies(pkgs: Seq<PackageMetadata>) -> nat
    decreases pkgs.len(),
{
    if pkgs.len() == 0 {
        0
    } else {
        total_dependencies(pkgs.drop_last()) + pkgs.last().dependencies@.len()
    }
}

proof fn lemma_name_index(pkgs: Seq<PackageMetadata>)
    requires
        pkgs.len() <= usize::MAX,
    ensures
        forall|k: Seq<char>| #[trigger]
            name_index(pkgs).contains_key(k) ==> name_index(pkgs)[k] < pkgs.len() && pkgs[name_index(
                pkgs,
            )[k] as int].name@ == k,
        forall|i: int| 0 <= i < pkgs.len() ==> #[trigger] name_index(pkgs).contains_key(pkgs[i].name@),
    decreases pkgs.len(),
{
    if pkgs.len() > 0 {
        let prev = pkgs.drop_last();
        lemma_name_index(prev);
        assert forall|k: Seq<char>| #[trigger] name_index(pkgs).contains_key(k) implies name_index(
            pkgs,
        )[k] < pkgs.len() && pkgs[name_index(pkgs)[k] as int].name@ == k by {
            if k != pkgs.last().name@ {
                assert(name_index(prev).contains_key(k));
                assert(prev[name_index(prev)[k] as int] == pkgs[name_index(prev)[k] as int]);
            }
        }
        assert forall|i: int| 0 <= i < pkgs.len() implies #[trigger] name_index(pkgs).contains_key(
            pkgs[i].name@,
        ) by {
            if i < pkgs.len() - 1 {
                assert(prev[i] == pkgs[i]);
            }
        }
    }
}

proof fn lemma_dep_edges(idx: Map<Seq<char>, usize>, from: usize, deps: Seq<PackageDependency>, n: nat)
    requires
        from < n,
        forall|k: Seq<char>| #[trigger] idx.contains_key(k) ==> idx[k] < n,
    ensures
        dep_edges(idx, from, deps).len() <= deps.len(),
        forall|j: int|
            #![trigger dep_edges(idx, from, deps)[j]]
            0 <= j < dep_edges(idx, from, deps).len() ==> dep_edges(idx, from, deps)[j].0 < n
                && dep_edges(idx, from, deps)[j].1 < n,
    decreases deps.len(),
{
    if deps.len() > 0 {
        lemma_dep_edges(idx, from, deps.drop_last(), n);
    }
}

proof fn lemma_graph_edges(pkgs: Seq<PackageMetadata>, k: int)
    requires
        0 <= k <= pkgs.len(),
        pkgs.len() <= usize::MAX,
    ensures
        graph_edges(pkgs, k).len() <= total_dependencies(pkgs.take(k)),
        forall|j: int|
            #![trigger graph_edges(pkgs, k)[j]]
            0 <= j < graph_edges(pkgs, k).len() ==> graph_edges(pkgs, k)[j].0 < pkgs.len()
                && graph_edges(pkgs, k)[j].1 < pkgs.len(),
    decreases k,
{
    if k > 0 {
        lemma_graph_edges(pkgs, k - 1);
        lemma_name_index(pkgs);
        let idx = name_index(pkgs);
        assert(idx.contains_key(pkgs[k - 1].name@));
        lemma_dep_edges(idx, idx[pkgs[k - 1].name@], pkgs[k - 1].dependencies@, pkgs.len());
        assert(pkgs.take(k).drop_last() =~= pkgs.take(k - 1));
        let a = graph_edges(pkgs, k - 1);
        let b = dep_edges(idx, idx[pkgs[k - 1].name@], pkgs[k - 1].dependencies@);
        assert forall|j: int|
            #![trigger graph_edges(pkgs, k)[j]]
            0 <= j < graph_edges(pkgs, k).len() implies graph_edges(pkgs, k)[j].0 < pkgs.len()
                && graph_edges(pkgs, k)[j].1 < pkgs.len() by {
            if j < a.len() {
                assert(graph_edges(pkgs, k)[j] == a[j]);
            } else {
                assert(graph_edges(pkgs, k)[j] == b[j - a.len()]);
            }
        }
    }
}

proof fn lemma_total_dependencies_prefix(pkgs: Seq<PackageMetadata>, k: int)
    requires
        0 <= k <= pkgs.len(),
    ensures
        total_dependencies(pkgs.take(k)) <= total_dependencies(pkgs),
    decreases pkgs.len(),
{
    if k < pkgs.len() {
        lemma_total_dependencies_prefix(pkgs.drop_last(), k);
        assert(pkgs.drop_last().take(k) =~= pkgs.take(k));
    } else {
        assert(pkgs.take(k) =~= pkgs);
    }
}

proof fn lemma_out_neighbors_bounded(edges: Seq<(usize, usize)>, v: usize, n: nat)
    requires
        forall|j: int| 0 <= j < edges.len() ==> #[trigger] edges[j].1 < n,
    ensures
        forall|j: int| 0 <= j < out_neighbors(edges, v).len() ==> #[trigger] out_neighbors(edges, v)[j]
            < n,
    decreases edges.len(),
{
    if edges.len() > 0 {
        let prev = edges.drop_last();
        assert forall|j: int| 0 <= j < prev.len() implies #[trigger] prev[j].1 < n by {
            assert(prev[j] == edges[j]);
        }
        lemma_out_neighbors_bounded(prev, v, n);
        let last = edges[edges.len() - 1];
        assert(last.1 < n);
        let rest = out_neighbors(prev, v);
        assert forall|j: int| 0 <= j < out_neighbors(edges, v).len() implies #[trigger] out_neighbors(
            edges,
            v,
        )[j] < n by {
            if last.0 == v {
                if j > 0 {
                    assert(out_neighbors(edges, v)[j] == rest[j - 1]);
                }
            } else {
                assert(out_neighbors(edges, v)[j] == rest[j]);
            }
        }
    }
}

/// Every neighbour in the dependency graph is a node of it.
proof fn lemma_dependency_graph_closed(pkgs: Seq<PackageMetadata>)
    requires
        pkgs.len() <= usize::MAX,
    ensures
        forall|v: int, j: int|
            0 <= v < pkgs.len() && 0 <= j < dependency_graph(pkgs)[v].1.len() ==> #[trigger] dependency_graph(
                pkgs,
            )[v].1[j] < pkgs.len(),
{
    lemma_graph_edges(pkgs, pkgs.len() as int);
    let edges = graph_edges(pkgs, pkgs.len() as int);
    assert forall|j: int| 0 <= j < edges.len() implies #[trigger] edges[j].1 < pkgs.len() by {
        assert(graph_edges(pkgs, pkgs.len() as int)[j].1 < pkgs.len());
    }
    assert forall|v: int, j: int|
        0 <= v < pkgs.len() && 0 <= j < dependency_graph(pkgs)[v].1.len() implies #[trigger] dependency_graph(
        pkgs,
    )[v].1[j] < pkgs.len() by {
        lemma_out_neighbors_bounded(edges, v as usize, pkgs.len());
    }
}

/// The dependency kind shown for a cargo dependency kind (unknown kinds count as normal).
pub open spec fn dependency_kind_of(k: CargoDependencyKind) -> DependencyKind {
    match k {
        CargoDependencyKind::Normal => DependencyKind::Normal,
        CargoDependencyKind::Development => DependencyKind::Dev,
        CargoDependencyKind::Build => DependencyKind::Build,
        CargoDependencyKind::Unknown => DependencyKind::Normal,
    }
}

/// `info` describes the cargo dependency `d`.
pub open spec fn dependency_info_of(info: DependencyInfo, d: PackageDependency) -> bool {
    &&& info.name == d.name
    &&& info.version == d.req
    &&& info.optional == d.optional
    &&& info.features@ == d.features@
    &&& info.kind == dependency_kind_of(d.kind)
}

/// `infos` describes the cargo dependencies `deps`, one for one and in order.
pub open spec fn dependency_infos_of(infos: Seq<DependencyInfo>, deps: Seq<PackageDependency>) -> bool {
    &&& infos.len() == deps.len()
    &&& forall|i: int| 0 <= i < deps.len() ==> #[trigger] dependency_info_of(infos[i], deps[i])
}

/// The feature names of a feature table, in table order.
pub open spec fn feature_names(fs: Seq<(String, Vec<String>)>) -> Seq<String> {
    fs.map_values(|e: (String, Vec<String>)| e.0)
}

/// The features enabled by the `default` feature of a feature table; none when the
/// table has no `default` entry.
pub open spec fn default_features_of(fs: Seq<(String, Vec<String>)>) -> Seq<String>
    decreases fs.len(),
{
    if fs.len() == 0 {
        Seq::empty()
    } else if fs[0].0@ == "default"@ {
        fs[0].1@
    } else {
        default_features_of(fs.drop_first())
    }
}

/// `info` describes the package `p`.
pub open spec fn crate_info_of(info: CrateInfo, p: PackageMetadata) -> bool {
    &&& info.name == p.name
    &&& info.version == p.version
    &&& info.authors@ == p.authors@
    &&& info.license == p.license
    &&& info.description == p.description
    &&& info.homepage == p.homepage
    &&& info.repository == p.repository
    &&& info.documentation == p.documentation
    &&& dependency_infos_of(info.dependencies@, p.dependencies@)
    &&& info.features@ == feature_names(p.features@)
    &&& info.default_features@ == default_features_of(p.features@)
    &&& info.edition == p.edition
    &&& info.rust_version == p.rust_version
}

/// The index of the first package named `name`, if any.
pub open spec fn first_named(pkgs: Seq<PackageMetadata>, name: Seq<char>) -> Option<int>
    decreases pkgs.len(),
{
    if pkgs.len() == 0 {
        None
    } else if pkgs[0].name@ == name {
        Some(0)
    } else {
        match first_named(pkgs.drop_first(), name) {
            Some(i) => Some(i + 1),
            None => None,
        }
    }
}

proof fn lemma_first_named_found(pkgs: Seq<PackageMetadata>, name: Seq<char>, k: int)
    requires
        0 <= k < pkgs.len(),
        pkgs[k].name@ == name,
        forall|j: int| 0 <= j < k ==> #[trigger] pkgs[j].name@ != name,
    ensures
        first_named(pkgs, name) == Some(k),
    decreases k,
{
    if k > 0 {
        assert forall|j: int| 0 <= j < k - 1 implies #[trigger] pkgs.drop_first()[j].name@ != name by {
            assert(pkgs.drop_first()[j] == pkgs[j + 1]);
        }
        lemma_first_named_found(pkgs.drop_first(), name, k - 1);
    }
}

proof fn lemma_first_named_absent(pkgs: Seq<PackageMetadata>, name: Seq<char>)
    requires
        forall|j: int| 0 <= j < pkgs.len() ==> #[trigger] pkgs[j].name@ != name,
    ensures
        first_named(pkgs, name) is None,
    decreases pkgs.len(),
{
    if pkgs.len() > 0 {
        assert forall|j: int| 0 <= j < pkgs.len() - 1 implies #[trigger] pkgs.drop_first()[j].name@
            != name by {
            assert(pkgs.drop_first()[j] == pkgs[j + 1]);
        }
        lemma_first_named_absent(pkgs.drop_first(), name);
    }
}

proof fn lemma_default_features_found(fs: Seq<(String, Vec<String>)>, k: int)
    requires
        0 <= k < fs.len(),
        fs[k].0@ == "default"@,
        forall|j: int| 0 <= j < k ==> #[trigger] fs[j].0@ != "default"@,
    ensures
        default_features_of(fs) == fs[k].1@,
    decreases k,
{
    if k > 0 {
        assert forall|j: int| 0 <= j < k - 1 implies #[trigger] fs.drop_first()[j].0@ != "default"@ by {
            assert(fs.drop_first()[j] == fs[j + 1]);
        }
        lemma_default_features_found(fs.drop_first(), k - 1);
    }
}

proof fn lemma_default_features_absent(fs: Seq<(String, Vec<String>)>)
    requires
        forall|j: int| 0 <= j < fs.len() ==> #[trigger] fs[j].0@ != "default"@,
    ensures
        default_features_of(fs) == Seq::<String>::empty(),
    decreases fs.len(),
{
    if fs.len() > 0 {
        assert forall|j: int| 0 <= j < fs.len() - 1 implies #[trigger] fs.drop_first()[j].0@
            != "default"@ by {
            assert(fs.drop_first()[j] == fs[j + 1]);
        }
        lemma_default_features_absent(fs.drop_first());
    }
}

/// A copy of a list of strings.
pub fn clone_strings(v: &Vec<String>) -> (r: Vec<String>)
    ensures
        r@ == v@,
{
    let mut r: Vec<String> = Vec::new();
    let mut i: usize = 0;
    while i < v.len()
        invariant
            i <= v@.len(),
            r@ == v@.subrange(0, i as int),
        decreases v@.len() - i,
    {
        r.push(v[i].clone());
        i = i + 1;
    }
    r
}

/// A copy of an optional string.
pub fn clone_opt_string(o: &Option<String>) -> (r: Option<String>)
    ensures
        r == *o,
{
    match o {
        Some(s) => Some(s.clone()),
        None => None,
    }
}

/// A depth-first walk lists only nodes that were unvisited when it started, and
/// lists each of them at most once.
proof fn lemma_dfs_order_distinct(
    nodes: Seq<(Seq<char>, Seq<usize>)>,
    stack: Seq<(usize, usize)>,
    visited: Seq<bool>,
)
    ensures
        forall|i: int|
            #![trigger dfs_order(nodes, stack, visited)[i]]
            0 <= i < dfs_order(nodes, stack, visited).len() ==> {
                let v = dfs_order(nodes, stack, visited)[i].0;
                &&& v < visited.len()
                &&& v < nodes.len()
                &&& !visited[v as int]
            },
        forall|i: int, j: int|
            0 <= i < j < dfs_order(nodes, stack, visited).len() ==> #[trigger] dfs_order(
                nodes,
                stack,
                visited,
            )[i].0 != #[trigger] dfs_order(nodes, stack, visited)[j].0,
    decreases count_false(visited), stack.len(),
{
    if stack.len() > 0 {
        let top = stack.last();
        let rest = stack.drop_last();
        if top.0 >= visited.len() || top.0 >= nodes.len() || visited[top.0 as int] {
            lemma_dfs_order_distinct(nodes, rest, visited);
            assert(dfs_order(nodes, stack, visited) == dfs_order(nodes, rest, visited));
        } else {
            lemma_count_false_set(visited, top.0 as int);
            let next_stack = rest + pushed_neighbors(nodes, top.0, (top.1 + 1) as usize);
            let next_visited = visited.update(top.0 as int, true);
            lemma_dfs_order_distinct(nodes, next_stack, next_visited);
            let tail = dfs_order(nodes, next_stack, next_visited);
            let out = dfs_order(nodes, stack, visited);
            assert(out == seq![top] + tail);
            assert forall|i: int| 0 <= i < out.len() implies {
                let v = #[trigger] out[i].0;
                &&& v < visited.len()
                &&& v < nodes.len()
                &&& !visited[v as int]
            } by {
                if i > 0 {
                    assert(out[i] == tail[i - 1]);
                    let w = tail[i - 1].0;
                    assert(!next_visited[w as int]);
                }
            }
            assert forall|i: int, j: int| 0 <= i < j < out.len() implies #[trigger] out[i].0
                != #[trigger] out[j].0 by {
                assert(out[j] == tail[j - 1]);
                let w = tail[j - 1].0;
                assert(!next_visited[w as int]);
                assert(w != top.0);
                if i > 0 {
                    assert(out[i] == tail[i - 1]);
                }
            }
        }
    }
}

/// The dependency tree of a crate name that some package has starts with that
/// crate, at depth 0.
pub proof fn lemma_tree_starts_at_root(pkgs: Seq<PackageMetadata>, root: Seq<char>)
    requires
        pkgs.len() <= usize::MAX,
        exists|i: int| 0 <= i < pkgs.len() && #[trigger] pkgs[i].name@ == root,
    ensures
        dependency_tree_of(pkgs, root).len() > 0,
        dependency_tree_of(pkgs, root)[0] == (root, 0usize),
{
    lemma_name_index(pkgs);
    let i = choose|i: int| 0 <= i < pkgs.len() && #[trigger] pkgs[i].name@ == root;
    assert(name_index(pkgs).contains_key(pkgs[i].name@));
    let r = name_index(pkgs)[root];
    let visited = Seq::new(pkgs.len(), |i: int| false);
    let walk = tree_walk(pkgs, root);
    assert(dependency_graph(pkgs).len() == pkgs.len());
    assert(seq![(r, 0usize)].last() == (r, 0usize));
    assert(seq![(r, 0usize)].drop_last() =~= Seq::<(usize, usize)>::empty());
    assert(walk[0] == (r, 0usize));
}

/// No package is listed twice in a dependency tree.
pub proof fn lemma_tree_lists_each_package_once(pkgs: Seq<PackageMetadata>, root: Seq<char>)
    ensures
        forall|i: int, j: int|
            0 <= i < j < tree_walk(pkgs, root).len() ==> #[trigger] tree_walk(pkgs, root)[i].0
                != #[trigger] tree_walk(pkgs, root)[j].0,
        forall|i: int|
            0 <= i < tree_walk(pkgs, root).len() ==> #[trigger] tree_walk(pkgs, root)[i].0
                < pkgs.len(),
{
    let idx = name_index(pkgs);
    if idx.contains_key(root) {
        lemma_dfs_order_distinct(
            dependency_graph(pkgs),
            seq![(idx[root], 0usize)],
            Seq::new(pkgs.len(), |i: int| false),
        );
    }
}

/// Whether the walk `out` lists node `w`.
pub open spec fn walk_lists(out: Seq<(usize, usize)>, w: usize) -> bool {
    exists|i: int| 0 <= i < out.len() && #[trigger] out[i].0 == w
}

/// A depth-first walk leaves nothing behind: every node on the stack, and every
/// neighbour of a node it lists, is listed unless it was visited before the walk.
proof fn lemma_dfs_closed(
    nodes: Seq<(Seq<char>, Seq<usize>)>,
    stack: Seq<(usize, usize)>,
    visited: Seq<bool>,
)
    ensures
        forall|k: int|
            0 <= k < stack.len() && #[trigger] stack[k].0 < visited.len() && stack[k].0 < nodes.len()
                ==> visited[stack[k].0 as int] || walk_lists(dfs_order(nodes, stack, visited), stack[k].0),
        forall|i: int, j: int|
            0 <= i < dfs_order(nodes, stack, visited).len() && 0 <= j < nodes[dfs_order(
                nodes,
                stack,
                visited,
            )[i].0 as int].1.len() && #[trigger] nodes[dfs_order(nodes, stack, visited)[i].0 as int].1[j]
                < visited.len() && nodes[dfs_order(nodes, stack, visited)[i].0 as int].1[j] < nodes.len()
                ==> visited[nodes[dfs_order(nodes, stack, visited)[i].0 as int].1[j] as int]
                || walk_lists(
                dfs_order(nodes, stack, visited),
                nodes[dfs_order(nodes, stack, visited)[i].0 as int].1[j],
            ),
    decreases count_false(visited), stack.len(),
{
    if stack.len() > 0 {
        let top = stack.last();
        let rest = stack.drop_last();
        let out = dfs_order(nodes, stack, visited);
        if top.0 >= visited.len() || top.0 >= nodes.len() || visited[top.0 as int] {
            lemma_dfs_closed(nodes, rest, visited);
            assert(out == dfs_order(nodes, rest, visited));
            assert forall|k: int|
                0 <= k < stack.len() && #[trigger] stack[k].0 < visited.len() && stack[k].0 < nodes.len()
                    implies visited[stack[k].0 as int] || walk_lists(out, stack[k].0) by {
                if k < rest.len() {
                    assert(rest[k] == stack[k]);
                }
            }
        } else {
            lemma_count_false_set(visited, top.0 as int);
            let pushed = pushed_neighbors(nodes, top.0, (top.1 + 1) as usize);
            let next_stack = rest + pushed;
            let next_visited = visited.update(top.0 as int, true);
            lemma_dfs_closed(nodes, next_stack, next_visited);
            let tail = dfs_order(nodes, next_stack, next_visited);
            assert(out == seq![top] + tail);
            assert(out[0] == top);
            assert forall|w: usize| walk_lists(tail, w) implies walk_lists(out, w) by {
                let i = choose|i: int| 0 <= i < tail.len() && #[trigger] tail[i].0 == w;
                assert(out[i + 1] == tail[i]);
            }
            // What the tail leaves unlisted was visited before the walk, or is `top`.
            assert forall|w: usize|
                w < visited.len() && (next_visited[w as int] || walk_lists(tail, w)) implies visited[w as int]
                || walk_lists(out, w) by {
                if w == top.0 {
                    assert(out[0].0 == w);
                } else if next_visited[w as int] {
                    assert(next_visited[w as int] == visited[w as int]);
                }
            }
            assert forall|k: int|
                0 <= k < stack.len() && #[trigger] stack[k].0 < visited.len() && stack[k].0 < nodes.len()
                    implies visited[stack[k].0 as int] || walk_lists(out, stack[k].0) by {
                if k < rest.len() {
                    assert(next_stack[k] == stack[k]);
                } else {
                    assert(stack[k] == top);
                    assert(out[0].0 == top.0);
                }
            }
            let ns = nodes[top.0 as int].1;
            assert forall|i: int, j: int|
                0 <= i < out.len() && 0 <= j < nodes[out[i].0 as int].1.len()
                    && #[trigger] nodes[out[i].0 as int].1[j] < visited.len() && nodes[out[i].0 as int].1[j]
                    < nodes.len() implies visited[nodes[out[i].0 as int].1[j] as int] || walk_lists(
                out,
                nodes[out[i].0 as int].1[j],
            ) by {
                let w = nodes[out[i].0 as int].1[j];
                if i == 0 {
                    let k = rest.len() + (ns.len() - 1 - j);
                    assert(pushed[ns.len() - 1 - j] == (ns[j], (top.1 + 1) as usize));
                    assert(next_stack[k] == pushed[ns.len() - 1 - j]);
                    assert(next_stack[k].0 == w);
                } else {
                    assert(out[i] == tail[i - 1]);
                    assert(nodes[tail[i - 1].0 as int].1[j] == w);
                }
            }
        }
    }
}

/// Every node a depth-first walk lists has a property that the stack's nodes and
/// every neighbour have.
proof fn lemma_dfs_good(
    nodes: Seq<(Seq<char>, Seq<usize>)>,
    stack: Seq<(usize, usize)>,
    visited: Seq<bool>,
    good: spec_fn(usize) -> bool,
)
    requires
        forall|k: int| 0 <= k < stack.len() ==> good(#[trigger] stack[k].0),
        forall|v: int, j: int| 0 <= v < nodes.len() && 0 <= j < nodes[v].1.len() ==> good(#[trigger] nodes[v].1[j]),
    ensures
        forall|i: int| 0 <= i < dfs_order(nodes, stack, visited).len() ==> good(#[trigger] dfs_order(nodes, stack, visited)[i].0),
    decreases count_false(visited), stack.len(),
{
    if stack.len() > 0 {
        let top = stack.last();
        let rest = stack.drop_last();
        assert forall|k: int| 0 <= k < rest.len() implies good(#[trigger] rest[k].0) by {
            assert(rest[k] == stack[k]);
        }
        if top.0 >= visited.len() || top.0 >= nodes.len() || visited[top.0 as int] {
            lemma_dfs_good(nodes, rest, visited, good);
            assert(dfs_order(nodes, stack, visited) == dfs_order(nodes, rest, visited));
        } else {
            lemma_count_false_set(visited, top.0 as int);
            let pushed = pushed_neighbors(nodes, top.0, (top.1 + 1) as usize);
            let next_stack = rest + pushed;
            let ns = nodes[top.0 as int].1;
            assert forall|k: int| 0 <= k < next_stack.len() implies good(#[trigger] next_stack[k].0) by {
                if k < rest.len() {
                    assert(next_stack[k] == rest[k]);
                } else {
                    let m = k - rest.len();
                    assert(next_stack[k] == pushed[m]);
                    assert(pushed[m].0 == ns[ns.len() - 1 - m]);
                    assert(good(nodes[top.0 as int].1[ns.len() - 1 - m]));
                }
            }
            let next_visited = visited.update(top.0 as int, true);
            lemma_dfs_good(nodes, next_stack, next_visited, good);
            let tail = dfs_order(nodes, next_stack, next_visited);
            let out = dfs_order(nodes, stack, visited);
            assert(out == seq![top] + tail);
            assert forall|i: int| 0 <= i < out.len() implies good(#[trigger] out[i].0) by {
                if i == 0 {
                    assert(stack[stack.len() - 1] == top);
                } else {
                    assert(out[i] == tail[i - 1]);
                }
            }
        }
    }
}

/// Whether the walk entry `e` was reached from entry `p`: one level deeper, along an
/// edge from `p`'s node.
pub open spec fn reached_from(nodes: Seq<(Seq<char>, Seq<usize>)>, p: (usize, usize), e: (usize, usize)) -> bool {
    (p.1 + 1) as usize == e.1 && p.0 < nodes.len() && nodes[p.0 as int].1.contains(e.0)
}

/// Whether entry `e` was reached from one of the first `n` entries of `s`.
pub open spec fn reached_within(
    nodes: Seq<(Seq<char>, Seq<usize>)>,
    s: Seq<(usize, usize)>,
    n: int,
    e: (usize, usize),
) -> bool {
    exists|p: int| 0 <= p < n && p < s.len() && reached_from(nodes, #[trigger] s[p], e)
}

/// Every node a depth-first walk lists was reached from a node listed before it,
/// when every entry of the stack was reached from one of the nodes listed before the
/// walk (`prior`).
proof fn lemma_dfs_depths(
    nodes: Seq<(Seq<char>, Seq<usize>)>,
    stack: Seq<(usize, usize)>,
    visited: Seq<bool>,
    prior: Seq<(usize, usize)>,
)
    requires
        forall|k: int| 0 <= k < stack.len() ==> reached_within(nodes, prior, prior.len() as int, #[trigger] stack[k]),
    ensures
        forall|i: int|
            0 <= i < dfs_order(nodes, stack, visited).len() ==> reached_within(
                nodes,
                prior + dfs_order(nodes, stack, visited),
                prior.len() + i,
                #[trigger] dfs_order(nodes, stack, visited)[i],
            ),
    decreases count_false(visited), stack.len(),
{
    if stack.len() > 0 {
        let top = stack.last();
        let rest = stack.drop_last();
        let out = dfs_order(nodes, stack, visited);
        assert forall|k: int| 0 <= k < rest.len() implies reached_within(nodes, prior, prior.len() as int, #[trigger] rest[k]) by {
            assert(rest[k] == stack[k]);
        }
        if top.0 >= visited.len() || top.0 >= nodes.len() || visited[top.0 as int] {
            lemma_dfs_depths(nodes, rest, visited, prior);
            assert(out == dfs_order(nodes, rest, visited));
        } else {
            lemma_count_false_set(visited, top.0 as int);
            let pushed = pushed_neighbors(nodes, top.0, (top.1 + 1) as usize);
            let next_stack = rest + pushed;
            let next_visited = visited.update(top.0 as int, true);
            let prior2 = prior.push(top);
            let ns = nodes[top.0 as int].1;
            assert forall|k: int| 0 <= k < next_stack.len() implies reached_within(nodes, prior2, prior2.len() as int, #[trigger] next_stack[k]) by {
                if k < rest.len() {
                    assert(next_stack[k] == rest[k]);
                    let p = choose|p: int| 0 <= p < prior.len() && p < prior.len() && reached_from(nodes, #[trigger] prior[p], rest[k]);
                    assert(prior2[p] == prior[p]);
                } else {
                    let m = k - rest.len();
                    assert(next_stack[k] == pushed[m]);
                    assert(pushed[m] == (ns[ns.len() - 1 - m], (top.1 + 1) as usize));
                    assert(prior2[prior.len() as int] == top);
                    assert(ns.contains(ns[ns.len() - 1 - m]));
                    assert(reached_from(nodes, prior2[prior.len() as int], next_stack[k]));
                }
            }
            lemma_dfs_depths(nodes, next_stack, next_visited, prior2);
            let tail = dfs_order(nodes, next_stack, next_visited);
            assert(out == seq![top] + tail);
            assert(prior2 + tail =~= prior + out);
            assert forall|i: int| 0 <= i < out.len() implies reached_within(nodes, prior + out, prior.len() + i, #[trigger] out[i]) by {
                if i == 0 {
                    assert(stack[stack.len() - 1] == top);
                    assert(reached_within(nodes, prior, prior.len() as int, stack[stack.len() - 1]));
                    let p = choose|p: int| 0 <= p < prior.len() && p < prior.len() && reached_from(nodes, #[trigger] prior[p], stack[stack.len() - 1]);
                    assert((prior + out)[p] == prior[p]);
                } else {
                    assert(out[i] == tail[i - 1]);
                    assert(reached_within(nodes, prior2 + tail, prior2.len() + (i - 1), tail[i - 1]));
                }
            }
        }
    }
}

/// Whether `w` is the node some name resolves to.
pub open spec fn name_node(idx: Map<Seq<char>, usize>, w: usize) -> bool {
    exists|key: Seq<char>| idx.contains_key(key) && #[trigger] idx[key] == w
}

proof fn lemma_dep_edges_has(idx: Map<Seq<char>, usize>, from: usize, deps: Seq<PackageDependency>, q: int)
    requires
        0 <= q < deps.len(),
        idx.contains_key(deps[q].name@),
    ensures
        dep_edges(idx, from, deps).contains((from, idx[deps[q].name@])),
    decreases deps.len(),
{
    let rest = dep_edges(idx, from, deps.drop_last());
    let e = dep_edges(idx, from, deps);
    if q < deps.len() - 1 {
        assert(deps.drop_last()[q] == deps[q]);
        lemma_dep_edges_has(idx, from, deps.drop_last(), q);
        let k = choose|k: int| 0 <= k < rest.len() && rest[k] == (from, idx[deps[q].name@]);
        assert(e[k] == rest[k]);
    } else {
        assert(e == rest.push((from, idx[deps[q].name@])));
        assert(e[rest.len() as int] == (from, idx[deps[q].name@]));
    }
}

proof fn lemma_dep_edges_targets(idx: Map<Seq<char>, usize>, from: usize, deps: Seq<PackageDependency>)
    ensures
        forall|m: int|
            0 <= m < dep_edges(idx, from, deps).len() ==> name_node(idx, #[trigger] dep_edges(idx, from, deps)[m].1),
    decreases deps.len(),
{
    if deps.len() > 0 {
        let rest = dep_edges(idx, from, deps.drop_last());
        lemma_dep_edges_targets(idx, from, deps.drop_last());
        let e = dep_edges(idx, from, deps);
        assert forall|m: int| 0 <= m < e.len() implies name_node(idx, #[trigger] e[m].1) by {
            if m < rest.len() {
                assert(e[m] == rest[m]);
            } else {
                let key = deps.last().name@;
                assert(idx.contains_key(key) && idx[key] == e[m].1);
            }
        }
    }
}

proof fn lemma_graph_edges_has(pkgs: Seq<PackageMetadata>, k: int, j: int, q: int)
    requires
        0 <= j < k <= pkgs.len(),
        0 <= q < pkgs[j].dependencies@.len(),
        name_index(pkgs).contains_key(pkgs[j].dependencies@[q].name@),
    ensures
        graph_edges(pkgs, k).contains(
            (name_index(pkgs)[pkgs[j].name@], name_index(pkgs)[pkgs[j].dependencies@[q].name@]),
        ),
    decreases k,
{
    let idx = name_index(pkgs);
    let prev = graph_edges(pkgs, k - 1);
    let add = dep_edges(idx, idx[pkgs[k - 1].name@], pkgs[k - 1].dependencies@);
    let all = graph_edges(pkgs, k);
    assert(all == prev + add);
    let target = (idx[pkgs[j].name@], idx[pkgs[j].dependencies@[q].name@]);
    if j < k - 1 {
        lemma_graph_edges_has(pkgs, k - 1, j, q);
        let m = choose|m: int| 0 <= m < prev.len() && prev[m] == target;
        assert(all[m] == prev[m]);
    } else {
        lemma_dep_edges_has(idx, idx[pkgs[k - 1].name@], pkgs[k - 1].dependencies@, q);
        let m = choose|m: int| 0 <= m < add.len() && add[m] == target;
        assert(all[prev.len() + m] == add[m]);
    }
}

proof fn lemma_graph_edges_targets(pkgs: Seq<PackageMetadata>, k: int)
    ensures
        forall|m: int|
            0 <= m < graph_edges(pkgs, k).len() ==> name_node(name_index(pkgs), #[trigger] graph_edges(pkgs, k)[m].1),
    decreases k,
{
    if k > 0 {
        let idx = name_index(pkgs);
        let prev = graph_edges(pkgs, k - 1);
        let add = dep_edges(idx, idx[pkgs[k - 1].name@], pkgs[k - 1].dependencies@);
        lemma_graph_edges_targets(pkgs, k - 1);
        lemma_dep_edges_targets(idx, idx[pkgs[k - 1].name@], pkgs[k - 1].dependencies@);
        let all = graph_edges(pkgs, k);
        assert(all == prev + add);
        assert forall|m: int| 0 <= m < all.len() implies name_node(idx, #[trigger] all[m].1) by {
            if m < prev.len() {
                assert(all[m] == prev[m]);
            } else {
                assert(all[m] == add[m - prev.len()]);
            }
        }
    }
}

proof fn lemma_out_neighbors_has(edges: Seq<(usize, usize)>, v: usize, m: int)
    requires
        0 <= m < edges.len(),
        edges[m].0 == v,
    ensures
        out_neighbors(edges, v).contains(edges[m].1),
    decreases edges.len(),
{
    let prev = edges.drop_last();
    let rest = out_neighbors(prev, v);
    let out = out_neighbors(edges, v);
    if m < edges.len() - 1 {
        assert(prev[m] == edges[m]);
        lemma_out_neighbors_has(prev, v, m);
        let k = choose|k: int| 0 <= k < rest.len() && rest[k] == edges[m].1;
        if edges.last().0 == v {
            assert(out[k + 1] == rest[k]);
        } else {
            assert(out[k] == rest[k]);
        }
    } else {
        assert(out[0] == edges[m].1);
    }
}

proof fn lemma_out_neighbors_good(edges: Seq<(usize, usize)>, v: usize, good: spec_fn(usize) -> bool)
    requires
        forall|m: int| 0 <= m < edges.len() ==> good(#[trigger] edges[m].1),
    ensures
        forall|j: int| 0 <= j < out_neighbors(edges, v).len() ==> good(#[trigger] out_neighbors(edges, v)[j]),
    decreases edges.len(),
{
    if edges.len() > 0 {
        let prev = edges.drop_last();
        assert forall|m: int| 0 <= m < prev.len() implies good(#[trigger] prev[m].1) by {
            assert(prev[m] == edges[m]);
        }
        lemma_out_neighbors_good(prev, v, good);
        let rest = out_neighbors(prev, v);
        let out = out_neighbors(edges, v);
        assert(good(edges[edges.len() - 1].1));
        assert forall|j: int| 0 <= j < out.len() implies good(#[trigger] out[j]) by {
            if edges.last().0 == v {
                if j > 0 {
                    assert(out[j] == rest[j - 1]);
                }
            } else {
                assert(out[j] == rest[j]);
            }
        }
    }
}

/// The dependency tree leaves no dependency out: when it lists a crate, every
/// dependency of a package of that name that names a package of the workspace is
/// listed too, however deep it lies.
pub proof fn lemma_tree_lists_every_dependency(
    pkgs: Seq<PackageMetadata>,
    root: Seq<char>,
    i: int,
    j: int,
    q: int,
)
    requires
        pkgs.len() <= usize::MAX,
        0 <= i < dependency_tree_of(pkgs, root).len(),
        0 <= j < pkgs.len(),
        pkgs[j].name@ == dependency_tree_of(pkgs, root)[i].0,
        0 <= q < pkgs[j].dependencies@.len(),
        exists|m: int| 0 <= m < pkgs.len() && #[trigger] pkgs[m].name@ == pkgs[j].dependencies@[q].name@,
    ensures
        exists|k: int|
            0 <= k < dependency_tree_of(pkgs, root).len() && #[trigger] dependency_tree_of(pkgs, root)[k].0
                == pkgs[j].dependencies@[q].name@,
{
    let idx = name_index(pkgs);
    lemma_name_index(pkgs);
    let n = pkgs.len();
    let g = dependency_graph(pkgs);
    let visited = Seq::new(n, |x: int| false);
    let start = seq![(idx[root], 0usize)];
    let walk = dfs_order(g, start, visited);
    assert(idx.contains_key(root));
    assert(walk == tree_walk(pkgs, root));
    let tree = dependency_tree_of(pkgs, root);
    let edges = graph_edges(pkgs, n as int);
    let good = |w: usize| w < n && idx.contains_key(pkgs[w as int].name@) && idx[pkgs[w as int].name@] == w;
    // Every listed node is the node of its own name.
    lemma_graph_edges_targets(pkgs, n as int);
    assert forall|m: int| 0 <= m < edges.len() implies good(#[trigger] edges[m].1) by {
        assert(name_node(idx, edges[m].1));
        let key = choose|key: Seq<char>| idx.contains_key(key) && #[trigger] idx[key] == edges[m].1;
        assert(pkgs[idx[key] as int].name@ == key);
    }
    assert forall|v: int, x: int| 0 <= v < g.len() && 0 <= x < g[v].1.len() implies good(#[trigger] g[v].1[x]) by {
        lemma_out_neighbors_good(edges, v as usize, good);
        assert(g[v].1 == out_neighbors(edges, v as usize));
    }
    assert(good(start[0].0)) by {
        assert(pkgs[idx[root] as int].name@ == root);
    }
    assert forall|k: int| 0 <= k < start.len() implies good(#[trigger] start[k].0) by {
        assert(k == 0);
    }
    lemma_dfs_good(g, start, visited, good);
    let v = walk[i].0;
    assert(good(v));
    assert(tree[i].0 == pkgs[v as int].name@);
    assert(idx[pkgs[j].name@] == v);
    // The edge from that node to the dependency.
    let dep = pkgs[j].dependencies@[q].name@;
    let mm = choose|m: int| 0 <= m < pkgs.len() && #[trigger] pkgs[m].name@ == dep;
    assert(idx.contains_key(pkgs[mm].name@));
    let t = idx[dep];
    lemma_graph_edges_has(pkgs, n as int, j, q);
    let e = choose|e: int| 0 <= e < edges.len() && edges[e] == (v, t);
    lemma_out_neighbors_has(edges, v, e);
    assert(g[v as int].1 == out_neighbors(edges, v));
    let x = choose|x: int| 0 <= x < g[v as int].1.len() && g[v as int].1[x] == t;
    // A depth-first walk lists every neighbour of what it lists.
    lemma_dfs_closed(g, start, visited);
    assert(g[walk[i].0 as int].1[x] == t);
    assert(t < n);
    assert(!visited[t as int]);
    assert(walk_lists(walk, t));
    let k = choose|k: int| 0 <= k < walk.len() && #[trigger] walk[k].0 == t;
    assert(tree[k].0 == pkgs[t as int].name@);
    assert(pkgs[t as int].name@ == dep);
}

/// Whether `e` is an edge added for a dependency of `deps`.
pub open spec fn dep_edge_of(idx: Map<Seq<char>, usize>, from: usize, deps: Seq<PackageDependency>, e: (usize, usize)) -> bool {
    exists|q: int|
        0 <= q < deps.len() && idx.contains_key(#[trigger] deps[q].name@) && e == (from, idx[deps[q].name@])
}

/// Whether `e` is the edge for some dependency of some package.
pub open spec fn package_edge(pkgs: Seq<PackageMetadata>, e: (usize, usize)) -> bool {
    exists|j: int, q: int|
        #![trigger pkgs[j].dependencies@[q]]
        0 <= j < pkgs.len() && 0 <= q < pkgs[j].dependencies@.len() && name_index(pkgs).contains_key(
            pkgs[j].dependencies@[q].name@,
        ) && e == (name_index(pkgs)[pkgs[j].name@], name_index(pkgs)[pkgs[j].dependencies@[q].name@])
}

proof fn lemma_dep_edges_from(idx: Map<Seq<char>, usize>, from: usize, deps: Seq<PackageDependency>)
    ensures
        forall|m: int|
            0 <= m < dep_edges(idx, from, deps).len() ==> dep_edge_of(idx, from, deps, #[trigger] dep_edges(idx, from, deps)[m]),
    decreases deps.len(),
{
    if deps.len() > 0 {
        let prev = deps.drop_last();
        lemma_dep_edges_from(idx, from, prev);
        let rest = dep_edges(idx, from, prev);
        let out = dep_edges(idx, from, deps);
        assert forall|m: int| 0 <= m < out.len() implies dep_edge_of(idx, from, deps, #[trigger] out[m]) by {
            if m < rest.len() {
                assert(out[m] == rest[m]);
                assert(dep_edge_of(idx, from, prev, rest[m]));
                let q = choose|q: int|
                    0 <= q < prev.len() && idx.contains_key(#[trigger] prev[q].name@) && rest[m] == (from, idx[prev[q].name@]);
                assert(prev[q] == deps[q]);
            } else {
                let q = deps.len() - 1;
                assert(deps[q] == deps.last());
            }
        }
    }
}

proof fn lemma_graph_edges_from(pkgs: Seq<PackageMetadata>, k: int)
    requires
        k <= pkgs.len(),
    ensures
        forall|m: int| 0 <= m < graph_edges(pkgs, k).len() ==> package_edge(pkgs, #[trigger] graph_edges(pkgs, k)[m]),
    decreases k,
{
    if k > 0 {
        let idx = name_index(pkgs);
        let prev = graph_edges(pkgs, k - 1);
        let deps = pkgs[k - 1].dependencies@;
        let from = idx[pkgs[k - 1].name@];
        let add = dep_edges(idx, from, deps);
        lemma_graph_edges_from(pkgs, k - 1);
        lemma_dep_edges_from(idx, from, deps);
        let all = graph_edges(pkgs, k);
        assert(all == prev + add);
        assert forall|m: int| 0 <= m < all.len() implies package_edge(pkgs, #[trigger] all[m]) by {
            if m < prev.len() {
                assert(all[m] == prev[m]);
            } else {
                assert(all[m] == add[m - prev.len()]);
                assert(dep_edge_of(idx, from, deps, add[m - prev.len()]));
                let q = choose|q: int|
                    0 <= q < deps.len() && idx.contains_key(#[trigger] deps[q].name@) && add[m - prev.len()] == (from, idx[deps[q].name@]);
                assert(pkgs[k - 1].dependencies@[q] == deps[q]);
            }
        }
    }
}

proof fn lemma_out_neighbors_from(edges: Seq<(usize, usize)>, v: usize)
    ensures
        forall|x: int|
            0 <= x < out_neighbors(edges, v).len() ==> edges.contains((v, #[trigger] out_neighbors(edges, v)[x])),
    decreases edges.len(),
{
    if edges.len() > 0 {
        let prev = edges.drop_last();
        lemma_out_neighbors_from(prev, v);
        let rest = out_neighbors(prev, v);
        let out = out_neighbors(edges, v);
        assert forall|x: int| 0 <= x < out.len() implies edges.contains((v, #[trigger] out[x])) by {
            let y = if edges.last().0 == v {
                x - 1
            } else {
                x
            };
            if edges.last().0 == v && x == 0 {
                assert(edges[edges.len() - 1] == (v, out[x]));
            } else {
                assert(out[x] == rest[y]);
                assert(prev.contains((v, rest[y])));
                let m = choose|m: int| 0 <= m < prev.len() && prev[m] == (v, rest[y]);
                assert(edges[m] == prev[m]);
            }
        }
    }
}

proof fn lemma_walk_depth_bound(
    nodes: Seq<(Seq<char>, Seq<usize>)>,
    walk: Seq<(usize, usize)>,
    k: int,
)
    requires
        walk.len() > 0,
        walk.len() <= usize::MAX,
        walk[0].1 == 0,
        forall|i: int| 0 < i < walk.len() ==> reached_within(nodes, walk, i, #[trigger] walk[i]),
        0 <= k < walk.len(),
    ensures
        walk[k].1 <= k,
    decreases k,
{
    if k > 0 {
        assert(reached_within(nodes, walk, k, walk[k]));
        let p = choose|p: int| 0 <= p < k && p < walk.len() && reached_from(nodes, #[trigger] walk[p], walk[k]);
        lemma_walk_depth_bound(nodes, walk, p);
    }
}

/// Each crate after the first in a dependency tree sits one level below a crate listed
/// before it that depends on it: some package of the earlier crate's name has a
/// dependency of this crate's name.
pub proof fn lemma_tree_depths_follow_dependencies(pkgs: Seq<PackageMetadata>, root: Seq<char>, i: int)
    requires
        pkgs.len() <= usize::MAX,
        0 < i < dependency_tree_of(pkgs, root).len(),
    ensures
        exists|p: int, j: int, q: int|
            #![trigger dependency_tree_of(pkgs, root)[p], pkgs[j].dependencies@[q]]
            0 <= p < i && dependency_tree_of(pkgs, root)[p].1 + 1 == dependency_tree_of(pkgs, root)[i].1 && 0
                <= j < pkgs.len() && pkgs[j].name@ == dependency_tree_of(pkgs, root)[p].0 && 0 <= q
                < pkgs[j].dependencies@.len() && pkgs[j].dependencies@[q].name@ == dependency_tree_of(
                pkgs,
                root,
            )[i].0,
{
    let idx = name_index(pkgs);
    lemma_name_index(pkgs);
    let n = pkgs.len();
    let g = dependency_graph(pkgs);
    let visited = Seq::new(n, |x: int| false);
    assert(idx.contains_key(root));
    let r = idx[root];
    let start = seq![(r, 0usize)];
    let walk = dfs_order(g, start, visited);
    assert(walk == tree_walk(pkgs, root));
    let tree = dependency_tree_of(pkgs, root);
    let edges = graph_edges(pkgs, n as int);
    // The walk lists the root, then walks from its neighbours.
    assert(start.last() == (r, 0usize));
    assert(start.drop_last() =~= Seq::<(usize, usize)>::empty());
    assert(r < n);
    assert(!visited[r as int]);
    lemma_count_false_set(visited, r as int);
    let pushed = pushed_neighbors(g, r, 1usize);
    let stack2 = Seq::<(usize, usize)>::empty() + pushed;
    let visited2 = visited.update(r as int, true);
    let tail = dfs_order(g, stack2, visited2);
    assert(walk == seq![(r, 0usize)] + tail);
    let prior = seq![(r, 0usize)];
    let ns = g[r as int].1;
    assert forall|k: int| 0 <= k < stack2.len() implies reached_within(g, prior, prior.len() as int, #[trigger] stack2[k]) by {
        assert(stack2[k] == pushed[k]);
        assert(pushed[k] == (ns[ns.len() - 1 - k], 1usize));
        assert(ns.contains(ns[ns.len() - 1 - k]));
        assert(reached_from(g, prior[0], stack2[k]));
    }
    lemma_dfs_depths(g, stack2, visited2, prior);
    assert(prior + tail =~= walk);
    assert forall|x: int| 0 < x < walk.len() implies reached_within(g, walk, x, #[trigger] walk[x]) by {
        assert(walk[x] == tail[x - 1]);
        assert(reached_within(g, prior + tail, prior.len() + (x - 1), tail[x - 1]));
    }
    // The walk is no longer than the number of packages.
    lemma_tree_lists_each_package_once(pkgs, root);
    let ids = walk.map_values(|e: (usize, usize)| e.0 as int);
    assert(ids.no_duplicates()) by {
        assert forall|a: int, b: int| 0 <= a < ids.len() && 0 <= b < ids.len() && a != b implies ids[a] != ids[b] by {
            if a < b {
                assert(walk[a].0 != walk[b].0);
            } else {
                assert(walk[b].0 != walk[a].0);
            }
        }
    }
    ids.unique_seq_to_set();
    vstd::set_lib::lemma_int_range(0, n as int);
    assert(ids.to_set().subset_of(vstd::set_lib::set_int_range(0, n as int))) by {
        assert forall|x: int| ids.to_set().contains(x) implies vstd::set_lib::set_int_range(0, n as int).contains(x) by {
            assert(ids.contains(x));
            let a = choose|a: int| 0 <= a < ids.len() && ids[a] == x;
            assert(walk[a].0 < n);
        }
    }
    vstd::set_lib::lemma_len_subset(ids.to_set(), vstd::set_lib::set_int_range(0, n as int));
    assert(walk.len() <= n);
    assert(walk[0] == (r, 0usize));
    // The entry that reached this one.
    assert(reached_within(g, walk, i, walk[i]));
    let p = choose|p: int| 0 <= p < i && p < walk.len() && reached_from(g, #[trigger] walk[p], walk[i]);
    lemma_walk_depth_bound(g, walk, p);
    let v = walk[p].0;
    let w = walk[i].0;
    assert(g[v as int].1 == out_neighbors(edges, v));
    let x = choose|x: int| 0 <= x < g[v as int].1.len() && g[v as int].1[x] == w;
    lemma_out_neighbors_from(edges, v);
    assert(edges.contains((v, out_neighbors(edges, v)[x])));
    let m = choose|m: int| 0 <= m < edges.len() && edges[m] == (v, w);
    lemma_graph_edges_from(pkgs, n as int);
    assert(package_edge(pkgs, edges[m]));
    let (j, q) = choose|j: int, q: int|
        #![trigger pkgs[j].dependencies@[q]]
        0 <= j < pkgs.len() && 0 <= q < pkgs[j].dependencies@.len() && idx.contains_key(
            pkgs[j].dependencies@[q].name@,
        ) && edges[m] == (idx[pkgs[j].name@], idx[pkgs[j].dependencies@[q].name@]);
    assert(idx.contains_key(pkgs[j].name@));
    assert(pkgs[idx[pkgs[j].name@] as int].name@ == pkgs[j].name@);
    assert(pkgs[w as int].name@ == pkgs[j].dependencies@[q].name@);
    assert(tree[p] == (pkgs[v as int].name@, walk[p].1));
    assert(tree[i] == (pkgs[w as int].name@, walk[i].1));
    assert(walk[p].1 < usize::MAX);
}

impl DependencyAnalyzer {
    #[verifier::type_invariant]
    spec fn well_formed(self) -> bool {
        &&& self.metadata.packages@.len() < u32::MAX
        &&& self.metadata.root matches Some(r) ==> r < self.metadata.packages@.len()
        &&& graph_nodes(self.graph) == dependency_graph(self.metadata.packages@)
        &&& self.node_map@ == name_index(self.metadata.packages@)
    }

    /// The packages the analyzer was built from.
    pub closed spec fn packages(self) -> Seq<PackageMetadata> {
        self.metadata.packages@
    }

    /// The index of the workspace's root package, if any.
    pub closed spec fn root(self) -> Option<usize> {
        self.metadata.root
    }

    /// Builds the analyzer for a workspace: one graph node per package and an edge
    /// from a package to each of its dependencies that names a package. A name
    /// shared by several packages resolves to the last of them.
    pub fn from_metadata(metadata: WorkspaceMetadata) -> (a: Self)
        requires
            metadata.packages@.len() < u32::MAX,
            total_dependencies(metadata.packages@) < u32::MAX,
            metadata.root matches Some(r) ==> r < metadata.packages@.len(),
        ensures
            a.packages() == metadata.packages@,
            a.root() == metadata.root,
    {
        let ghost pkgs = metadata.packages@;
        let n = metadata.packages.len();
        let mut graph = graph_new();
        let mut node_map: StringHashMap<usize> = StringHashMap::new();
        let mut i: usize = 0;
        while i < n
            invariant
                n == pkgs.len(),
                pkgs == metadata.packages@,
                n < u32::MAX,
                i <= n,
                graph_nodes(graph) =~= Seq::new(
                    i as nat,
                    |j: int| (pkgs[j].name@, Seq::<usize>::empty()),
                ),
                graph_edge_count(graph) == 0,
                node_map@ == name_index(pkgs.take(i as int)),
            decreases n - i,
        {
            let name = metadata.packages[i].name.clone();
            graph_add_node(&mut graph, name.clone());
            node_map.insert(name, i);
            proof {
                assert(pkgs.take(i + 1).drop_last() =~= pkgs.take(i as int));
            }
            i = i + 1;
        }
        proof {
            assert(pkgs.take(n as int) =~= pkgs);
            lemma_name_index(pkgs);
        }
        let ghost idx = name_index(pkgs);
        let mut i: usize = 0;
        while i < n
            invariant
                n == pkgs.len(),
                pkgs == metadata.packages@,
                n < u32::MAX,
                total_dependencies(pkgs) < u32::MAX,
                i <= n,
                idx == name_index(pkgs),
                node_map@ == idx,
                forall|k: Seq<char>| #[trigger]
                    idx.contains_key(k) ==> idx[k] < pkgs.len() && pkgs[idx[k] as int].name@ == k,
                forall|j: int| 0 <= j < pkgs.len() ==> #[trigger] idx.contains_key(pkgs[j].name@),
                graph_nodes(graph) =~= Seq::new(
                    n as nat,
                    |v: int| (pkgs[v].name@, out_neighbors(graph_edges(pkgs, i as int), v as usize)),
                ),
                graph_edge_count(graph) == graph_edges(pkgs, i as int).len(),
                graph_edges(pkgs, i as int).len() <= total_dependencies(pkgs.take(i as int)),
            decreases n - i,
        {
            let pkg = &metadata.packages[i];
            proof {
                assert(idx.contains_key(pkgs[i as int].name@));
                assert(pkgs.take(i + 1).drop_last() =~= pkgs.take(i as int));
                lemma_total_dependencies_prefix(pkgs, i + 1);
            }
            let ghost base = graph_edges(pkgs, i as int);
            let ghost deps = pkg.dependencies@;
            if let Some(from) = node_map.get(pkg.name.as_str()) {
                let from = *from;
                let mut j: usize = 0;
                while j < pkg.dependencies.len()
                    invariant
                        n == pkgs.len(),
                        pkgs == metadata.packages@,
                        i < n,
                        pkg == metadata.packages@[i as int],
                        deps == pkg.dependencies@,
                        from == idx[pkgs[i as int].name@],
                        from < n,
                        idx == name_index(pkgs),
                        node_map@ == idx,
                        forall|k: Seq<char>| #[trigger] idx.contains_key(k) ==> idx[k] < pkgs.len(),
                        j <= deps.len(),
                        base == graph_edges(pkgs, i as int),
                        base.len() <= total_dependencies(pkgs.take(i as int)),
                        total_dependencies(pkgs.take(i + 1)) == total_dependencies(pkgs.take(i as int))
                            + deps.len(),
                        total_dependencies(pkgs.take(i + 1)) <= total_dependencies(pkgs),
                        total_dependencies(pkgs) < u32::MAX,
                        graph_nodes(graph) =~= Seq::new(
                            n as nat,
                            |v: int|
                                (
                                    pkgs[v].name@,
                                    out_neighbors(
                                        base + dep_edges(idx, from, deps.take(j as int)),
                                        v as usize,
                                    ),
                                ),
                        ),
                        graph_edge_count(graph) == base.len() + dep_edges(
                            idx,
                            from,
                            deps.take(j as int),
                        ).len(),
                    decreases deps.len() - j,
                {
                    let dep = &pkg.dependencies[j];
                    let ghost before = base + dep_edges(idx, from, deps.take(j as int));
                    proof {
                        assert(deps.take(j + 1).drop_last() =~= deps.take(j as int));
                        assert(deps.take(j + 1).last() == deps[j as int]);
                        lemma_dep_edges(idx, from, deps.take(j as int), n as nat);
                    }
                    if let Some(to) = node_map.get(dep.name.as_str()) {
                        let to = *to;
                        let ghost old_nodes = graph_nodes(graph);
                        graph_add_edge(&mut graph, from, to);
                        proof {
                            let after = before.push((from, to));
                            assert(base + dep_edges(idx, from, deps.take(j + 1)) =~= after);
                            assert(after.drop_last() =~= before);
                            assert forall|v: int| 0 <= v < n implies #[trigger] graph_nodes(graph)[v]
                                == (pkgs[v].name@, out_neighbors(after, v as usize)) by {
                                if v == from {
                                } else {
                                    assert(graph_nodes(graph)[v] == old_nodes[v]);
                                }
                            }
                        }
                    } else {
                        proof {
                            assert(base + dep_edges(idx, from, deps.take(j + 1)) =~= before);
                        }
                    }
                    j = j + 1;
                }
                proof {
                    assert(deps.take(deps.len() as int) =~= deps);
                    assert(graph_edges(pkgs, i + 1) == base + dep_edges(idx, from, deps));
                    lemma_dep_edges(idx, from, deps, n as nat);
                }
            }
            i = i + 1;
        }
        proof {
            assert(graph_nodes(graph) =~= dependency_graph(pkgs));
        }
        DependencyAnalyzer { metadata, graph, node_map }
    }

    fn extract_dependencies(&self, pkg: &PackageMetadata) -> (r: Vec<DependencyInfo>)
        ensures
            dependency_infos_of(r@, pkg.dependencies@),
    {
        let mut r: Vec<DependencyInfo> = Vec::new();
        let mut i: usize = 0;
        while i < pkg.dependencies.len()
            invariant
                i <= pkg.dependencies@.len(),
                r@.len() == i,
                forall|j: int| 0 <= j < i ==> #[trigger] dependency_info_of(r@[j], pkg.dependencies@[j]),
            decreases pkg.dependencies@.len() - i,
        {
            let dep = &pkg.dependencies[i];
            let kind = match dep.kind {
                CargoDependencyKind::Normal => DependencyKind::Normal,
                CargoDependencyKind::Development => DependencyKind::Dev,
                CargoDependencyKind::Build => DependencyKind::Build,
                CargoDependencyKind::Unknown => DependencyKind::Normal,
            };
            r.push(
                DependencyInfo {
                    name: dep.name.clone(),
                    version: dep.req.clone(),
                    optional: dep.optional,
                    features: clone_strings(&dep.features),
                    kind,
                },
            );
            i = i + 1;
        }
        r
    }

    fn package_to_info(&self, pkg: &PackageMetadata) -> (r: CrateInfo)
        ensures
            crate_info_of(r, *pkg),
    {
        let dependencies = self.extract_dependencies(pkg);
        let mut features: Vec<String> = Vec::new();
        let mut default_features: Vec<String> = Vec::new();
        let mut found = false;
        let default_key = String::from_str("default");
        let mut i: usize = 0;
        while i < pkg.features.len()
            invariant
                i <= pkg.features@.len(),
                default_key@ == "default"@,
                features@ == feature_names(pkg.features@.take(i as int)),
                found ==> default_features@ == default_features_of(pkg.features@),
                !found ==> default_features@ == Seq::<String>::empty(),
                !found ==> forall|j: int| 0 <= j < i ==> #[trigger] pkg.features@[j].0@ != "default"@,
            decreases pkg.features@.len() - i,
        {
            let entry = &pkg.features[i];
            features.push(entry.0.clone());
            if !found && entry.0 == default_key {
                default_features = clone_strings(&entry.1);
                found = true;
                proof {
                    lemma_default_features_found(pkg.features@, i as int);
                }
            }
            proof {
                assert(feature_names(pkg.features@.take(i + 1)) =~= feature_names(
                    pkg.features@.take(i as int),
                ).push(entry.0));
            }
            i = i + 1;
        }
        proof {
            assert(pkg.features@.take(pkg.features@.len() as int) =~= pkg.features@);
            if !found {
                lemma_default_features_absent(pkg.features@);
            }
        }
        let info = CrateInfo {
            name: pkg.name.clone(),
            version: pkg.version.clone(),
            authors: clone_strings(&pkg.authors),
            license: clone_opt_string(&pkg.license),
            description: clone_opt_string(&pkg.description),
            homepage: clone_opt_string(&pkg.homepage),
            repository: clone_opt_string(&pkg.repository),
            documentation: clone_opt_string(&pkg.documentation),
            dependencies,
            features,
            default_features,
            edition: pkg.edition.clone(),
            rust_version: clone_opt_string(&pkg.rust_version),
        };
        info
    }

    /// Position of the first package named `name`.
    fn find_package(&self, name: &str) -> (r: Option<usize>)
        ensures
            r is Some <==> first_named(self.packages(), name@) is Some,
            r matches Some(k) ==> first_named(self.packages(), name@) == Some(k as int) && k
                < self.packages().len(),
    {
        let target = String::from_str(name);
        let mut i: usize = 0;
        while i < self.metadata.packages.len()
            invariant
                i <= self.metadata.packages@.len(),
                target@ == name@,
                forall|j: int| 0 <= j < i ==> #[trigger] self.metadata.packages@[j].name@ != name@,
            decreases self.metadata.packages@.len() - i,
        {
            if self.metadata.packages[i].name == target {
                proof {
                    lemma_first_named_found(self.metadata.packages@, name@, i as int);
                }
                return Some(i);
            }
            i = i + 1;
        }
        proof {
            lemma_first_named_absent(self.metadata.packages@, name@);
        }
        None
    }

    /// Information about the root package, if the workspace has one.
    pub fn root_package(&self) -> (r: Option<CrateInfo>)
        ensures
            match self.root() {
                Some(k) => r matches Some(info) && crate_info_of(info, self.packages()[k as int]),
                None => r is None,
            },
    {
        proof {
            use_type_invariant(self);
        }
        match self.metadata.root {
            Some(k) => Some(self.package_to_info(&self.metadata.packages[k])),
            None => None,
        }
    }

    /// Information about the first package named `name`.
    pub fn get_crate_info(&self, name: &str) -> (r: Option<CrateInfo>)
        ensures
            match first_named(self.packages(), name@) {
                Some(k) => r matches Some(info) && crate_info_of(info, self.packages()[k]),
                None => r is None,
            },
    {
        match self.find_package(name) {
            Some(k) => Some(self.package_to_info(&self.metadata.packages[k])),
            None => None,
        }
    }

    /// Information about every package, in metadata order.
    pub fn all_packages(&self) -> (r: Vec<CrateInfo>)
        ensures
            r@.len() == self.packages().len(),
            forall|i: int| 0 <= i < r@.len() ==> #[trigger] crate_info_of(r@[i], self.packages()[i]),
    {
        let mut r: Vec<CrateInfo> = Vec::new();
        let mut i: usize = 0;
        while i < self.metadata.packages.len()
            invariant
                i <= self.metadata.packages@.len(),
                r@.len() == i,
                forall|j: int| 0 <= j < i ==> #[trigger] crate_info_of(r@[j], self.packages()[j]),
            decreases self.metadata.packages@.len() - i,
        {
            r.push(self.package_to_info(&self.metadata.packages[i]));
            i = i + 1;
        }
        r
    }

    /// The direct dependencies of the first package named `name`; none when no
    /// package has that name.
    pub fn direct_dependencies(&self, name: &str) -> (r: Vec<DependencyInfo>)
        ensures
            match first_named(self.packages(), name@) {
                Some(k) => dependency_infos_of(r@, self.packages()[k].dependencies@),
                None => r@.len() == 0,
            },
    {
        match self.find_package(name) {
            Some(k) => self.extract_dependencies(&self.metadata.packages[k]),
            None => Vec::new(),
        }
    }

    /// The dependency tree of `root` as a flat list of (crate name, depth): the
    /// depth-first walk of the dependency graph from the crate, each crate listed once,
    /// at the depth where the walk first reaches it.
    #[verifier::spinoff_prover]
    pub fn dependency_tree(&self, root: &str) -> (tree: Vec<(String, usize)>)
        ensures
            tree_view(tree@) == dependency_tree_of(self.packages(), root@),
    {
        proof {
            use_type_invariant(self);
        }
        let ghost pkgs = self.metadata.packages@;
        let root_node = match self.node_map.get(root) {
            Some(r) => *r,
            None => {
                return Vec::new();
            },
        };
        proof {
            lemma_name_index(pkgs);
            lemma_dependency_graph_closed(pkgs);
        }
        let ghost nodes = graph_nodes(self.graph);
        let n = self.metadata.packages.len();
        let mut visited: Vec<bool> = Vec::new();
        let mut i: usize = 0;
        while i < n
            invariant
                i <= n,
                visited@ =~= Seq::new(i as nat, |j: int| false),
            decreases n - i,
        {
            visited.push(false);
            i = i + 1;
        }
        proof {
            assert(count_false(visited@) == n) by {
                lemma_count_false_all(visited@);
            }
        }
        let mut stack: Vec<(usize, usize)> = Vec::new();
        stack.push((root_node, 0));
        let ghost full = dfs_order(nodes, stack@, visited@);
        let ghost mut order: Seq<(usize, usize)> = Seq::empty();
        let mut result: Vec<(String, usize)> = Vec::new();
        while stack.len() > 0
            invariant
                nodes == graph_nodes(self.graph),
                nodes == dependency_graph(pkgs),
                n == nodes.len(),
                n < u32::MAX,
                forall|v: int, j: int|
                    0 <= v < n && 0 <= j < nodes[v].1.len() ==> #[trigger] nodes[v].1[j] < n,
                visited@.len() == n,
                forall|k: int|
                    #![trigger stack@[k]]
                    0 <= k < stack@.len() ==> stack@[k].0 < n && stack@[k].1 <= order.len(),
                order.len() + count_false(visited@) == n,
                order + dfs_order(nodes, stack@, visited@) == full,
                result@.len() == order.len(),
                forall|k: int|
                    #![trigger result@[k]]
                    0 <= k < result@.len() ==> result@[k].0@ == pkgs[order[k].0 as int].name@
                        && result@[k].1 == order[k].1 && order[k].0 < n,
            decreases count_false(visited@), stack@.len(),
        {
            let ghost old_stack = stack@;
            let ghost old_visited = visited@;
            let top = stack.pop().unwrap();
            let v = top.0;
            let d = top.1;
            proof {
                assert(top == old_stack.last());
                assert(stack@ =~= old_stack.drop_last());
            }
            if !visited[v] {
                proof {
                    lemma_count_false_set(old_visited, v as int);
                }
                visited.set(v, true);
                let name = graph_node_name(&self.graph, v);
                result.push((name, d));
                let ns = graph_neighbors(&self.graph, v);
                let ghost base = stack@;
                let mut k = ns.len();
                while k > 0
                    invariant
                        ns@ == nodes[v as int].1,
                        k <= ns@.len(),
                        v < n,
                        d <= order.len(),
                        order.len() < n,
                        forall|j: int| 0 <= j < ns@.len() ==> #[trigger] ns@[j] < n,
                        stack@ =~= base + pushed_neighbors(nodes, v, (d + 1) as usize).take(
                            ns@.len() - k,
                        ),
                    decreases k,
                {
                    k = k - 1;
                    stack.push((ns[k], d + 1));
                    proof {
                        assert(pushed_neighbors(nodes, v, (d + 1) as usize).take(ns@.len() - k)
                            =~= pushed_neighbors(nodes, v, (d + 1) as usize).take(
                            ns@.len() - k - 1,
                        ).push((ns@[k as int], (d + 1) as usize)));
                    }
                }
                proof {
                    assert(pushed_neighbors(nodes, v, (d + 1) as usize).take(ns@.len() as int)
                        =~= pushed_neighbors(nodes, v, (d + 1) as usize));
                    assert(ns@.len() == nodes[v as int].1.len());
                    let new_order = order.push(top);
                    assert(new_order + dfs_order(nodes, stack@, visited@) =~= order + (seq![top]
                        + dfs_order(nodes, stack@, visited@)));
                    order = new_order;
                }
            } else {
                proof {
                    assert(dfs_order(nodes, old_stack, old_visited) == dfs_order(
                        nodes,
                        stack@,
                        visited@,
                    ));
                }
            }
        }
        proof {
            assert(order =~= full);
            assert(tree_walk(pkgs, root@) == full);
            assert(tree_view(result@) =~= dependency_tree_of(pkgs, root@));
        }
        result
    }

    /// The number of crates in the dependency tree of `name`, not counting the crate
    /// itself.
    pub fn total_dependency_count(&self, name: &str) -> (count: usize)
        ensures
            count == if dependency_tree_of(self.packages(), name@).len() > 0 {
                dependency_tree_of(self.packages(), name@).len() - 1
            } else {
                0
            },
    {
        let tree = self.dependency_tree(name);
        proof {
            assert(tree_view(tree@).len() == tree@.len());
        }
        if tree.len() > 0 {
            tree.len() - 1
        } else {
            0
        }
    }
}

} // verus!
