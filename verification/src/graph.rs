//! The dependency graph of a package.
//!
//! One node stands for each package version that the lockfile mentions,
//! under its key. An edge leads from a package to each package that it
//! depends on. Packages that several others depend on share one node. The
//! graph is kept in a `petgraph` graph, which also finds the order in which
//! the packages are visited: dependencies before their dependents.

use petgraph::graph::Graph;
use petgraph::graph::NodeIndex;
use petgraph::visit::DfsPostOrder;
use petgraph::visit::Walker;
use petgraph::Directed;
use vstd::prelude::*;
use vstd::string::*;

use crate::package::DependencyView;
use crate::package::Package;
use crate::package::PackageView;
use crate::package::spec_packages;
use crate::text::lemma_push_keeps_distinct;
use crate::text::spec_strings;
use crate::text::str_eq;

verus! {

/// The graph type of petgraph, `petgraph::graph::Graph`. Nothing inside a
/// graph is seen here: what it holds is spoken of through [`graph_nodes`]
/// and [`graph_edges`].
#[verifier::external_type_specification]
#[verifier::external_body]
#[verifier::reject_recursive_types(N)]
#[verifier::reject_recursive_types(E)]
#[verifier::reject_recursive_types(Ty)]
#[verifier::reject_recursive_types(Ix)]
pub struct ExGraph<N, E, Ty, Ix>(Graph<N, E, Ty, Ix>);

/// The marker of petgraph for graphs with directed edges,
/// `petgraph::Directed`.
#[verifier::external_type_specification]
#[verifier::external_body]
pub struct ExDirected(Directed);

/// The weights of the nodes of a petgraph graph, by node index: the keys
/// that were handed to `Graph::add_node`, in the order of the calls.
pub uninterp spec fn graph_nodes(g: Graph<String, (), Directed, usize>) -> Seq<Seq<char>>;

/// The edges of a petgraph graph as pairs of node indices, source first:
/// what was handed to `Graph::add_edge`, in the order of the calls.
pub uninterp spec fn graph_edges(g: Graph<String, (), Directed, usize>) -> Seq<(int, int)>;

/// The nodes that `DfsPostOrder` of petgraph emits, in the order in which
/// it emits them, when it starts at `root` in the directed graph with
/// `nodes` nodes and the given edges. The traversal reads nothing but the
/// graph, so the order is a function of these three.
pub uninterp spec fn post_order(nodes: nat, edges: Seq<(int, int)>, root: int) -> Seq<int>;

/// Whether every edge leads from a node of higher rank to one of lower
/// rank.
pub open spec fn spec_ranked(rank: spec_fn(int) -> int, edges: Seq<(int, int)>) -> bool {
    forall|e: int| 0 <= e < edges.len() ==> rank((#[trigger] edges[e]).0) > rank(edges[e].1)
}

/// Whether the edges form no cycle: the nodes can be ranked so that every
/// edge leads from a higher rank to a lower one.
pub open spec fn spec_acyclic(edges: Seq<(int, int)>) -> bool {
    exists|rank: spec_fn(int) -> int| #[trigger] spec_ranked(rank, edges)
}

/// Whether each node of a path but the last has an edge to the next.
pub open spec fn spec_is_path(edges: Seq<(int, int)>, path: Seq<int>) -> bool {
    forall|k: int| 0 <= k < path.len() - 1 ==> edges.contains((#[trigger] path[k], path[k + 1]))
}

/// Whether a path of edges leads from one node to another. A node reaches
/// itself.
pub open spec fn spec_reaches(edges: Seq<(int, int)>, from: int, to: int) -> bool {
    exists|path: Seq<int>|
        #[trigger] spec_is_path(edges, path) && path.len() > 0 && path[0] == from && path.last()
            == to
}

/// What holds of the order in which a depth-first search in post-order,
/// started at `root`, emits the nodes of a graph: no node comes twice, all
/// are nodes of the graph, each is reached from the root, the root comes
/// last, every node that an emitted node has an edge to is emitted too,
/// and, in a graph without cycles, before it.
pub open spec fn spec_is_post_order(
    nodes: nat,
    edges: Seq<(int, int)>,
    root: int,
    order: Seq<int>,
) -> bool {
    &&& order.no_duplicates()
    &&& forall|i: int| 0 <= i < order.len() ==> 0 <= #[trigger] order[i] < nodes
    &&& forall|i: int| 0 <= i < order.len() ==> spec_reaches(edges, root, #[trigger] order[i])
    &&& order.len() > 0
    &&& order.last() == root
    &&& forall|i: int, e: int|
        0 <= i < order.len() && 0 <= e < edges.len() && (#[trigger] edges[e]).0 == #[trigger] order[i]
            ==> order.contains(edges[e].1)
    &&& spec_acyclic(edges) ==> forall|i: int, e: int|
        0 <= i < order.len() && 0 <= e < edges.len() && (#[trigger] edges[e]).0 == #[trigger] order[i]
            ==> order.take(i).contains(edges[e].1)
}

/// A post-order holds every node up to a place of a path that starts at
/// the root.
proof fn lemma_path_is_visited(
    nodes: nat,
    edges: Seq<(int, int)>,
    root: int,
    order: Seq<int>,
    path: Seq<int>,
    k: int,
)
    requires
        spec_is_post_order(nodes, edges, root, order),
        spec_is_path(edges, path),
        path.len() > 0,
        path[0] == root,
        0 <= k < path.len(),
    ensures
        order.contains(path[k]),
    decreases k,
{
    if k == 0 {
        assert(order[order.len() - 1] == root);
    } else {
        lemma_path_is_visited(nodes, edges, root, order, path, k - 1);
        let i = choose|i: int| 0 <= i < order.len() && order[i] == path[k - 1];
        assert(edges.contains((path[k - 1], path[k - 1 + 1])));
        let e = choose|e: int| 0 <= e < edges.len() && edges[e] == (path[k - 1], path[k]);
        assert(edges[e].0 == order[i]);
    }
}

/// A post-order from a root holds exactly the nodes that the root reaches.
pub proof fn lemma_visited_are_the_reached(
    nodes: nat,
    edges: Seq<(int, int)>,
    root: int,
    order: Seq<int>,
    node: int,
)
    requires
        spec_is_post_order(nodes, edges, root, order),
    ensures
        order.contains(node) <==> spec_reaches(edges, root, node),
{
    if order.contains(node) {
        let i = choose|i: int| 0 <= i < order.len() && order[i] == node;
        assert(spec_reaches(edges, root, order[i]));
    }
    if spec_reaches(edges, root, node) {
        let path = choose|path: Seq<int>|
            #[trigger] spec_is_path(edges, path) && path.len() > 0 && path[0] == root
                && path.last() == node;
        lemma_path_is_visited(nodes, edges, root, order, path, path.len() - 1);
    }
}

/// Node indices as integers.
pub open spec fn spec_node_seq(v: Seq<usize>) -> Seq<int> {
    v.map_values(|n: usize| n as int)
}

/// An empty graph.
///
/// Trusted: wraps `Graph::with_capacity` of petgraph, which makes a graph
/// without nodes and without edges.
#[verifier::external_body]
fn graph_new() -> (g: Graph<String, (), Directed, usize>)
    ensures
        graph_nodes(g) == Seq::<Seq<char>>::empty(),
        graph_edges(g) == Seq::<(int, int)>::empty(),
{
    Graph::with_capacity(0, 0)
}

/// Adds a node with the given weight and gives its index.
///
/// Trusted: wraps `Graph::add_node` of petgraph, which pushes the node
/// behind the existing ones, so that its index is the number of nodes that
/// the graph had, and leaves the edges alone. With `usize` indices it does
/// not run into a limit on the number of nodes.
#[verifier::external_body]
fn graph_add_node(g: &mut Graph<String, (), Directed, usize>, key: String) -> (ix: usize)
    ensures
        ix == graph_nodes(*old(g)).len(),
        graph_nodes(*final(g)) == graph_nodes(*old(g)).push(key@),
        graph_edges(*final(g)) == graph_edges(*old(g)),
{
    g.add_node(key).index()
}

/// Adds an edge from node `a` to node `b`.
///
/// Trusted: wraps `Graph::add_edge` of petgraph, which pushes the edge
/// behind the existing ones, parallel edges included, and leaves the nodes
/// alone. It panics where one of the two is no node of the graph, so both
/// are required to be.
#[verifier::external_body]
fn graph_add_edge(g: &mut Graph<String, (), Directed, usize>, a: usize, b: usize)
    requires
        a < graph_nodes(*old(g)).len(),
        b < graph_nodes(*old(g)).len(),
    ensures
        graph_nodes(*final(g)) == graph_nodes(*old(g)),
        graph_edges(*final(g)) == graph_edges(*old(g)).push((a as int, b as int)),
{
    g.add_edge(NodeIndex::new(a), NodeIndex::new(b), ());
}

/// The nodes that can be reached from `root`, each after the nodes that it
/// has edges to.
///
/// Trusted: wraps `DfsPostOrder` of petgraph, created at `root` and run to
/// its end. The traversal depends on the graph and the root alone. Only
/// the root and nodes that a discovered node has an edge to are ever
/// pushed, so every node that it emits is reached from the root. It emits
/// each node that it reaches once, when all nodes reached from it have been
/// emitted, and the root last. It panics where the root is no node of the
/// graph, so the root is required to be one.
#[verifier::external_body]
fn graph_dfs_post_order(g: &Graph<String, (), Directed, usize>, root: usize) -> (order: Vec<usize>)
    requires
        root < graph_nodes(*g).len(),
    ensures
        spec_node_seq(order@) == post_order(graph_nodes(*g).len(), graph_edges(*g), root as int),
        spec_is_post_order(
            graph_nodes(*g).len(),
            graph_edges(*g),
            root as int,
            spec_node_seq(order@),
        ),
{
    DfsPostOrder::new(g, NodeIndex::new(root)).iter(g).map(|n| n.index()).collect()
}

/// What a [`DependencyGraph`] holds: the keys of its nodes by node index,
/// its edges, and the package that is known for a node.
pub struct DependencyGraphView {
    pub nodes: Seq<Seq<char>>,
    pub edges: Seq<(int, int)>,
    pub packages: Map<int, PackageView>,
}

impl DependencyGraphView {
    /// No key has two nodes, every edge joins two nodes, and a package is
    /// recorded only at the node of its own key.
    pub open spec fn wf(self) -> bool {
        &&& self.nodes.no_duplicates()
        &&& forall|e: int|
            0 <= e < self.edges.len() ==> 0 <= (#[trigger] self.edges[e]).0 < self.nodes.len() && 0
                <= self.edges[e].1 < self.nodes.len()
        &&& forall|i: int| #[trigger]
            self.packages.dom().contains(i) ==> 0 <= i < self.nodes.len()
                && self.packages[i].key() == self.nodes[i]
    }
}

/// The graph without nodes.
pub open spec fn spec_empty_graph() -> DependencyGraphView {
    DependencyGraphView { nodes: Seq::empty(), edges: Seq::empty(), packages: Map::empty() }
}

/// The graph with a node for `key`: a new last node, unless there is one.
pub open spec fn spec_add_node(g: DependencyGraphView, key: Seq<char>) -> DependencyGraphView {
    if g.nodes.contains(key) {
        g
    } else {
        DependencyGraphView { nodes: g.nodes.push(key), ..g }
    }
}

/// The graph with a node for the dependency and an edge to it from the
/// node of the package.
pub open spec fn spec_add_dependency(
    g: DependencyGraphView,
    package: Seq<char>,
    dependency: Seq<char>,
) -> DependencyGraphView {
    let g1 = spec_add_node(g, dependency);
    DependencyGraphView {
        edges: g1.edges.push((g1.nodes.index_of(package), g1.nodes.index_of(dependency))),
        ..g1
    }
}

/// The graph with the dependencies of a package added one after the other.
pub open spec fn spec_add_dependencies(
    g: DependencyGraphView,
    package: Seq<char>,
    dependencies: Seq<DependencyView>,
) -> DependencyGraphView
    decreases dependencies.len(),
{
    if dependencies.len() == 0 {
        g
    } else {
        spec_add_dependency(
            spec_add_dependencies(g, package, dependencies.drop_last()),
            package,
            dependencies.last().key(),
        )
    }
}

/// The graph with a package added: a node for it, the package recorded at
/// that node, and its dependencies.
pub open spec fn spec_add_package(g: DependencyGraphView, p: PackageView) -> DependencyGraphView {
    let g1 = spec_add_node(g, p.key());
    let g2 = DependencyGraphView {
        packages: g1.packages.insert(g1.nodes.index_of(p.key()), p),
        ..g1
    };
    spec_add_dependencies(g2, p.key(), p.dependencies)
}

/// The dependency graph of a list of packages: the packages added one
/// after the other.
pub open spec fn spec_dependency_graph(packages: Seq<PackageView>) -> DependencyGraphView
    decreases packages.len(),
{
    if packages.len() == 0 {
        spec_empty_graph()
    } else {
        spec_add_package(spec_dependency_graph(packages.drop_last()), packages.last())
    }
}

/// In a sequence without duplicates, an item is found at its own index.
pub proof fn lemma_index_of_unique(s: Seq<Seq<char>>, i: int)
    requires
        s.no_duplicates(),
        0 <= i < s.len(),
    ensures
        s.index_of(s[i]) == i,
{
    let j = s.index_of(s[i]);
    assert(0 <= j < s.len() && s[j] == s[i]);
}

/// Whether a graph holds an edge from the node of one key to the node of
/// another.
pub open spec fn spec_has_edge(g: DependencyGraphView, from: Seq<char>, to: Seq<char>) -> bool {
    exists|e: int|
        0 <= e < g.edges.len() && #[trigger] g.edges[e] == (
            g.nodes.index_of(from),
            g.nodes.index_of(to),
        )
}

/// Whether a graph has grown out of another: the nodes and the edges of
/// the first are the first nodes and edges of the second.
pub open spec fn spec_grown_from(g: DependencyGraphView, from: DependencyGraphView) -> bool {
    from.nodes.is_prefix_of(g.nodes) && from.edges.is_prefix_of(g.edges)
}

/// A key keeps its node when a graph grows, and an edge between two keys
/// stays an edge between them.
pub proof fn lemma_growth_keeps_edges(
    g: DependencyGraphView,
    from: DependencyGraphView,
    a: Seq<char>,
    b: Seq<char>,
)
    requires
        g.wf(),
        from.wf(),
        spec_grown_from(g, from),
        from.nodes.contains(a),
        from.nodes.contains(b),
    ensures
        g.nodes.contains(a),
        g.nodes.contains(b),
        g.nodes.index_of(a) == from.nodes.index_of(a),
        g.nodes.index_of(b) == from.nodes.index_of(b),
        spec_has_edge(from, a, b) ==> spec_has_edge(g, a, b),
{
    let i = from.nodes.index_of(a);
    let j = from.nodes.index_of(b);
    assert(0 <= i < from.nodes.len() && from.nodes[i] == a);
    assert(0 <= j < from.nodes.len() && from.nodes[j] == b);
    assert(g.nodes[i] == from.nodes.subrange(0, from.nodes.len() as int)[i]);
    assert(g.nodes[j] == from.nodes.subrange(0, from.nodes.len() as int)[j]);
    assert(g.nodes[i] == a && g.nodes[j] == b);
    lemma_index_of_unique(g.nodes, i);
    lemma_index_of_unique(g.nodes, j);
    if spec_has_edge(from, a, b) {
        let e = choose|e: int| 0 <= e < from.edges.len() && #[trigger] from.edges[e] == (i, j);
        assert(g.edges[e] == from.edges.subrange(0, from.edges.len() as int)[e]);
        assert(g.edges[e] == (g.nodes.index_of(a), g.nodes.index_of(b)));
    }
}

/// Adding a node lets a well-formed graph grow into a well-formed graph
/// that holds the key.
pub proof fn lemma_add_node(g: DependencyGraphView, key: Seq<char>)
    requires
        g.wf(),
    ensures
        spec_add_node(g, key).wf(),
        spec_grown_from(spec_add_node(g, key), g),
        spec_add_node(g, key).nodes.contains(key),
{
    let h = spec_add_node(g, key);
    assert(g.nodes =~= h.nodes.subrange(0, g.nodes.len() as int));
    assert(g.edges =~= h.edges.subrange(0, g.edges.len() as int));
    assert forall|e: int| 0 <= e < h.edges.len() implies 0 <= (#[trigger] h.edges[e]).0
        < h.nodes.len() && 0 <= h.edges[e].1 < h.nodes.len() by {
        assert(h.edges[e] == g.edges[e]);
    }
    assert forall|i: int| #[trigger] h.packages.dom().contains(i) implies 0 <= i
        < h.nodes.len() && h.packages[i].key() == h.nodes[i] by {
        assert(g.packages.dom().contains(i));
        assert(g.packages[i].key() == g.nodes[i]);
    }
    if !g.nodes.contains(key) {
        assert(h.nodes[g.nodes.len() as int] == key);
        lemma_push_keeps_distinct(g.nodes, key);
    }
}

/// Adding a dependency lets a well-formed graph grow into a well-formed
/// graph with an edge from the package to the dependency.
pub proof fn lemma_add_dependency(g: DependencyGraphView, package: Seq<char>, dependency: Seq<char>)
    requires
        g.wf(),
        g.nodes.contains(package),
    ensures
        spec_add_dependency(g, package, dependency).wf(),
        spec_grown_from(spec_add_dependency(g, package, dependency), g),
        spec_add_dependency(g, package, dependency).nodes.contains(dependency),
        spec_has_edge(spec_add_dependency(g, package, dependency), package, dependency),
{
    let g1 = spec_add_node(g, dependency);
    let h = spec_add_dependency(g, package, dependency);
    lemma_add_node(g, dependency);
    lemma_growth_keeps_edges(g1, g, package, package);
    let a = g1.nodes.index_of(package);
    let b = g1.nodes.index_of(dependency);
    assert(0 <= b < g1.nodes.len() && g1.nodes[b] == dependency);
    assert(h.edges[g1.edges.len() as int] == (a, b));
    assert(g1.edges =~= h.edges.subrange(0, g1.edges.len() as int));
    assert(g.edges =~= h.edges.subrange(0, g.edges.len() as int));
    assert(0 <= a < g1.nodes.len());
    assert forall|e: int| 0 <= e < h.edges.len() implies 0 <= (#[trigger] h.edges[e]).0
        < h.nodes.len() && 0 <= h.edges[e].1 < h.nodes.len() by {
        if e < g1.edges.len() {
            assert(h.edges[e] == g1.edges[e]);
        }
    }
    assert forall|i: int| #[trigger] h.packages.dom().contains(i) implies 0 <= i
        < h.nodes.len() && h.packages[i].key() == h.nodes[i] by {
        assert(g1.packages.dom().contains(i));
        assert(g1.packages[i].key() == g1.nodes[i]);
    }
    assert(h.nodes.no_duplicates());
}

/// Adding the dependencies of a package lets a well-formed graph grow
/// into a well-formed graph with an edge from the package to each of them.
pub proof fn lemma_add_dependencies(
    g: DependencyGraphView,
    package: Seq<char>,
    dependencies: Seq<DependencyView>,
)
    requires
        g.wf(),
        g.nodes.contains(package),
    ensures
        spec_add_dependencies(g, package, dependencies).wf(),
        spec_grown_from(spec_add_dependencies(g, package, dependencies), g),
        spec_add_dependencies(g, package, dependencies).packages == g.packages,
        forall|j: int|
            0 <= j < dependencies.len() ==> {
                &&& spec_add_dependencies(g, package, dependencies).nodes.contains(
                    (#[trigger] dependencies[j]).key(),
                )
                &&& spec_has_edge(
                    spec_add_dependencies(g, package, dependencies),
                    package,
                    dependencies[j].key(),
                )
            },
    decreases dependencies.len(),
{
    let h = spec_add_dependencies(g, package, dependencies);
    if dependencies.len() == 0 {
        assert(g.nodes =~= g.nodes.subrange(0, g.nodes.len() as int));
        assert(g.edges =~= g.edges.subrange(0, g.edges.len() as int));
    } else {
        let front = dependencies.drop_last();
        let h1 = spec_add_dependencies(g, package, front);
        lemma_add_dependencies(g, package, front);
        lemma_growth_keeps_edges(h1, g, package, package);
        lemma_add_dependency(h1, package, dependencies.last().key());
        assert(g.nodes =~= h.nodes.subrange(0, g.nodes.len() as int)) by {
            assert(h1.nodes =~= h.nodes.subrange(0, h1.nodes.len() as int));
            assert(g.nodes =~= h1.nodes.subrange(0, g.nodes.len() as int));
        }
        assert(g.edges =~= h.edges.subrange(0, g.edges.len() as int)) by {
            assert(h1.edges =~= h.edges.subrange(0, h1.edges.len() as int));
            assert(g.edges =~= h1.edges.subrange(0, g.edges.len() as int));
        }
        assert forall|j: int| 0 <= j < dependencies.len() implies {
            &&& h.nodes.contains((#[trigger] dependencies[j]).key())
            &&& spec_has_edge(h, package, dependencies[j].key())
        } by {
            if j < front.len() {
                assert(front[j] == dependencies[j]);
                lemma_growth_keeps_edges(h, h1, package, front[j].key());
            }
        }
    }
}

/// Adding a package lets a well-formed graph grow into a well-formed
/// graph that holds the package and an edge to each of its dependencies.
pub proof fn lemma_add_package(g: DependencyGraphView, p: PackageView)
    requires
        g.wf(),
    ensures
        spec_add_package(g, p).wf(),
        spec_grown_from(spec_add_package(g, p), g),
        spec_add_package(g, p).nodes.contains(p.key()),
        forall|j: int|
            0 <= j < p.dependencies.len() ==> {
                &&& spec_add_package(g, p).nodes.contains((#[trigger] p.dependencies[j]).key())
                &&& spec_has_edge(spec_add_package(g, p), p.key(), p.dependencies[j].key())
            },
{
    let g1 = spec_add_node(g, p.key());
    lemma_add_node(g, p.key());
    let at = g1.nodes.index_of(p.key());
    assert(0 <= at < g1.nodes.len() && g1.nodes[at] == p.key());
    let g2 = DependencyGraphView { packages: g1.packages.insert(at, p), ..g1 };
    assert forall|i: int| #[trigger] g2.packages.dom().contains(i) implies 0 <= i
        < g2.nodes.len() && g2.packages[i].key() == g2.nodes[i] by {
        if i != at {
            assert(g1.packages.dom().contains(i));
            assert(g1.packages[i].key() == g1.nodes[i]);
        }
    }
    assert forall|e: int| 0 <= e < g2.edges.len() implies 0 <= (#[trigger] g2.edges[e]).0
        < g2.nodes.len() && 0 <= g2.edges[e].1 < g2.nodes.len() by {
        assert(g2.edges[e] == g1.edges[e]);
    }
    assert(g2.wf());
    lemma_add_dependencies(g2, p.key(), p.dependencies);
    let h = spec_add_package(g, p);
    lemma_growth_keeps_edges(h, g2, p.key(), p.key());
    assert(g.nodes =~= h.nodes.subrange(0, g.nodes.len() as int)) by {
        assert(g2.nodes =~= h.nodes.subrange(0, g2.nodes.len() as int));
        assert(g.nodes =~= g2.nodes.subrange(0, g.nodes.len() as int));
    }
    assert(g.edges =~= h.edges.subrange(0, g.edges.len() as int)) by {
        assert(g2.edges =~= h.edges.subrange(0, g2.edges.len() as int));
        assert(g.edges =~= g2.edges.subrange(0, g.edges.len() as int));
    }
}

/// The dependency graph of a list of packages is well formed. It holds a
/// node for every package of the list and for every dependency of one,
/// and an edge from each package to each of its dependencies. Packages
/// that several others depend on have one node.
pub proof fn lemma_dependency_graph(packages: Seq<PackageView>)
    ensures
        spec_dependency_graph(packages).wf(),
        forall|k: int|
            0 <= k < packages.len() ==> spec_dependency_graph(packages).nodes.contains(
                (#[trigger] packages[k]).key(),
            ),
        forall|k: int, j: int|
            0 <= k < packages.len() && 0 <= j < packages[k].dependencies.len() ==> {
                &&& spec_dependency_graph(packages).nodes.contains(
                    (#[trigger] packages[k].dependencies[j]).key(),
                )
                &&& spec_has_edge(
                    spec_dependency_graph(packages),
                    packages[k].key(),
                    packages[k].dependencies[j].key(),
                )
            },
    decreases packages.len(),
{
    let g = spec_dependency_graph(packages);
    if packages.len() > 0 {
        let front = packages.drop_last();
        let g1 = spec_dependency_graph(front);
        lemma_dependency_graph(front);
        lemma_add_package(g1, packages.last());
        assert forall|k: int| 0 <= k < packages.len() implies g.nodes.contains(
            (#[trigger] packages[k]).key(),
        ) by {
            if k < front.len() {
                assert(front[k] == packages[k]);
                lemma_growth_keeps_edges(g, g1, front[k].key(), front[k].key());
            }
        }
        assert forall|k: int, j: int|
            0 <= k < packages.len() && 0 <= j < packages[k].dependencies.len() implies {
            &&& g.nodes.contains((#[trigger] packages[k].dependencies[j]).key())
            &&& spec_has_edge(g, packages[k].key(), packages[k].dependencies[j].key())
        } by {
            if k < front.len() {
                assert(front[k] == packages[k]);
                lemma_growth_keeps_edges(
                    g,
                    g1,
                    front[k].key(),
                    front[k].dependencies[j].key(),
                );
            }
        }
    }
}

/// The dependency graph of a package and the packages it needs.
pub struct DependencyGraph {
    graph: Graph<String, (), Directed, usize>,
    keys: Vec<String>,
    packages: Vec<Option<Package>>,
}

impl View for DependencyGraph {
    type V = DependencyGraphView;

    closed spec fn view(&self) -> DependencyGraphView {
        DependencyGraphView {
            nodes: spec_strings(self.keys@),
            edges: graph_edges(self.graph),
            packages: Map::new(
                |i: int| 0 <= i < self.packages@.len() && self.packages@[i] is Some,
                |i: int| self.packages@[i]->0@,
            ),
        }
    }
}

impl DependencyGraph {
    /// The graph is consistent: what it holds beside the petgraph graph
    /// agrees with it, and its view is well formed.
    pub closed spec fn wf(&self) -> bool {
        &&& graph_nodes(self.graph) == spec_strings(self.keys@)
        &&& self.packages@.len() == self.keys@.len()
        &&& self@.wf()
    }

    /// A consistent graph has a well-formed view.
    pub proof fn lemma_wf_view(&self)
        requires
            self.wf(),
        ensures
            self@.wf(),
    {
    }

    /// The graph without nodes.
    pub fn new() -> (r: DependencyGraph)
        ensures
            r.wf(),
            r@ == spec_empty_graph(),
    {
        let r = DependencyGraph { graph: graph_new(), keys: Vec::new(), packages: Vec::new() };
        assert(r@.nodes =~= Seq::empty());
        assert(r@.packages =~= Map::empty());
        r
    }

    pub fn node_count(&self) -> (r: usize)
        ensures
            r == self@.nodes.len(),
    {
        self.keys.len()
    }

    /// The node with the given key.
    pub fn find(&self, key: &str) -> (r: Option<usize>)
        requires
            self.wf(),
        ensures
            match r {
                Some(i) => i < self@.nodes.len() && self@.nodes[i as int] == key@ && i
                    == self@.nodes.index_of(key@),
                None => !self@.nodes.contains(key@),
            },
    {
        let mut i: usize = 0;
        while i < self.keys.len()
            invariant
                self.wf(),
                i <= self.keys.len(),
                forall|j: int| 0 <= j < i ==> self@.nodes[j] != key@,
            decreases self.keys.len() - i,
        {
            if str_eq(self.keys[i].as_str(), key) {
                proof {
                    lemma_index_of_unique(self@.nodes, i as int);
                }
                return Some(i);
            }
            i += 1;
        }
        None
    }

    /// The key of a node.
    pub fn key(&self, node: usize) -> (r: &String)
        requires
            node < self@.nodes.len(),
        ensures
            r@ == self@.nodes[node as int],
    {
        &self.keys[node]
    }

    /// The package recorded at a node, if one is.
    pub fn package(&self, node: usize) -> (r: Option<&Package>)
        requires
            self.wf(),
            node < self@.nodes.len(),
        ensures
            match r {
                Some(p) => self@.packages.dom().contains(node as int) && self@.packages[node as int]
                    == p@,
                None => !self@.packages.dom().contains(node as int),
            },
    {
        match &self.packages[node] {
            Some(p) => Some(p),
            None => None,
        }
    }

    /// The node for `key`, added behind the others unless there is one.
    pub fn add_node(&mut self, key: String) -> (r: usize)
        requires
            old(self).wf(),
        ensures
            final(self).wf(),
            final(self)@ == spec_add_node(old(self)@, key@),
            r < final(self)@.nodes.len(),
            r == final(self)@.nodes.index_of(key@),
            final(self)@.nodes[r as int] == key@,
    {
        match self.find(key.as_str()) {
            Some(i) => i,
            None => {
                let ghost before = self@;
                let ix = graph_add_node(&mut self.graph, key.clone());
                self.keys.push(key);
                self.packages.push(None);
                proof {
                    assert(self@.nodes =~= before.nodes.push(key@));
                    assert(self@.packages =~= before.packages);
                    assert(self@.edges == before.edges);
                    lemma_push_keeps_distinct(before.nodes, key@);
                    assert(graph_nodes(self.graph) == spec_strings(self.keys@));
                    assert(self@.wf());
                    lemma_index_of_unique(self@.nodes, ix as int);
                }
                ix
            },
        }
    }

    /// Records a package at a node.
    pub fn set_package(&mut self, node: usize, package: Package)
        requires
            old(self).wf(),
            node < old(self)@.nodes.len(),
            package@.key() == old(self)@.nodes[node as int],
        ensures
            final(self).wf(),
            final(self)@ == (DependencyGraphView {
                packages: old(self)@.packages.insert(node as int, package@),
                ..old(self)@
            }),
    {
        let ghost before = self@;
        self.packages.set(node, Some(package));
        assert(self@.packages =~= before.packages.insert(node as int, package@));
    }

    /// Adds an edge from one node to another.
    pub fn add_edge(&mut self, from: usize, to: usize)
        requires
            old(self).wf(),
            from < old(self)@.nodes.len(),
            to < old(self)@.nodes.len(),
        ensures
            final(self).wf(),
            final(self)@ == (DependencyGraphView {
                edges: old(self)@.edges.push((from as int, to as int)),
                ..old(self)@
            }),
    {
        graph_add_edge(&mut self.graph, from, to);
    }

    /// The order in which the packages that `root` reaches are visited:
    /// each after the packages that it depends on, the root last.
    pub fn visit_order(&self, root: usize) -> (order: Vec<usize>)
        requires
            self.wf(),
            root < self@.nodes.len(),
        ensures
            spec_node_seq(order@) == post_order(self@.nodes.len(), self@.edges, root as int),
            spec_is_post_order(self@.nodes.len(), self@.edges, root as int, spec_node_seq(order@)),
    {
        graph_dfs_post_order(&self.graph, root)
    }
}

/// Builds the dependency graph of the packages of a lockfile, and finds
/// the node of the root package in it.
pub fn make_dependency_graph(packages: &Vec<Package>, root_name: &str) -> (r: (
    DependencyGraph,
    Option<usize>,
))
    ensures
        r.0.wf(),
        r.0@ == spec_dependency_graph(spec_packages(packages@)),
        match r.1 {
            Some(root) => root < r.0@.nodes.len() && r.0@.nodes[root as int] == root_name@,
            None => !r.0@.nodes.contains(root_name@),
        },
{
    let mut graph = DependencyGraph::new();
    let ghost all = spec_packages(packages@);
    let mut i: usize = 0;
    assert(all.take(0) =~= Seq::empty());
    while i < packages.len()
        invariant
            i <= packages.len(),
            all == spec_packages(packages@),
            graph.wf(),
            graph@ == spec_dependency_graph(all.take(i as int)),
        decreases packages.len() - i,
    {
        let p = &packages[i];
        let ghost deps = p@.dependencies;
        let p_key = p.key();
        let p_idx = graph.add_node(p_key.clone());
        graph.set_package(p_idx, p.clone());
        let ghost g2 = graph@;
        let mut j: usize = 0;
        assert(deps.take(0) =~= Seq::empty());
        while j < p.dependencies.len()
            invariant
                j <= p.dependencies.len(),
                deps == p@.dependencies,
                p_key@ == p@.key(),
                graph.wf(),
                graph@ == spec_add_dependencies(g2, p@.key(), deps.take(j as int)),
                p_idx < graph@.nodes.len(),
                graph@.nodes[p_idx as int] == p_key@,
            decreases p.dependencies.len() - j,
        {
            let dep_key = p.dependencies[j].key();
            let dep_idx = graph.add_node(dep_key);
            proof {
                graph.lemma_wf_view();
                lemma_index_of_unique(graph@.nodes, p_idx as int);
                assert(deps.take(j + 1).drop_last() == deps.take(j as int));
                assert(deps.take(j + 1).last() == p.dependencies@[j as int]@);
            }
            graph.add_edge(p_idx, dep_idx);
            j += 1;
        }
        proof {
            assert(deps.take(j as int) == deps);
            assert(all.take(i + 1).drop_last() == all.take(i as int));
            assert(all.take(i + 1).last() == p@);
        }
        i += 1;
    }
    assert(all.take(i as int) == all);
    let root = graph.find(root_name);
    (graph, root)
}

} // verus!
