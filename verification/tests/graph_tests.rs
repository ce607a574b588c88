use cargo_scan::graph::make_dependency_graph;
use cargo_scan::graph::DependencyGraph;
use cargo_scan::package::package_key;
use cargo_scan::package::Dependency;
use cargo_scan::package::Package;

fn package(name: &str, deps: &[&str]) -> Package {
    Package::new(name, "1.0.0", deps.iter().map(|d| Dependency::new(d, "1.0.0")).collect())
}

fn keys_in_order(graph: &DependencyGraph, order: &[usize]) -> Vec<String> {
    order.iter().map(|n| graph.key(*n).clone()).collect()
}

#[test]
fn package_key_joins_name_and_version() {
    assert_eq!(package_key("serde", "1.0.2"), "serde-1.0.2");
    assert_eq!(package("a", &[]).key(), "a-1.0.0");
    assert_eq!(Dependency::new("b", "0.3.1").key(), "b-0.3.1");
}

#[test]
fn graph_has_one_node_per_package_version() {
    let packages = vec![
        package("root", &["b", "c"]),
        package("b", &["d"]),
        package("c", &["d"]),
        package("d", &[]),
    ];
    let (graph, root) = make_dependency_graph(&packages, "root-1.0.0");
    assert_eq!(graph.node_count(), 4);
    assert_eq!(root, Some(0));
    assert_eq!(graph.key(0), "root-1.0.0");
    assert_eq!(graph.key(1), "b-1.0.0");
    assert_eq!(graph.key(2), "c-1.0.0");
    assert_eq!(graph.key(3), "d-1.0.0");
    assert_eq!(graph.find("d-1.0.0"), Some(3));
    assert_eq!(graph.find("e-1.0.0"), None);
    assert_eq!(graph.package(3), Some(&package("d", &[])));
}

#[test]
fn diamond_is_visited_dependencies_first_and_each_once() {
    let packages = vec![
        package("root", &["b", "c"]),
        package("b", &["d"]),
        package("c", &["d"]),
        package("d", &[]),
    ];
    let (graph, root) = make_dependency_graph(&packages, "root-1.0.0");
    let order = graph.visit_order(root.unwrap());
    let keys = keys_in_order(&graph, &order);
    assert_eq!(keys.len(), 4);
    assert_eq!(keys.iter().filter(|k| k.as_str() == "d-1.0.0").count(), 1);
    let pos = |k: &str| keys.iter().position(|x| x == k).unwrap();
    assert!(pos("d-1.0.0") < pos("b-1.0.0"));
    assert!(pos("d-1.0.0") < pos("c-1.0.0"));
    assert!(pos("b-1.0.0") < pos("root-1.0.0"));
    assert!(pos("c-1.0.0") < pos("root-1.0.0"));
    assert_eq!(keys.last().unwrap(), "root-1.0.0");
}

#[test]
fn chain_of_packages_is_visited_from_the_leaf() {
    let packages = vec![package("a", &["b"]), package("b", &["c"]), package("c", &[])];
    let (graph, root) = make_dependency_graph(&packages, "a-1.0.0");
    let order = graph.visit_order(root.unwrap());
    assert_eq!(keys_in_order(&graph, &order), vec!["c-1.0.0", "b-1.0.0", "a-1.0.0"]);
}

#[test]
fn only_what_the_root_needs_is_visited() {
    let packages = vec![package("a", &["b"]), package("b", &[]), package("x", &["a"])];
    let (graph, root) = make_dependency_graph(&packages, "a-1.0.0");
    assert_eq!(graph.node_count(), 3);
    let order = graph.visit_order(root.unwrap());
    assert_eq!(keys_in_order(&graph, &order), vec!["b-1.0.0", "a-1.0.0"]);
}

#[test]
fn single_package_is_its_own_order() {
    let packages = vec![package("a", &[])];
    let (graph, root) = make_dependency_graph(&packages, "a-1.0.0");
    assert_eq!(graph.visit_order(root.unwrap()), vec![0]);
}

#[test]
fn cycle_is_visited_each_node_once() {
    let packages = vec![package("a", &["b"]), package("b", &["a"])];
    let (graph, root) = make_dependency_graph(&packages, "a-1.0.0");
    let order = graph.visit_order(root.unwrap());
    assert_eq!(keys_in_order(&graph, &order), vec!["b-1.0.0", "a-1.0.0"]);
}

#[test]
fn root_that_is_not_listed_is_not_found() {
    let packages = vec![package("a", &["b"])];
    let (graph, root) = make_dependency_graph(&packages, "z-1.0.0");
    assert_eq!(root, None);
    assert_eq!(graph.node_count(), 2);
}

#[test]
fn dependency_that_is_not_listed_has_a_node_but_no_package() {
    let packages = vec![package("a", &["b"])];
    let (graph, _) = make_dependency_graph(&packages, "a-1.0.0");
    assert_eq!(graph.find("b-1.0.0"), Some(1));
    assert_eq!(graph.package(1), None);
    assert_eq!(graph.package(0), Some(&package("a", &["b"])));
}

#[test]
fn node_is_added_once() {
    let mut graph = DependencyGraph::new();
    assert_eq!(graph.node_count(), 0);
    assert_eq!(graph.add_node(String::from("a-1")), 0);
    assert_eq!(graph.add_node(String::from("b-1")), 1);
    assert_eq!(graph.add_node(String::from("a-1")), 0);
    assert_eq!(graph.node_count(), 2);
    graph.add_edge(0, 1);
    assert_eq!(graph.visit_order(0), vec![1, 0]);
    assert_eq!(graph.visit_order(1), vec![1]);
}
