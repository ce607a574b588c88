use cargo_scan::audit_chain::AuditChain;
use cargo_scan::audit_chain::ChainEntry;
use cargo_scan::package::Package;

fn package(name: &str, version: &str) -> Package {
    Package::new(name, version, Vec::new())
}

fn chain() -> AuditChain {
    AuditChain::new(String::from("out/chain.manifest"), String::from("pkgs/root"))
}

#[test]
fn new_chain_is_empty() {
    let c = chain();
    assert_eq!(c.manifest_path(), "out/chain.manifest");
    assert_eq!(c.crate_path(), "pkgs/root");
    assert!(c.entries().is_empty());
    assert_eq!(c.policy_path("a-1.0.0"), None);
}

#[test]
fn added_policy_is_found_by_key() {
    let mut c = chain();
    c.add_crate_policy(&package("a", "1.0.0"), String::from("p/a-1.0.0.policy"));
    c.add_crate_policy(&package("b", "2.0.0"), String::from("p/b-2.0.0.policy"));
    assert_eq!(c.policy_path("a-1.0.0"), Some(&String::from("p/a-1.0.0.policy")));
    assert_eq!(c.policy_path("b-2.0.0"), Some(&String::from("p/b-2.0.0.policy")));
    assert_eq!(c.policy_path("a-2.0.0"), None);
    assert_eq!(c.policy_path("a"), None);
    assert_eq!(c.entries().len(), 2);
}

#[test]
fn adding_again_replaces_the_path() {
    let mut c = chain();
    c.add_crate_policy(&package("a", "1.0.0"), String::from("old"));
    c.add_crate_policy(&package("b", "1.0.0"), String::from("other"));
    c.add_crate_policy(&package("a", "1.0.0"), String::from("new"));
    assert_eq!(c.entries().len(), 2);
    assert_eq!(c.policy_path("a-1.0.0"), Some(&String::from("new")));
    assert_eq!(c.entries()[0].policy_path, "new");
    assert_eq!(c.entries()[1].policy_path, "other");
}

#[test]
fn policies_are_matched_by_name_whatever_the_version() {
    let mut c = chain();
    c.add_crate_policy(&package("serde", "1.0.0"), String::from("p1"));
    c.add_crate_policy(&package("serde_json", "1.0.0"), String::from("p2"));
    c.add_crate_policy(&package("serde", "0.9.0"), String::from("p3"));
    let found = c.matching_policies("serde");
    assert_eq!(
        found,
        vec![
            ChainEntry { name: String::from("serde"), version: String::from("1.0.0"), policy_path: String::from("p1") },
            ChainEntry { name: String::from("serde"), version: String::from("0.9.0"), policy_path: String::from("p3") },
        ]
    );
    assert_eq!(c.matching_policies("serde_json").len(), 1);
    assert!(c.matching_policies("ser").is_empty());
}
