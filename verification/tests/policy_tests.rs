use cargo_scan::effect::DeclaredVisibility;
use cargo_scan::effect::EffectBlock;
use cargo_scan::effect::EffectInstance;
use cargo_scan::ident::CanonicalPath;
use cargo_scan::ident::IdentPath;
use cargo_scan::policy::contains_path;
use cargo_scan::policy::push_distinct;
use cargo_scan::policy::PolicyFile;
use cargo_scan::span::FilePath;
use cargo_scan::span::Span;

fn block(fn_name: &str, vis: DeclaredVisibility, callees: &[&str]) -> EffectBlock {
    let file = FilePath::new("pkg/src", "lib.rs");
    let mut b = EffectBlock::new_fn(&file, &Span::new(1, 0, 9, 1), CanonicalPath::new(fn_name), &vis);
    for callee in callees {
        let e = EffectInstance::new_call(
            &file,
            CanonicalPath::new(fn_name),
            CanonicalPath::new(callee),
            &Span::new(2, 4, 2, 9),
            false,
            None,
            &vec![IdentPath::new("std::fs")],
        );
        b.push_effect(e.unwrap());
    }
    b
}

fn paths(names: &[&str]) -> Vec<CanonicalPath> {
    names.iter().map(|n| CanonicalPath::new(n)).collect()
}

#[test]
fn empty_policy_checks_nothing() {
    let p = PolicyFile::empty("pkg");
    assert_eq!(p.base_dir, "pkg");
    assert!(p.pub_caller_checked.is_empty());
    assert!(!p.is_caller_checked(&CanonicalPath::new("pkg::f")));
}

#[test]
fn default_policy_marks_public_functions_with_effects() {
    let blocks = vec![
        block("pkg::public_sink", DeclaredVisibility::Public, &["std::fs::read"]),
        block("pkg::private_sink", DeclaredVisibility::Inherited, &["std::fs::read"]),
        block("pkg::restricted_sink", DeclaredVisibility::Restricted, &["std::fs::read"]),
        block("pkg::public_harmless", DeclaredVisibility::Public, &[]),
        block("pkg::other", DeclaredVisibility::Public, &["std::fs::write", "std::fs::read"]),
    ];
    let p = PolicyFile::new_caller_checked_default("pkg", &blocks);
    assert_eq!(p.base_dir, "pkg");
    assert_eq!(p.pub_caller_checked, paths(&["pkg::public_sink", "pkg::other"]));
    assert!(p.is_caller_checked(&CanonicalPath::new("pkg::other")));
    assert!(!p.is_caller_checked(&CanonicalPath::new("pkg::private_sink")));
}

#[test]
fn default_policy_lists_each_function_once() {
    let blocks = vec![
        block("pkg::f", DeclaredVisibility::Public, &["std::fs::read"]),
        block("pkg::g", DeclaredVisibility::Public, &["std::fs::read"]),
        block("pkg::f", DeclaredVisibility::Public, &["std::fs::write"]),
    ];
    let p = PolicyFile::new_caller_checked_default("pkg", &blocks);
    assert_eq!(p.pub_caller_checked, paths(&["pkg::f", "pkg::g"]));
}

#[test]
fn default_policy_of_no_blocks_is_empty() {
    let p = PolicyFile::new_caller_checked_default("pkg", &Vec::new());
    assert_eq!(p, PolicyFile::empty("pkg"));
    assert_eq!(p.clone(), p);
}

#[test]
fn push_distinct_keeps_first_occurrence() {
    let mut v = paths(&["a", "b"]);
    push_distinct(&mut v, CanonicalPath::new("a"));
    assert_eq!(v, paths(&["a", "b"]));
    push_distinct(&mut v, CanonicalPath::new("c"));
    assert_eq!(v, paths(&["a", "b", "c"]));
    assert!(contains_path(&v, &CanonicalPath::new("c")));
    assert!(!contains_path(&v, &CanonicalPath::new("d")));
}
