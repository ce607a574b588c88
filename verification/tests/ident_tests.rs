use cargo_scan::ident::CanonicalPath;
use cargo_scan::ident::Ident;
use cargo_scan::ident::IdentPath;
use std::collections::HashSet;

#[test]
fn crate_name_is_leading_segment() {
    assert_eq!(CanonicalPath::new("a::b::c").crate_name().as_str(), "a");
    assert_eq!(CanonicalPath::new("my_crate::module::item").crate_name().as_str(), "my_crate");
}

#[test]
fn crate_name_of_single_segment() {
    assert_eq!(CanonicalPath::new("abc").crate_name().as_str(), "abc");
}

#[test]
fn crate_name_edge_cases() {
    assert_eq!(CanonicalPath::new("").crate_name().as_str(), "");
    assert_eq!(CanonicalPath::new("::x").crate_name().as_str(), "");
    assert_eq!(CanonicalPath::new("a:b::c").crate_name().as_str(), "a:b");
    assert_eq!(CanonicalPath::new("a:").crate_name().as_str(), "a:");
    assert_eq!(CanonicalPath::new("a:::b").crate_name().as_str(), "a");
}

#[test]
fn push_ident_adds_separator() {
    let mut p = CanonicalPath::new("a");
    p.push_ident(&Ident::new("b"));
    assert_eq!(p.as_str(), "a::b");
    p.push_ident(&Ident::new("c"));
    assert_eq!(p.as_str(), "a::b::c");
}

#[test]
fn push_ident_on_empty_path() {
    let mut p = CanonicalPath::new("");
    p.push_ident(&Ident::new("b"));
    assert_eq!(p.as_str(), "b");
}

#[test]
fn canonical_path_conversions() {
    let p = CanonicalPath::new("a::b");
    assert_eq!(p.to_path().as_str(), "a::b");
    assert_eq!(p.to_string(), "a::b");
    assert_eq!(CanonicalPath::from_path(IdentPath::new("x::y")).as_str(), "x::y");
    assert_eq!(CanonicalPath::new_owned(String::from("q")).as_str(), "q");
}

#[test]
fn paths_are_equal_by_text() {
    assert_eq!(CanonicalPath::new("a::b"), CanonicalPath::new("a::b"));
    assert_ne!(CanonicalPath::new("a::b"), CanonicalPath::new("a::c"));
    assert_eq!(CanonicalPath::new("a::b").clone(), CanonicalPath::new("a::b"));
    assert_eq!(Ident::new("x"), Ident::new("x"));
    assert_ne!(Ident::new("x"), Ident::new("y"));
    assert_eq!(IdentPath::new("x::y"), IdentPath::new("x::y"));
}

#[test]
fn equal_paths_hash_alike() {
    let mut set = HashSet::new();
    set.insert(CanonicalPath::new("a::b"));
    set.insert(CanonicalPath::new("a::b"));
    set.insert(CanonicalPath::new("a::c"));
    assert_eq!(set.len(), 2);
}
