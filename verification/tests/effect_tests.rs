use cargo_scan::effect::BlockType;
use cargo_scan::effect::DeclaredVisibility;
use cargo_scan::effect::Effect;
use cargo_scan::effect::EffectBlock;
use cargo_scan::effect::EffectInstance;
use cargo_scan::effect::FnDec;
use cargo_scan::effect::SrcLoc;
use cargo_scan::effect::TraitDec;
use cargo_scan::effect::TraitImpl;
use cargo_scan::effect::Visibility;
use cargo_scan::ident::CanonicalPath;
use cargo_scan::ident::IdentPath;
use cargo_scan::sink::Sink;
use cargo_scan::span::FilePath;
use cargo_scan::span::Span;
use std::collections::hash_map::DefaultHasher;
use std::collections::HashSet;
use std::hash::Hash;
use std::hash::Hasher;

fn file() -> FilePath {
    FilePath::new("pkg/src", "lib.rs")
}

fn sinks(patterns: &[&str]) -> Vec<IdentPath> {
    patterns.iter().map(|p| IdentPath::new(p)).collect()
}

fn call(callee: &str, is_unsafe: bool, ffi: Option<&str>, patterns: &[&str]) -> Option<EffectInstance> {
    EffectInstance::new_call(
        &file(),
        CanonicalPath::new("pkg::caller"),
        CanonicalPath::new(callee),
        &Span::new(3, 4, 3, 20),
        is_unsafe,
        ffi.map(CanonicalPath::new),
        &sinks(patterns),
    )
}

fn hash_of<T: Hash>(t: &T) -> u64 {
    let mut h = DefaultHasher::new();
    t.hash(&mut h);
    h.finish()
}

#[test]
fn test_csv_header() {
    assert!(EffectInstance::csv_header().ends_with(SrcLoc::csv_header()));
}

#[test]
fn csv_headers_exact() {
    assert_eq!(SrcLoc::csv_header(), "dir, file, line, col");
    assert_eq!(EffectInstance::csv_header(), "crate, fn_decl, callee, effect, dir, file, line, col");
}

#[test]
fn src_loc_new_keeps_parts() {
    let loc = SrcLoc::new(&file(), 1, 2, 3, 4);
    assert_eq!(loc.dir(), "pkg/src");
    assert_eq!(loc.file(), "lib.rs");
    assert_eq!(loc.start_line(), 1);
    assert_eq!(loc.start_col(), 2);
    assert_eq!(loc.end_line(), 3);
    assert_eq!(loc.end_col(), 4);
}

#[test]
fn src_loc_from_span_agrees_with_new() {
    let a = SrcLoc::from_span(&file(), &Span::new(5, 6, 7, 8));
    let b = SrcLoc::new(&file(), 5, 6, 7, 8);
    assert_eq!(a, b);
}

#[test]
fn src_loc_sub1_shifts_lines() {
    let loc = SrcLoc::new(&file(), 5, 6, 7, 8).sub1();
    assert_eq!(loc, SrcLoc::new(&file(), 4, 6, 6, 8));
}

#[test]
fn src_loc_add1_shifts_start_column() {
    let mut loc = SrcLoc::new(&file(), 5, 6, 7, 8);
    loc.add1();
    assert_eq!(loc, SrcLoc::new(&file(), 5, 7, 7, 8));
}

#[test]
fn src_loc_to_csv_exact() {
    let loc = SrcLoc::new(&FilePath::new("a,b/src", "x,y.rs"), 12, 0, 13, 5);
    assert_eq!(loc.to_csv(), "ab/src, xy.rs, 12, 0");
}

#[test]
fn src_loc_filepath_string_joins() {
    assert_eq!(SrcLoc::new(&FilePath::new("a/b", "c.rs"), 1, 0, 1, 1).filepath_string(), "a/b/c.rs");
    assert_eq!(SrcLoc::new(&FilePath::new("a/b/", "c.rs"), 1, 0, 1, 1).filepath_string(), "a/b/c.rs");
    assert_eq!(SrcLoc::new(&FilePath::new("", "c.rs"), 1, 0, 1, 1).filepath_string(), "c.rs");
    assert_eq!(SrcLoc::new(&FilePath::new("a", "/c.rs"), 1, 0, 1, 1).filepath_string(), "/c.rs");
    assert_eq!(SrcLoc::new(&FilePath::new("a", ""), 1, 0, 1, 1).filepath_string(), "a/");
}

#[test]
fn src_loc_filepath_string_agrees_with_std_join() {
    let cases = vec![("a/b", "c.rs"), ("a/b/", "c.rs"), ("", "c.rs"), ("a", "/c.rs"), ("/", "x"), ("a", "")];
    for (dir, name) in cases {
        let expected = std::path::Path::new(dir).join(name).to_string_lossy().to_string();
        assert_eq!(SrcLoc::new(&FilePath::new(dir, name), 1, 0, 1, 1).filepath_string(), expected);
    }
}

#[test]
fn src_loc_to_string_exact() {
    let loc = SrcLoc::new(&FilePath::new("a/b", "c.rs"), 10, 2, 11, 30);
    assert_eq!(loc.to_string(), "a/b/c.rs:10:2..11:30");
}

#[test]
fn effect_simple_str_of_each_variant() {
    let p = || CanonicalPath::new("x::y");
    assert_eq!(Effect::SinkCall(Sink::new("std::fs")).simple_str(), "std::fs");
    assert_eq!(Effect::FFICall(p()).simple_str(), "[FFI]");
    assert_eq!(Effect::UnsafeCall(p()).simple_str(), "[UnsafeCall]");
    assert_eq!(Effect::RawPointer(p()).simple_str(), "[PtrDeref]");
    assert_eq!(Effect::UnionField(p()).simple_str(), "[UnionField]");
    assert_eq!(Effect::StaticMut(p()).simple_str(), "[StaticMutVar]");
    assert_eq!(Effect::StaticExt(p()).simple_str(), "[StaticExtVar]");
    assert_eq!(Effect::FnPtrCreation.simple_str(), "[FnPtrCreation]");
    assert_eq!(Effect::ClosureCreation.simple_str(), "[ClosureCreation]");
}

#[test]
fn effect_to_csv_drops_commas() {
    assert_eq!(Effect::SinkCall(Sink::new("a,b")).to_csv(), "ab");
    assert_eq!(Effect::FFICall(CanonicalPath::new("x")).to_csv(), "[FFI]");
}

#[test]
fn effect_sink_pattern_only_for_sink_calls() {
    assert_eq!(Effect::SinkCall(Sink::new("std::fs")).sink_pattern(), Some(&Sink::new("std::fs")));
    assert_eq!(Effect::FFICall(CanonicalPath::new("x")).sink_pattern(), None);
    assert_eq!(Effect::ClosureCreation.sink_pattern(), None);
}

#[test]
fn sink_match_is_by_whole_segments() {
    let callee = CanonicalPath::new("std::fs::read");
    assert_eq!(Sink::new_match(&callee, &sinks(&["std::fs"])), Some(Sink::new("std::fs")));
    assert_eq!(Sink::new_match(&callee, &sinks(&["std::fs::read"])), Some(Sink::new("std::fs::read")));
    assert_eq!(Sink::new_match(&callee, &sinks(&["std::f"])), None);
    assert_eq!(Sink::new_match(&callee, &sinks(&["std::fs::read::more"])), None);
    assert_eq!(Sink::new_match(&CanonicalPath::new("std::fsx::read"), &sinks(&["std::fs"])), None);
    assert_eq!(Sink::new_match(&callee, &sinks(&[])), None);
}

#[test]
fn sink_match_takes_shortest_pattern() {
    let callee = CanonicalPath::new("std::fs::read");
    let found = Sink::new_match(&callee, &sinks(&["std::fs::read", "std", "std::fs"]));
    assert_eq!(found, Some(Sink::new("std")));
    let found = Sink::new_match(&callee, &sinks(&["libc", "std::fs", "std::fs::read"]));
    assert_eq!(found.unwrap().as_str(), "std::fs");
}

#[test]
fn new_call_sink_wins_over_ffi() {
    let e = call("libc::open", true, Some("libc::open"), &["libc"]).unwrap();
    assert_eq!(e.eff_type(), &Effect::SinkCall(Sink::new("libc")));
    assert!(!e.is_ffi());
    assert_eq!(e.pattern(), Some(&Sink::new("libc")));
    let e = call("libc::open", false, Some("libc::open"), &["libc"]).unwrap();
    assert_eq!(e.eff_type(), &Effect::SinkCall(Sink::new("libc")));
}

#[test]
fn new_call_ffi_marked_or_not() {
    let e = call("pkg::ext_fn", false, Some("pkg::ffi::ext_fn"), &["libc"]).unwrap();
    assert_eq!(e.eff_type(), &Effect::FFICall(CanonicalPath::new("pkg::ffi::ext_fn")));
    assert!(e.is_ffi());
    let e = call("pkg::ext_fn", true, Some("pkg::ffi::ext_fn"), &[]).unwrap();
    assert!(e.is_ffi());
    assert_eq!(e.pattern(), None);
}

#[test]
fn new_call_unsafe_without_sink_or_ffi() {
    let e = call("pkg::danger", true, None, &["libc"]).unwrap();
    assert_eq!(e.eff_type(), &Effect::UnsafeCall(CanonicalPath::new("pkg::danger")));
    assert!(e.is_unsafe_call());
    assert!(!e.is_ffi());
    assert!(!e.is_ptr_deref());
    assert!(!e.is_union_field_acc());
    assert!(!e.is_mut_static());
}

#[test]
fn new_call_ordinary_call_is_no_effect() {
    assert!(call("pkg::harmless", false, None, &["libc", "std::fs"]).is_none());
    assert!(call("pkg::harmless", false, None, &[]).is_none());
}

#[test]
fn new_call_keeps_context() {
    let e = call("std::fs::read", false, None, &["std::fs"]).unwrap();
    assert_eq!(e.caller(), &CanonicalPath::new("pkg::caller"));
    assert_eq!(e.callee(), &CanonicalPath::new("std::fs::read"));
    assert_eq!(e.caller_path(), "pkg::caller");
    assert_eq!(e.callee_path(), "std::fs::read");
    assert_eq!(e.caller_callee(), ("pkg::caller", "std::fs::read"));
    assert_eq!(e.call_loc(), &SrcLoc::new(&file(), 3, 4, 3, 20));
}

#[test]
fn new_effect_kinds() {
    let make = |eff: Effect| {
        EffectInstance::new_effect(
            &file(),
            CanonicalPath::new("pkg::f"),
            CanonicalPath::new("pkg::X"),
            &Span::new(9, 1, 9, 5),
            eff,
        )
    };
    assert!(make(Effect::RawPointer(CanonicalPath::new("pkg::X"))).is_ptr_deref());
    assert!(make(Effect::UnionField(CanonicalPath::new("pkg::X"))).is_union_field_acc());
    assert!(make(Effect::StaticMut(CanonicalPath::new("pkg::X"))).is_mut_static());
    let e = make(Effect::FnPtrCreation);
    assert_eq!(e.eff_type(), &Effect::FnPtrCreation);
    assert_eq!(e.call_loc(), &SrcLoc::new(&file(), 9, 1, 9, 5));
    assert_eq!(e.callee_path(), "pkg::X");
}

#[test]
fn effect_instance_to_csv_exact() {
    let e = EffectInstance::new_call(
        &FilePath::new("pkg/src", "lib.rs"),
        CanonicalPath::new("pkg::m::caller"),
        CanonicalPath::new("std::fs::read,x"),
        &Span::new(3, 4, 3, 20),
        true,
        None,
        &sinks(&["std::net"]),
    )
    .unwrap();
    assert_eq!(e.to_csv(), "pkg, pkg::m::caller, std::fs::readx, [UnsafeCall], pkg/src, lib.rs, 3, 4");
    let e = call("std::fs::read", false, None, &["std::fs"]).unwrap();
    assert_eq!(e.to_csv(), "pkg, pkg::caller, std::fs::read, std::fs, pkg/src, lib.rs, 3, 4");
}

#[test]
fn effect_instance_to_csv_has_eight_fields_whatever_the_paths_hold() {
    let e = EffectInstance::new_call(
        &FilePath::new("a,b", "c,d.rs"),
        CanonicalPath::new("pk,g::m<A, B>::caller"),
        CanonicalPath::new("x::f<C, D>"),
        &Span::new(3, 4, 3, 20),
        true,
        None,
        &sinks(&[]),
    )
    .unwrap();
    let row = e.to_csv();
    assert_eq!(row, "pkg, pkg::m<A B>::caller, x::f<C D>, [UnsafeCall], ab, cd.rs, 3, 4");
    assert_eq!(row.split(", ").count(), 8);
    assert_eq!(row.matches(',').count(), 7);
}

#[test]
fn equal_instances_are_equal_and_hash_alike() {
    let a = call("std::fs::read", false, None, &["std::fs"]).unwrap();
    let b = call("std::fs::read", true, Some("x"), &["std::fs", "other"]).unwrap();
    assert_eq!(a, b);
    assert_eq!(hash_of(&a), hash_of(&b));
    assert_eq!(a.clone(), a);
    let mut set = HashSet::new();
    set.insert(a);
    set.insert(b);
    set.insert(call("std::fs::write", false, None, &["std::fs"]).unwrap());
    assert_eq!(set.len(), 2);
}

#[test]
fn instances_differ_in_any_part() {
    let a = call("std::fs::read", false, None, &["std::fs"]).unwrap();
    let other_effect = call("std::fs::read", false, None, &["std"]).unwrap();
    assert_ne!(a, other_effect);
    let other_place = EffectInstance::new_call(
        &file(),
        CanonicalPath::new("pkg::caller"),
        CanonicalPath::new("std::fs::read"),
        &Span::new(3, 5, 3, 20),
        false,
        None,
        &sinks(&["std::fs"]),
    )
    .unwrap();
    assert_ne!(a, other_place);
}

#[test]
fn visibility_from_declared() {
    assert_eq!(Visibility::from(&DeclaredVisibility::Public), Visibility::Public);
    assert_eq!(Visibility::from(&DeclaredVisibility::Restricted), Visibility::Private);
    assert_eq!(Visibility::from(&DeclaredVisibility::Inherited), Visibility::Private);
}

fn fn_dec(name: &str, vis: DeclaredVisibility) -> FnDec {
    FnDec::new(&file(), &Span::new(1, 0, 5, 1), CanonicalPath::new(name), &vis)
}

#[test]
fn fn_dec_new_keeps_parts() {
    let d = fn_dec("pkg::f", DeclaredVisibility::Restricted);
    assert_eq!(d.src_loc, SrcLoc::new(&file(), 1, 0, 5, 1));
    assert_eq!(d.fn_name, CanonicalPath::new("pkg::f"));
    assert_eq!(d.vis, Visibility::Private);
    assert_eq!(fn_dec("pkg::f", DeclaredVisibility::Public).vis, Visibility::Public);
}

#[test]
fn effect_block_constructors() {
    let d = fn_dec("pkg::f", DeclaredVisibility::Public);
    let b = EffectBlock::new_unsafe_expr(&file(), &Span::new(2, 4, 3, 5), d.clone());
    assert_eq!(b.block_type(), &BlockType::UnsafeExpr);
    assert_eq!(b.src_loc(), &SrcLoc::new(&file(), 2, 4, 3, 5));
    assert_eq!(b.containing_fn(), &d);
    assert!(b.effects().is_empty());

    let b = EffectBlock::from_fn_decl(d.clone());
    assert_eq!(b.block_type(), &BlockType::NormalFn);
    assert_eq!(b.src_loc(), &d.src_loc);
    assert!(b.effects().is_empty());

    let b = EffectBlock::new_fn(&file(), &Span::new(1, 0, 5, 1), CanonicalPath::new("pkg::f"), &DeclaredVisibility::Public);
    assert_eq!(b, EffectBlock::from_fn_decl(d.clone()));

    let b = EffectBlock::new_unsafe_fn(&file(), &Span::new(1, 0, 5, 1), CanonicalPath::new("pkg::f"), &DeclaredVisibility::Public);
    assert_eq!(b.block_type(), &BlockType::UnsafeFn);
    assert_eq!(b.containing_fn(), &d);
}

#[test]
fn effect_block_from_effect_holds_it() {
    let d = fn_dec("pkg::f", DeclaredVisibility::Public);
    let e = call("std::fs::read", false, None, &["std::fs"]).unwrap();
    let b = EffectBlock::from_effect(e.clone(), d);
    assert_eq!(b.effects(), &vec![e]);
    assert_eq!(b.block_type(), &BlockType::NormalFn);
}

#[test]
fn effect_block_push_keeps_order() {
    let mut b = EffectBlock::from_fn_decl(fn_dec("pkg::f", DeclaredVisibility::Public));
    let e1 = call("std::fs::read", false, None, &["std::fs"]).unwrap();
    let e2 = call("pkg::danger", true, None, &[]).unwrap();
    b.push_effect(e1.clone());
    b.push_effect(e2.clone());
    assert_eq!(b.effects(), &vec![e1, e2]);
    assert_eq!(b.clone(), b);
}

#[test]
fn filter_effects_splits_in_order() {
    let mut b = EffectBlock::from_fn_decl(fn_dec("pkg::f", DeclaredVisibility::Public));
    let e1 = call("std::fs::read", false, None, &["std::fs"]).unwrap();
    let e2 = call("pkg::danger", true, None, &[]).unwrap();
    let e3 = call("std::fs::write", false, None, &["std::fs"]).unwrap();
    let e4 = call("pkg::ext", false, Some("pkg::ext"), &[]).unwrap();
    for e in [&e1, &e2, &e3, &e4] {
        b.push_effect(e.clone());
    }
    let removed = b.filter_effects(|e: &EffectInstance| e.pattern().is_some());
    assert_eq!(removed, vec![e1, e3]);
    assert_eq!(b.effects(), &vec![e2, e4]);
    assert_eq!(b.block_type(), &BlockType::NormalFn);
}

#[test]
fn filter_effects_all_or_none() {
    let mut b = EffectBlock::from_fn_decl(fn_dec("pkg::f", DeclaredVisibility::Public));
    let e1 = call("std::fs::read", false, None, &["std::fs"]).unwrap();
    b.push_effect(e1.clone());
    assert!(b.filter_effects(|_e: &EffectInstance| false).is_empty());
    assert_eq!(b.effects().len(), 1);
    assert_eq!(b.filter_effects(|_e: &EffectInstance| true), vec![e1]);
    assert!(b.effects().is_empty());
}

#[test]
fn trait_records_are_equal_by_parts() {
    let a = TraitImpl::new(&Span::new(1, 0, 2, 1), &file(), CanonicalPath::new("pkg::T"), Some(CanonicalPath::new("pkg::S")));
    let b = TraitImpl::new(&Span::new(1, 0, 2, 1), &file(), CanonicalPath::new("pkg::T"), Some(CanonicalPath::new("pkg::S")));
    let c = TraitImpl::new(&Span::new(1, 0, 2, 1), &file(), CanonicalPath::new("pkg::T"), None);
    assert_eq!(a, b);
    assert_ne!(a, c);
    let d = TraitDec::new(&Span::new(1, 0, 2, 1), &file(), CanonicalPath::new("pkg::T"));
    let e = TraitDec::new(&Span::new(1, 0, 2, 1), &file(), CanonicalPath::new("pkg::U"));
    assert_ne!(d, e);
    assert_eq!(d, TraitDec::new(&Span::new(1, 0, 2, 1), &file(), CanonicalPath::new("pkg::T")));
}
