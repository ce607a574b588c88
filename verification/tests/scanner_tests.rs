use cargo_scan::effect::BlockType;
use cargo_scan::effect::DeclaredVisibility;
use cargo_scan::effect::Effect;
use cargo_scan::effect::FnDec;
use cargo_scan::effect::SrcLoc;
use cargo_scan::effect::Visibility;
use cargo_scan::hacky_resolver::HackyResolver;
use cargo_scan::ident::CanonicalPath;
use cargo_scan::ident::Ident;
use cargo_scan::ident::IdentPath;
use cargo_scan::policy::PolicyFile;
use cargo_scan::resolve::FileResolver;
use cargo_scan::resolve::IndexEntry;
use cargo_scan::resolve::Resolve;
use cargo_scan::resolve::Resolver;
use cargo_scan::scanner::scan_expr;
use cargo_scan::scanner::scan_item;
use cargo_scan::scanner::scan_items;
use cargo_scan::scanner::walk_item;
use cargo_scan::scanner::walk_items;
use cargo_scan::sink::Sink;
use cargo_scan::span::FilePath;
use cargo_scan::span::Span;
use cargo_scan::syntax::Expr;
use cargo_scan::syntax::ImplHeader;
use cargo_scan::syntax::Import;
use cargo_scan::syntax::Item;
use cargo_scan::syntax::OperationKind;
use cargo_scan::syntax::PathExpr;
use cargo_scan::syntax::SpannedIdent;
use cargo_scan::syntax::UseItem;

fn ident(name: &str) -> SpannedIdent {
    SpannedIdent::new(name, Span::new(1, 0, 1, name.len()))
}

fn path(names: &[&str]) -> PathExpr {
    PathExpr::new(names.iter().map(|n| ident(n)).collect())
}

fn call(names: &[&str], line: usize, args: Vec<Expr>) -> Expr {
    Expr::Call { callee: path(names), span: Span::new(line, 4, line, 20), args }
}

fn function(name: &str, vis: DeclaredVisibility, is_unsafe: bool, body: Vec<Expr>) -> Item {
    Item::Fn { ident: ident(name), vis, is_unsafe, span: Span::new(10, 0, 20, 1), body }
}

fn sinks(patterns: &[&str]) -> Vec<IdentPath> {
    patterns.iter().map(|p| IdentPath::new(p)).collect()
}

fn file() -> FilePath {
    FilePath::new("pkg/src", "lib.rs")
}

fn tree() -> Vec<Item> {
    vec![
        Item::Use(UseItem { imports: vec![Import::new("fs", "std::fs")] }),
        Item::Mod {
            ident: ident("ffi"),
            items: vec![
                Item::ForeignFn(ident("open")),
                Item::Use(UseItem { imports: vec![Import::new("inner", "x::inner")] }),
                Item::Mod { ident: ident("deep"), items: vec![Item::ForeignFn(ident("close"))] },
            ],
        },
        Item::Impl {
            header: ImplHeader { trait_name: None, self_type: Some(Ident::new("Conn")) },
            items: vec![
                Item::ForeignFn(ident("raw")),
                function("connect", DeclaredVisibility::Public, false, vec![call(&["open"], 12, Vec::new())]),
            ],
        },
        Item::Macro,
        function("main", DeclaredVisibility::Inherited, false, Vec::new()),
    ]
}

#[test]
fn walk_leaves_the_resolver_at_top_level() {
    let mut r = HackyResolver::new(CanonicalPath::new("pkg"));
    r.assert_top_level_invariant();
    walk_items(&mut r, &tree());
    assert!(r.is_top_level());
    r.assert_top_level_invariant();
    assert_eq!(r.current_module().as_str(), "pkg");
}

#[test]
fn walk_notes_foreign_functions_where_they_are_declared() {
    let mut r = HackyResolver::new(CanonicalPath::new("pkg"));
    walk_items(&mut r, &tree());
    assert_eq!(r.resolve_ffi(&path(&["open"])), Some(CanonicalPath::new("pkg::ffi::open")));
    assert_eq!(r.resolve_ffi(&path(&["close"])), Some(CanonicalPath::new("pkg::ffi::deep::close")));
    assert_eq!(r.resolve_ffi(&path(&["raw"])), Some(CanonicalPath::new("pkg::Conn::raw")));
    assert_eq!(r.resolve_ffi(&path(&["main"])), None);
}

#[test]
fn walk_keeps_imports_of_the_file_and_drops_those_of_closed_scopes() {
    let mut r = HackyResolver::new(CanonicalPath::new("pkg"));
    walk_items(&mut r, &tree());
    assert_eq!(r.resolve_ident(&ident("fs")).path.as_str(), "std::fs");
    assert_eq!(r.resolve_ident(&ident("inner")).path.as_str(), "pkg::inner");
}

#[test]
fn walk_inside_an_open_scope_returns_to_it() {
    let mut r = HackyResolver::new(CanonicalPath::new("pkg"));
    r.push_mod(&ident("outer"));
    walk_item(&mut r, &Item::Mod { ident: ident("m"), items: tree() });
    assert!(!r.is_top_level());
    assert_eq!(r.current_module().as_str(), "pkg::outer");
    r.pop_mod();
    assert!(r.is_top_level());
}

#[test]
fn walk_with_the_file_resolver() {
    let index = Resolver::new(Vec::new());
    let f = file();
    let mut r = FileResolver::new(&index, &f, CanonicalPath::new("pkg"));
    walk_items(&mut r, &tree());
    r.assert_top_level_invariant();
    assert!(r.backup().is_top_level());
    assert_eq!(r.resolve_ffi(&path(&["open"])), Some(CanonicalPath::new("pkg::ffi::open")));
}

#[test]
fn walk_of_nothing_changes_nothing() {
    let mut r = HackyResolver::new(CanonicalPath::new("pkg"));
    walk_items(&mut r, &Vec::new());
    assert!(r.is_top_level());
    assert_eq!(r.resolve_ffi(&path(&["open"])), None);
}

#[test]
fn scan_finds_a_block_for_each_function() {
    let index = Resolver::new(Vec::new());
    let f = file();
    let mut r = FileResolver::new(&index, &f, CanonicalPath::new("pkg"));
    let found = scan_items(&mut r, &sinks(&["std::fs"]), &tree());
    r.assert_top_level_invariant();
    assert!(r.backup().is_top_level());
    assert_eq!(found.skipped_macros, 1);
    assert_eq!(found.skipped_fn_calls, 0);
    assert_eq!(found.effect_blocks.len(), 2);
    let connect = &found.effect_blocks[0];
    assert_eq!(connect.containing_fn().fn_name.as_str(), "pkg::Conn::connect");
    assert_eq!(connect.containing_fn().vis, Visibility::Public);
    assert_eq!(connect.block_type(), &BlockType::NormalFn);
    assert_eq!(connect.src_loc(), &SrcLoc::new(&f, 10, 0, 20, 1));
    assert_eq!(connect.effects().len(), 1);
    let e = &connect.effects()[0];
    assert_eq!(e.caller_path(), "pkg::Conn::connect");
    assert_eq!(e.callee_path(), "pkg::Conn::open");
    assert_eq!(e.eff_type(), &Effect::FFICall(CanonicalPath::new("pkg::ffi::open")));
    assert_eq!(e.call_loc(), &SrcLoc::new(&f, 12, 4, 12, 20));
    let main = &found.effect_blocks[1];
    assert_eq!(main.containing_fn().fn_name.as_str(), "pkg::main");
    assert_eq!(main.containing_fn().vis, Visibility::Private);
    assert!(main.effects().is_empty());
    assert_eq!(found.effects().len(), 1);
}

#[test]
fn scan_classifies_calls_in_their_order() {
    let index = Resolver::new(Vec::new());
    let f = file();
    let mut r = FileResolver::new(&index, &f, CanonicalPath::new("pkg"));
    let body = vec![
        call(&["std", "fs", "read"], 11, vec![call(&["helper"], 11, Vec::new()), Expr::Macro]),
        Expr::Unsafe {
            span: Span::new(12, 4, 13, 13),
            body: vec![
                call(&["danger"], 12, Vec::new()),
                Expr::Operation { kind: OperationKind::RawPointer, target: path(&["PTR"]), span: Span::new(13, 8, 13, 12) },
            ],
        },
        Expr::OtherCall { args: vec![call(&["std", "fs", "write"], 14, Vec::new())] },
        Expr::Other { parts: vec![Expr::Macro, Expr::Operation { kind: OperationKind::ClosureCreation, target: PathExpr::new(Vec::new()), span: Span::new(15, 8, 15, 20) }] },
        Expr::Call { callee: PathExpr::new(Vec::new()), span: Span::new(16, 0, 16, 1), args: Vec::new() },
        call(&["danger"], 17, Vec::new()),
        Expr::Operation { kind: OperationKind::RawPointer, target: path(&["REF"]), span: Span::new(18, 8, 18, 12) },
    ];
    let items = vec![function("run", DeclaredVisibility::Public, false, body)];
    let found = scan_items(&mut r, &sinks(&["std::fs"]), &items);
    assert_eq!(found.skipped_macros, 2);
    assert_eq!(found.skipped_fn_calls, 2);
    let effects = found.effects();
    let kinds: Vec<(String, Effect)> = effects.iter().map(|e| (e.callee_path().to_string(), e.eff_type().clone())).collect();
    assert_eq!(
        kinds,
        vec![
            (String::from("std::fs::read"), Effect::SinkCall(Sink::new("std::fs"))),
            (String::from("pkg::danger"), Effect::UnsafeCall(CanonicalPath::new("pkg::danger"))),
            (String::from("pkg::PTR"), Effect::RawPointer(CanonicalPath::new("pkg::PTR"))),
            (String::from("std::fs::write"), Effect::SinkCall(Sink::new("std::fs"))),
            (String::from("pkg::run"), Effect::ClosureCreation),
        ]
    );
    assert!(effects.iter().all(|e| e.caller_path() == "pkg::run"));
    assert_eq!(found.effect_blocks[0].effects(), &effects);
    assert_eq!(found.unsafe_blocks.len(), 1);
    let unsafe_block = &found.unsafe_blocks[0];
    assert_eq!(unsafe_block.block_type(), &BlockType::UnsafeExpr);
    assert_eq!(unsafe_block.src_loc(), &SrcLoc::new(&f, 12, 4, 13, 13));
    assert_eq!(unsafe_block.containing_fn(), found.effect_blocks[0].containing_fn());
    assert_eq!(unsafe_block.effects(), &effects[1..3].to_vec());
}

#[test]
fn scan_of_an_unsafe_function_marks_its_calls_unsafe() {
    let index = Resolver::new(Vec::new());
    let f = file();
    let mut r = FileResolver::new(&index, &f, CanonicalPath::new("pkg"));
    let item = function("raw", DeclaredVisibility::Restricted, true, vec![call(&["helper"], 11, Vec::new())]);
    let found = scan_item(&mut r, &sinks(&[]), &item);
    assert_eq!(found.effect_blocks.len(), 1);
    assert_eq!(found.effect_blocks[0].block_type(), &BlockType::UnsafeFn);
    assert_eq!(found.effect_blocks[0].containing_fn().vis, Visibility::Private);
    assert_eq!(
        found.effect_blocks[0].effects()[0].eff_type(),
        &Effect::UnsafeCall(CanonicalPath::new("pkg::helper"))
    );
}

#[test]
fn scan_resolves_by_the_index_first() {
    let f = file();
    let index = Resolver::new(vec![IndexEntry {
        loc: SrcLoc::new(&f, 1, 1, 1, 4),
        ident: Ident::new("read"),
        path: CanonicalPath::new("std::fs::read"),
    }]);
    let r = FileResolver::new(&index, &f, CanonicalPath::new("pkg"));
    let decl = FnDec::new(&f, &Span::new(2, 0, 4, 1), CanonicalPath::new("pkg::f"), &DeclaredVisibility::Public);
    let found = scan_expr(&r, &decl, false, &sinks(&["std::fs"]), &call(&["read"], 3, Vec::new()));
    assert_eq!(found.effects.len(), 1);
    assert_eq!(found.effects[0].callee_path(), "std::fs::read");
    let heuristic = Resolver::new(Vec::new());
    let r = FileResolver::new(&heuristic, &f, CanonicalPath::new("pkg"));
    let decl = FnDec::new(&f, &Span::new(2, 0, 4, 1), CanonicalPath::new("pkg::f"), &DeclaredVisibility::Public);
    let found = scan_expr(&r, &decl, false, &sinks(&["std::fs"]), &call(&["read"], 3, Vec::new()));
    assert!(found.effects.is_empty());
}

#[test]
fn scan_hands_out_one_warning_for_each_fallback() {
    let f = file();
    let index = Resolver::new(vec![IndexEntry {
        loc: SrcLoc::new(&f, 1, 1, 1, 4),
        ident: Ident::new("read"),
        path: CanonicalPath::new("std::fs::read"),
    }]);
    let mut r = FileResolver::new(&index, &f, CanonicalPath::new("pkg"));
    let body = vec![
        call(&["read"], 11, vec![call(&["helper"], 11, Vec::new())]),
        Expr::Unsafe {
            span: Span::new(12, 4, 13, 13),
            body: vec![Expr::Operation { kind: OperationKind::RawPointer, target: path(&["PTR"]), span: Span::new(13, 8, 13, 12) }],
        },
        Expr::Operation { kind: OperationKind::ClosureCreation, target: PathExpr::new(Vec::new()), span: Span::new(15, 8, 15, 20) },
        Expr::Macro,
    ];
    let items = vec![function("run", DeclaredVisibility::Public, false, body)];
    let found = scan_items(&mut r, &sinks(&["std::fs"]), &items);
    let names: Vec<String> = found.warnings.iter().map(|w| w.ident.as_str().to_string()).collect();
    assert_eq!(names, vec!["run", "helper", "PTR"]);
    assert_eq!(found.warnings[1].loc, SrcLoc::new(&f, 1, 0, 1, 6));
    assert_eq!(
        found.warnings[1].to_string(),
        "Resolution failed (using fallback) for: helper (pkg/src/lib.rs:1:0..1:6) (no entry in the index)"
    );
}

#[test]
fn scan_without_fallback_gives_no_warning() {
    let f = file();
    let index = Resolver::new(vec![
        IndexEntry { loc: SrcLoc::new(&f, 1, 1, 1, 4), ident: Ident::new("read"), path: CanonicalPath::new("std::fs::read") },
        IndexEntry { loc: SrcLoc::new(&f, 1, 1, 1, 3), ident: Ident::new("run"), path: CanonicalPath::new("pkg::run") },
    ]);
    let mut r = FileResolver::new(&index, &f, CanonicalPath::new("pkg"));
    let items = vec![function("run", DeclaredVisibility::Public, false, vec![call(&["read"], 11, Vec::new())])];
    let found = scan_items(&mut r, &sinks(&["std::fs"]), &items);
    assert!(found.warnings.is_empty());
    assert_eq!(found.effects().len(), 1);
}

#[test]
fn scan_results_make_the_default_policy() {
    let index = Resolver::new(Vec::new());
    let f = file();
    let mut r = FileResolver::new(&index, &f, CanonicalPath::new("dependency-parent"));
    let items = vec![
        Item::Use(UseItem { imports: vec![Import::new("sink_fn", "dependency-ex::sink_fn")] }),
        function("calls_dep", DeclaredVisibility::Public, false, vec![call(&["sink_fn"], 11, Vec::new())]),
        function("quiet", DeclaredVisibility::Public, false, vec![call(&["other"], 12, Vec::new())]),
    ];
    let found = scan_items(&mut r, &sinks(&["dependency-ex::sink_fn"]), &items);
    let policy = PolicyFile::new_caller_checked_default("dependency-parent", &found.effect_blocks);
    assert_eq!(policy.pub_caller_checked, vec![CanonicalPath::new("dependency-parent::calls_dep")]);
}
