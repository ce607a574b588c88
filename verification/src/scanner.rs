//! The walk over the items of a file that keeps a resolver informed: it
//! opens and closes the scopes of modules, impl blocks and functions around
//! their contents, and hands over the imports and the foreign declarations
//! that it meets.

use vstd::prelude::*;

use crate::effect::spec_effect_views;
use crate::effect::spec_fn_dec;
use crate::effect::spec_new_call;
use crate::effect::spec_src_loc;
use crate::effect::BlockType;
use crate::effect::Effect;
use crate::effect::EffectBlock;
use crate::effect::EffectBlockView;
use crate::effect::EffectInstance;
use crate::effect::EffectInstanceView;
use crate::effect::FnDec;
use crate::effect::FnDecView;
use crate::ident::CanonicalPath;
use crate::ident::IdentPath;
use crate::policy::spec_blocks;
use crate::resolve::FileResolver;
use crate::resolve::FileResolverView;
use crate::resolve::spec_warning_views;
use crate::resolve::Resolve;
use crate::resolve::ResolveWarning;
use crate::resolve::ResolveWarningView;
use crate::sink::spec_patterns;
use crate::syntax::spec_imports;
use crate::syntax::spec_impl_name;
use crate::syntax::spec_needs_unsafe;
use crate::syntax::spec_operation_effect;
use crate::syntax::Expr;
use crate::syntax::Item;
use crate::syntax::OperationKind;
use crate::hacky_resolver::HackyResolverView;
use crate::hacky_resolver::ScopeKind;

verus! {

/// What a resolver keeps after the walk over one item. The items of a
/// module or an impl block are walked inside its scope, which is closed
/// after them, and with it the imports made in it. A function opens and
/// closes its scope. An import is noted in the innermost scope, a foreign
/// declaration in the current module. A macro leaves no trace.
pub open spec fn spec_walk_item(state: HackyResolverView, item: Item) -> HackyResolverView
    decreases item, 0nat,
{
    match item {
        Item::Mod { ident, items } => spec_walk_items(
            state.push(ScopeKind::Mod, Some(ident@.name)),
            items@,
        ).pop(),
        Item::Impl { header, items } => spec_walk_items(
            state.push(ScopeKind::Impl, spec_impl_name(header)),
            items@,
        ).pop(),
        Item::Fn { ident, .. } => state.push(ScopeKind::Fn, Some(ident@.name)).pop(),
        Item::Use(use_stmt) => state.import(spec_imports(use_stmt.imports@)),
        Item::ForeignFn(f) => state.declare_ffi(f@.name),
        Item::Macro => state,
    }
}

/// What a resolver keeps after the walk over items, one after the other.
pub open spec fn spec_walk_items(state: HackyResolverView, items: Seq<Item>) -> HackyResolverView
    decreases items, 1nat,
{
    if items.len() == 0 {
        state
    } else {
        spec_walk_item(spec_walk_items(state, items.drop_last()), items.last())
    }
}

/// Walks one item without looking into the bodies of functions: opens
/// and closes its scope around its items, and hands an import or a foreign
/// declaration to the resolver. Whatever the item holds, the same scopes
/// are open afterwards as before.
pub fn walk_item<R: Resolve>(resolver: &mut R, item: &Item)
    requires
        old(resolver).open_scopes().len() >= 1,
    ensures
        final(resolver).open_scopes() == old(resolver).open_scopes(),
        final(resolver).scope_state() == spec_walk_item(old(resolver).scope_state(), *item),
    decreases item, 0nat,
{
    match item {
        Item::Mod { ident, items } => {
            resolver.push_mod(ident);
            walk_items(resolver, items);
            resolver.pop_mod();
            assert(resolver.open_scopes() =~= old(resolver).open_scopes());
        },
        Item::Impl { header, items } => {
            resolver.push_impl(header);
            walk_items(resolver, items);
            resolver.pop_impl();
            assert(resolver.open_scopes() =~= old(resolver).open_scopes());
        },
        Item::Fn { ident, .. } => {
            resolver.push_fn(ident);
            resolver.pop_fn();
            assert(resolver.open_scopes() =~= old(resolver).open_scopes());
        },
        Item::Use(use_stmt) => {
            resolver.scan_use(use_stmt);
        },
        Item::ForeignFn(f) => {
            resolver.scan_foreign_fn(f);
        },
        Item::Macro => {},
    }
}

/// Walks the items of a file, or of a scope, in their order. Whatever
/// they hold, the same scopes are open afterwards as before: a resolver
/// that was at top level is at top level again.
pub fn walk_items<R: Resolve>(resolver: &mut R, items: &Vec<Item>)
    requires
        old(resolver).open_scopes().len() >= 1,
    ensures
        final(resolver).open_scopes() == old(resolver).open_scopes(),
        final(resolver).scope_state() == spec_walk_items(old(resolver).scope_state(), items@),
    decreases items, 1nat,
{
    let mut i: usize = 0;
    assert(items@.take(0) =~= Seq::empty());
    while i < items.len()
        invariant
            i <= items.len(),
            resolver.open_scopes() == old(resolver).open_scopes(),
            resolver.open_scopes().len() >= 1,
            resolver.scope_state() == spec_walk_items(
                old(resolver).scope_state(),
                items@.take(i as int),
            ),
        decreases items.len() - i,
    {
        proof {
            assert(items@.take(i + 1).drop_last() == items@.take(i as int));
            assert(items@.take(i + 1).last() == items@[i as int]);
        }
        walk_item(resolver, &items[i]);
        i += 1;
    }
    assert(items@.take(i as int) == items@);
}

/// The sum of two counts, which stops at the largest number that a count
/// can hold.
pub open spec fn spec_count_add(a: nat, b: nat) -> nat {
    if a + b <= usize::MAX {
        a + b
    } else {
        usize::MAX as nat
    }
}

fn count_add(a: usize, b: usize) -> (r: usize)
    ensures
        r == spec_count_add(a as nat, b as nat),
{
    if a <= usize::MAX - b {
        a + b
    } else {
        usize::MAX
    }
}

/// The warnings of a resolution: the one it gave, if it gave one.
pub open spec fn spec_warned(warning: Option<ResolveWarningView>) -> Seq<ResolveWarningView> {
    match warning {
        Some(w) => seq![w],
        None => Seq::empty(),
    }
}

/// What the scan of expressions finds: the effects in their order, a
/// block for each unsafe block with the effects inside it, the warnings
/// of the resolutions that fell back, and how much was skipped.
pub struct ExprScan {
    pub effects: Seq<EffectInstanceView>,
    /// One warning for each path that the fallback resolved
    pub warnings: Seq<ResolveWarningView>,
    /// The unsafe blocks, in the order in which they begin
    pub unsafe_blocks: Seq<EffectBlockView>,
    /// Invocations of macros, which are not expanded
    pub skipped_macros: nat,
    /// Calls of something that is no path
    pub skipped_fn_calls: nat,
}

/// Nothing found and nothing skipped.
pub open spec fn spec_nothing() -> ExprScan {
    ExprScan {
        effects: Seq::empty(),
        warnings: Seq::empty(),
        unsafe_blocks: Seq::empty(),
        skipped_macros: 0,
        skipped_fn_calls: 0,
    }
}

/// What two scans find, one after the other.
pub open spec fn spec_merge(a: ExprScan, b: ExprScan) -> ExprScan {
    ExprScan {
        effects: a.effects + b.effects,
        warnings: a.warnings + b.warnings,
        unsafe_blocks: a.unsafe_blocks + b.unsafe_blocks,
        skipped_macros: spec_count_add(a.skipped_macros, b.skipped_macros),
        skipped_fn_calls: spec_count_add(a.skipped_fn_calls, b.skipped_fn_calls),
    }
}

/// What the scan of one expression finds in the body of a function. A
/// call by path is classified, and its arguments are scanned after it. A
/// call of anything else is skipped, and so is a macro. What stands in an
/// unsafe block is scanned as unsafe, and the block is recorded with the
/// effects inside it. An operation is an
/// effect on the item it names, on the function itself where it names
/// none; one that only unsafe code may perform counts in unsafe code
/// only.
pub open spec fn spec_scan_expr(
    r: FileResolverView,
    decl: FnDecView,
    in_unsafe: bool,
    patterns: Seq<Seq<char>>,
    e: Expr,
) -> ExprScan
    decreases e, 0nat,
{
    let caller = decl.fn_name;
    match e {
        Expr::Call { callee, span, args } => {
            let own = if callee.segments@.len() > 0 {
                let warnings = spec_warned(r.warning(callee.segments@.last()@));
                match spec_new_call(
                    r.filepath,
                    caller,
                    r.resolve_path(callee),
                    span,
                    in_unsafe,
                    r.backup.resolve_ffi(callee.names()),
                    patterns,
                ) {
                    Some(effect) => ExprScan { effects: seq![effect], warnings, ..spec_nothing() },
                    None => ExprScan { warnings, ..spec_nothing() },
                }
            } else {
                ExprScan { skipped_fn_calls: 1, ..spec_nothing() }
            };
            spec_merge(own, spec_scan_exprs(r, decl, in_unsafe, patterns, args@))
        },
        Expr::OtherCall { args } => spec_merge(
            ExprScan { skipped_fn_calls: 1, ..spec_nothing() },
            spec_scan_exprs(r, decl, in_unsafe, patterns, args@),
        ),
        Expr::Macro => ExprScan { skipped_macros: 1, ..spec_nothing() },
        Expr::Unsafe { span, body } => {
            let inner = spec_scan_exprs(r, decl, true, patterns, body@);
            let block = EffectBlockView {
                src_loc: spec_src_loc(r.filepath, span),
                block_type: BlockType::UnsafeExpr,
                effects: inner.effects,
                containing_fn: decl,
            };
            ExprScan { unsafe_blocks: seq![block] + inner.unsafe_blocks, ..inner }
        },
        Expr::Operation { kind, target, span } => if spec_needs_unsafe(kind) && !in_unsafe {
            spec_nothing()
        } else {
            let callee = if target.segments@.len() > 0 {
                r.resolve_path(target)
            } else {
                caller
            };
            ExprScan {
                effects: seq![
                    EffectInstanceView {
                        caller,
                        call_loc: spec_src_loc(r.filepath, span),
                        callee,
                        eff_type: spec_operation_effect(kind, callee),
                    },
                ],
                warnings: if target.segments@.len() > 0 {
                    spec_warned(r.warning(target.segments@.last()@))
                } else {
                    Seq::empty()
                },
                ..spec_nothing()
            }
        },
        Expr::Other { parts } => spec_scan_exprs(r, decl, in_unsafe, patterns, parts@),
    }
}

/// What the scan of expressions finds, one expression after the other.
pub open spec fn spec_scan_exprs(
    r: FileResolverView,
    decl: FnDecView,
    in_unsafe: bool,
    patterns: Seq<Seq<char>>,
    es: Seq<Expr>,
) -> ExprScan
    decreases es, 1nat,
{
    if es.len() == 0 {
        spec_nothing()
    } else {
        spec_merge(
            spec_scan_exprs(r, decl, in_unsafe, patterns, es.drop_last()),
            spec_scan_expr(r, decl, in_unsafe, patterns, es.last()),
        )
    }
}

/// The effects and the unsafe blocks that a scan of expressions found,
/// and how much it skipped.
#[derive(Debug)]
pub struct ExprResults {
    pub effects: Vec<EffectInstance>,
    pub warnings: Vec<ResolveWarning>,
    pub unsafe_blocks: Vec<EffectBlock>,
    pub skipped_macros: usize,
    pub skipped_fn_calls: usize,
}

impl View for ExprResults {
    type V = ExprScan;

    open spec fn view(&self) -> ExprScan {
        ExprScan {
            effects: spec_effect_views(self.effects@),
            warnings: spec_warning_views(self.warnings@),
            unsafe_blocks: spec_blocks(self.unsafe_blocks@),
            skipped_macros: self.skipped_macros as nat,
            skipped_fn_calls: self.skipped_fn_calls as nat,
        }
    }
}

impl ExprResults {
    /// Nothing found and nothing skipped.
    pub fn new() -> (r: ExprResults)
        ensures
            r@ == spec_nothing(),
    {
        let r = ExprResults {
            effects: Vec::new(),
            warnings: Vec::new(),
            unsafe_blocks: Vec::new(),
            skipped_macros: 0,
            skipped_fn_calls: 0,
        };
        assert(r@.effects =~= Seq::empty());
        assert(r@.warnings =~= Seq::empty());
        assert(r@.unsafe_blocks =~= Seq::empty());
        r
    }

    /// Adds what another scan found behind what this one found.
    pub fn absorb(&mut self, other: ExprResults)
        ensures
            final(self)@ == spec_merge(old(self)@, other@),
    {
        let mut other = other;
        let ghost added = other.effects@;
        let ghost added_warnings = other.warnings@;
        let ghost added_blocks = other.unsafe_blocks@;
        self.effects.append(&mut other.effects);
        self.warnings.append(&mut other.warnings);
        self.unsafe_blocks.append(&mut other.unsafe_blocks);
        assert(spec_warning_views(self.warnings@) =~= spec_warning_views(old(self).warnings@)
            + spec_warning_views(added_warnings));
        self.skipped_macros = count_add(self.skipped_macros, other.skipped_macros);
        self.skipped_fn_calls = count_add(self.skipped_fn_calls, other.skipped_fn_calls);
        assert(spec_effect_views(self.effects@) =~= spec_effect_views(old(self).effects@)
            + spec_effect_views(added));
        assert(spec_blocks(self.unsafe_blocks@) =~= spec_blocks(old(self).unsafe_blocks@)
            + spec_blocks(added_blocks));
    }
}

fn push_warning(warnings: &mut Vec<ResolveWarning>, warning: Option<ResolveWarning>)
    ensures
        spec_warning_views(final(warnings)@) == spec_warning_views(old(warnings)@) + spec_warned(
            match warning {
                Some(w) => Some(w@),
                None => None,
            },
        ),
{
    match warning {
        Some(w) => {
            warnings.push(w);
            assert(spec_warning_views(warnings@) =~= spec_warning_views(old(warnings)@) + seq![w@]);
        },
        None => {
            assert(spec_warning_views(warnings@) =~= spec_warning_views(old(warnings)@)
                + Seq::<ResolveWarningView>::empty());
        },
    }
}

fn clone_effects(effects: &Vec<EffectInstance>) -> (r: Vec<EffectInstance>)
    ensures
        spec_effect_views(r@) == spec_effect_views(effects@),
{
    let mut r: Vec<EffectInstance> = Vec::new();
    let mut i: usize = 0;
    while i < effects.len()
        invariant
            i <= effects.len(),
            r@.len() == i,
            forall|j: int| 0 <= j < i ==> r@[j]@ == effects@[j]@,
        decreases effects.len() - i,
    {
        r.push(effects[i].clone());
        i += 1;
    }
    assert(spec_effect_views(r@) =~= spec_effect_views(effects@));
    r
}

fn needs_unsafe(kind: OperationKind) -> (r: bool)
    ensures
        r == spec_needs_unsafe(kind),
{
    match kind {
        OperationKind::FnPtrCreation => false,
        OperationKind::ClosureCreation => false,
        _ => true,
    }
}

fn operation_effect(kind: OperationKind, target: &CanonicalPath) -> (r: Effect)
    ensures
        r@ == spec_operation_effect(kind, target@),
{
    match kind {
        OperationKind::RawPointer => Effect::RawPointer(target.clone()),
        OperationKind::UnionField => Effect::UnionField(target.clone()),
        OperationKind::StaticMut => Effect::StaticMut(target.clone()),
        OperationKind::StaticExt => Effect::StaticExt(target.clone()),
        OperationKind::FnPtrCreation => Effect::FnPtrCreation,
        OperationKind::ClosureCreation => Effect::ClosureCreation,
    }
}

/// Scans one expression in the body of the function with the given
/// declaration.
pub fn scan_expr(
    resolver: &FileResolver,
    decl: &FnDec,
    in_unsafe: bool,
    sinks: &Vec<IdentPath>,
    e: &Expr,
) -> (r: ExprResults)
    ensures
        r@ == spec_scan_expr(resolver@, decl@, in_unsafe, spec_patterns(sinks@), *e),
    decreases e, 0nat,
{
    let caller = &decl.fn_name;
    match e {
        Expr::Call { callee, span, args } => {
            let mut out = ExprResults::new();
            if callee.segments.len() > 0 {
                let resolved = resolver.resolve_path(callee);
                let ffi = resolver.resolve_ffi(callee);
                let found = EffectInstance::new_call(
                    resolver.filepath(),
                    caller.clone(),
                    resolved.path,
                    span,
                    in_unsafe,
                    ffi,
                    sinks,
                );
                push_warning(&mut out.warnings, resolved.warning);
                assert(out@.warnings =~= spec_warned(resolver@.warning(callee.segments@.last()@)));
                match found {
                    Some(effect) => {
                        out.effects.push(effect);
                        assert(out@.effects =~= seq![effect@]);
                    },
                    None => {},
                }
            } else {
                out.skipped_fn_calls = 1;
            }
            out.absorb(scan_exprs(resolver, decl, in_unsafe, sinks, args));
            out
        },
        Expr::OtherCall { args } => {
            let mut out = ExprResults::new();
            out.skipped_fn_calls = 1;
            out.absorb(scan_exprs(resolver, decl, in_unsafe, sinks, args));
            out
        },
        Expr::Macro => {
            let mut out = ExprResults::new();
            out.skipped_macros = 1;
            out
        },
        Expr::Unsafe { span, body } => {
            let mut out = scan_exprs(resolver, decl, true, sinks, body);
            let mut block = EffectBlock::new_unsafe_expr(resolver.filepath(), span, decl.clone());
            block.extend_effects(clone_effects(&out.effects));
            assert(block@.effects =~= out@.effects);
            let ghost inner = spec_blocks(out.unsafe_blocks@);
            out.unsafe_blocks.insert(0, block);
            assert(spec_blocks(out.unsafe_blocks@) =~= seq![block@] + inner);
            out
        },
        Expr::Operation { kind, target, span } => {
            if needs_unsafe(*kind) && !in_unsafe {
                return ExprResults::new();
            }
            let mut out = ExprResults::new();
            let callee = if target.segments.len() > 0 {
                let resolved = resolver.resolve_path(target);
                push_warning(&mut out.warnings, resolved.warning);
                assert(out@.warnings =~= spec_warned(resolver@.warning(target.segments@.last()@)));
                resolved.path
            } else {
                caller.clone()
            };
            let eff_type = operation_effect(*kind, &callee);
            let effect = EffectInstance::new_effect(
                resolver.filepath(),
                caller.clone(),
                callee,
                span,
                eff_type,
            );
            out.effects.push(effect);
            assert(out@.effects =~= seq![effect@]);
            out
        },
        Expr::Other { parts } => scan_exprs(resolver, decl, in_unsafe, sinks, parts),
    }
}

/// Scans expressions in the body of the function with the given
/// declaration, in their order.
pub fn scan_exprs(
    resolver: &FileResolver,
    decl: &FnDec,
    in_unsafe: bool,
    sinks: &Vec<IdentPath>,
    es: &Vec<Expr>,
) -> (r: ExprResults)
    ensures
        r@ == spec_scan_exprs(resolver@, decl@, in_unsafe, spec_patterns(sinks@), es@),
    decreases es, 1nat,
{
    let mut out = ExprResults::new();
    let mut i: usize = 0;
    assert(es@.take(0) =~= Seq::empty());
    while i < es.len()
        invariant
            i <= es.len(),
            out@ == spec_scan_exprs(
                resolver@,
                decl@,
                in_unsafe,
                spec_patterns(sinks@),
                es@.take(i as int),
            ),
        decreases es.len() - i,
    {
        proof {
            assert(es@.take(i + 1).drop_last() == es@.take(i as int));
            assert(es@.take(i + 1).last() == es@[i as int]);
        }
        out.absorb(scan_expr(resolver, decl, in_unsafe, sinks, &es[i]));
        i += 1;
    }
    assert(es@.take(i as int) == es@);
    out
}

/// What the scan of items finds: a block for each function, with the
/// effects of its body, a block for each unsafe block, with the effects
/// inside it, and how much was skipped.
pub struct ScanView {
    pub blocks: Seq<EffectBlockView>,
    pub unsafe_blocks: Seq<EffectBlockView>,
    /// One warning for each name or path that the fallback resolved
    pub warnings: Seq<ResolveWarningView>,
    /// Invocations of macros, which are not expanded
    pub skipped_macros: nat,
    /// Calls of something that is no path
    pub skipped_fn_calls: nat,
}

/// No function found and nothing skipped.
pub open spec fn spec_no_blocks() -> ScanView {
    ScanView {
        blocks: Seq::empty(),
        unsafe_blocks: Seq::empty(),
        warnings: Seq::empty(),
        skipped_macros: 0,
        skipped_fn_calls: 0,
    }
}

/// What two scans of items find, one after the other.
pub open spec fn spec_merge_scans(a: ScanView, b: ScanView) -> ScanView {
    ScanView {
        blocks: a.blocks + b.blocks,
        unsafe_blocks: a.unsafe_blocks + b.unsafe_blocks,
        warnings: a.warnings + b.warnings,
        skipped_macros: spec_count_add(a.skipped_macros, b.skipped_macros),
        skipped_fn_calls: spec_count_add(a.skipped_fn_calls, b.skipped_fn_calls),
    }
}

/// The resolver after a scan of items, and what the scan found.
pub struct FileScan {
    pub resolver: FileResolverView,
    pub found: ScanView,
}

/// The resolver with a scope opened.
pub open spec fn spec_enter(
    r: FileResolverView,
    kind: ScopeKind,
    name: Option<Seq<char>>,
) -> FileResolverView {
    r.with_backup(r.backup.push(kind, name))
}

/// The resolver with its innermost scope closed.
pub open spec fn spec_leave(r: FileResolverView) -> FileResolverView {
    r.with_backup(r.backup.pop())
}

/// What the scan of one item does and finds. The items of a module or an
/// impl block are scanned inside its scope. A function gives one block,
/// under the path of its declaration, with what the scan of its body
/// finds inside its scope. An import or a foreign declaration is handed
/// to the resolver. A macro is skipped.
pub open spec fn spec_scan_item(r: FileResolverView, patterns: Seq<Seq<char>>, item: Item) -> FileScan
    decreases item, 0nat,
{
    match item {
        Item::Mod { ident, items } => {
            let inner = spec_scan_items(
                spec_enter(r, ScopeKind::Mod, Some(ident@.name)),
                patterns,
                items@,
            );
            FileScan { resolver: spec_leave(inner.resolver), found: inner.found }
        },
        Item::Impl { header, items } => {
            let inner = spec_scan_items(
                spec_enter(r, ScopeKind::Impl, spec_impl_name(header)),
                patterns,
                items@,
            );
            FileScan { resolver: spec_leave(inner.resolver), found: inner.found }
        },
        Item::Fn { ident, vis, is_unsafe, span, body } => {
            let decl = spec_fn_dec(r.filepath, span, r.resolve_def(ident@), vis);
            let inside = spec_enter(r, ScopeKind::Fn, Some(ident@.name));
            let scan = spec_scan_exprs(inside, decl, is_unsafe, patterns, body@);
            let block = EffectBlockView {
                src_loc: spec_src_loc(r.filepath, span),
                block_type: if is_unsafe {
                    BlockType::UnsafeFn
                } else {
                    BlockType::NormalFn
                },
                effects: scan.effects,
                containing_fn: decl,
            };
            FileScan {
                resolver: spec_leave(inside),
                found: ScanView {
                    blocks: seq![block],
                    unsafe_blocks: scan.unsafe_blocks,
                    warnings: spec_warned(r.warning(ident@)) + scan.warnings,
                    skipped_macros: scan.skipped_macros,
                    skipped_fn_calls: scan.skipped_fn_calls,
                },
            }
        },
        Item::Use(use_stmt) => FileScan {
            resolver: r.with_backup(r.backup.import(spec_imports(use_stmt.imports@))),
            found: spec_no_blocks(),
        },
        Item::ForeignFn(f) => FileScan {
            resolver: r.with_backup(r.backup.declare_ffi(f@.name)),
            found: spec_no_blocks(),
        },
        Item::Macro => FileScan {
            resolver: r,
            found: ScanView { skipped_macros: 1, ..spec_no_blocks() },
        },
    }
}

/// What the scan of items does and finds, one item after the other.
pub open spec fn spec_scan_items(
    r: FileResolverView,
    patterns: Seq<Seq<char>>,
    items: Seq<Item>,
) -> FileScan
    decreases items, 1nat,
{
    if items.len() == 0 {
        FileScan { resolver: r, found: spec_no_blocks() }
    } else {
        let front = spec_scan_items(r, patterns, items.drop_last());
        let last = spec_scan_item(front.resolver, patterns, items.last());
        FileScan { resolver: last.resolver, found: spec_merge_scans(front.found, last.found) }
    }
}

/// What a scan of items found.
#[derive(Debug)]
pub struct ScanResults {
    /// A block for each function, in the order of the file
    pub effect_blocks: Vec<EffectBlock>,
    /// A block for each unsafe block, in the order of the file
    pub unsafe_blocks: Vec<EffectBlock>,
    /// One warning for each name or path that the fallback resolved
    pub warnings: Vec<ResolveWarning>,
    /// Invocations of macros, which are not expanded
    pub skipped_macros: usize,
    /// Calls of something that is no path
    pub skipped_fn_calls: usize,
}

impl View for ScanResults {
    type V = ScanView;

    open spec fn view(&self) -> ScanView {
        ScanView {
            blocks: spec_blocks(self.effect_blocks@),
            unsafe_blocks: spec_blocks(self.unsafe_blocks@),
            warnings: spec_warning_views(self.warnings@),
            skipped_macros: self.skipped_macros as nat,
            skipped_fn_calls: self.skipped_fn_calls as nat,
        }
    }
}

/// The effects of blocks, one block after the other.
pub open spec fn spec_all_effects(blocks: Seq<EffectBlockView>) -> Seq<EffectInstanceView>
    decreases blocks.len(),
{
    if blocks.len() == 0 {
        Seq::empty()
    } else {
        spec_all_effects(blocks.drop_last()) + blocks.last().effects
    }
}

impl ScanResults {
    /// No function found and nothing skipped.
    pub fn new() -> (r: ScanResults)
        ensures
            r@ == spec_no_blocks(),
    {
        let r = ScanResults {
            effect_blocks: Vec::new(),
            unsafe_blocks: Vec::new(),
            warnings: Vec::new(),
            skipped_macros: 0,
            skipped_fn_calls: 0,
        };
        assert(r@.blocks =~= Seq::empty());
        assert(r@.unsafe_blocks =~= Seq::empty());
        assert(r@.warnings =~= Seq::empty());
        r
    }

    /// Adds what another scan found behind what this one found.
    pub fn absorb(&mut self, other: ScanResults)
        ensures
            final(self)@ == spec_merge_scans(old(self)@, other@),
    {
        let mut other = other;
        let ghost added = other.effect_blocks@;
        let ghost added_unsafe = other.unsafe_blocks@;
        let ghost added_warnings = other.warnings@;
        self.effect_blocks.append(&mut other.effect_blocks);
        self.unsafe_blocks.append(&mut other.unsafe_blocks);
        self.warnings.append(&mut other.warnings);
        assert(spec_warning_views(self.warnings@) =~= spec_warning_views(old(self).warnings@)
            + spec_warning_views(added_warnings));
        self.skipped_macros = count_add(self.skipped_macros, other.skipped_macros);
        self.skipped_fn_calls = count_add(self.skipped_fn_calls, other.skipped_fn_calls);
        assert(spec_blocks(self.effect_blocks@) =~= spec_blocks(old(self).effect_blocks@)
            + spec_blocks(added));
        assert(spec_blocks(self.unsafe_blocks@) =~= spec_blocks(old(self).unsafe_blocks@)
            + spec_blocks(added_unsafe));
    }

    /// All effects that were found, in the order of the file.
    pub fn effects(&self) -> (r: Vec<EffectInstance>)
        ensures
            spec_effect_views(r@) == spec_all_effects(self@.blocks),
    {
        let ghost all = self@.blocks;
        let mut r: Vec<EffectInstance> = Vec::new();
        let mut i: usize = 0;
        assert(all.take(0) =~= Seq::empty());
        assert(spec_effect_views(r@) =~= Seq::empty());
        while i < self.effect_blocks.len()
            invariant
                i <= self.effect_blocks.len(),
                all == spec_blocks(self.effect_blocks@),
                spec_effect_views(r@) == spec_all_effects(all.take(i as int)),
            decreases self.effect_blocks.len() - i,
        {
            let block = &self.effect_blocks[i];
            let effects = block.effects();
            let ghost before = spec_effect_views(r@);
            proof {
                assert(all.take(i + 1).drop_last() == all.take(i as int));
                assert(all.take(i + 1).last() == block@);
            }
            let mut j: usize = 0;
            assert(spec_effect_views(effects@).take(0) =~= Seq::empty());
            assert(before + Seq::<EffectInstanceView>::empty() =~= before);
            while j < effects.len()
                invariant
                    j <= effects.len(),
                    spec_effect_views(r@) == before + spec_effect_views(effects@).take(j as int),
                decreases effects.len() - j,
            {
                let ghost held = spec_effect_views(r@);
                r.push(effects[j].clone());
                assert(spec_effect_views(r@) =~= held.push(effects@[j as int]@));
                j += 1;
                assert(spec_effect_views(effects@).take(j as int) =~= spec_effect_views(
                    effects@,
                ).take(j - 1).push(effects@[j - 1]@));
            }
            assert(spec_effect_views(effects@).take(j as int) =~= spec_effect_views(effects@));
            i += 1;
        }
        assert(all.take(i as int) == all);
        r
    }
}

/// Scans one item of a file.
pub fn scan_item(resolver: &mut FileResolver, sinks: &Vec<IdentPath>, item: &Item) -> (r:
    ScanResults)
    requires
        old(resolver)@.backup.wf(),
    ensures
        final(resolver)@.backup.wf(),
        final(resolver)@ == spec_scan_item(old(resolver)@, spec_patterns(sinks@), *item).resolver,
        r@ == spec_scan_item(old(resolver)@, spec_patterns(sinks@), *item).found,
    decreases item, 0nat,
{
    match item {
        Item::Mod { ident, items } => {
            resolver.push_mod(ident);
            let found = scan_items(resolver, sinks, items);
            resolver.pop_mod();
            found
        },
        Item::Impl { header, items } => {
            resolver.push_impl(header);
            let found = scan_items(resolver, sinks, items);
            resolver.pop_impl();
            found
        },
        Item::Fn { ident, vis, is_unsafe, span, body } => {
            let resolved = resolver.resolve_def(ident);
            let mut warnings: Vec<ResolveWarning> = Vec::new();
            push_warning(&mut warnings, resolved.warning);
            assert(spec_warning_views(warnings@) =~= spec_warned(old(resolver)@.warning(ident@)));
            let name = resolved.path;
            let mut block = if *is_unsafe {
                EffectBlock::new_unsafe_fn(resolver.filepath(), span, name, vis)
            } else {
                EffectBlock::new_fn(resolver.filepath(), span, name, vis)
            };
            let decl = block.containing_fn().clone();
            resolver.push_fn(ident);
            let scan = scan_exprs(resolver, &decl, *is_unsafe, sinks, body);
            resolver.pop_fn();
            let ExprResults {
                effects,
                warnings: mut body_warnings,
                unsafe_blocks,
                skipped_macros,
                skipped_fn_calls,
            } = scan;
            block.extend_effects(effects);
            assert(block@.effects =~= scan@.effects);
            let ghost first = spec_warning_views(warnings@);
            warnings.append(&mut body_warnings);
            assert(spec_warning_views(warnings@) =~= first + scan@.warnings);
            let mut found = ScanResults::new();
            found.effect_blocks.push(block);
            found.unsafe_blocks = unsafe_blocks;
            found.warnings = warnings;
            found.skipped_macros = skipped_macros;
            found.skipped_fn_calls = skipped_fn_calls;
            assert(found@.blocks =~= seq![block@]);
            found
        },
        Item::Use(use_stmt) => {
            resolver.scan_use(use_stmt);
            ScanResults::new()
        },
        Item::ForeignFn(f) => {
            resolver.scan_foreign_fn(f);
            ScanResults::new()
        },
        Item::Macro => {
            let mut found = ScanResults::new();
            found.skipped_macros = 1;
            found
        },
    }
}

/// Scans the items of a file, or of a scope, in their order.
pub fn scan_items(resolver: &mut FileResolver, sinks: &Vec<IdentPath>, items: &Vec<Item>) -> (r:
    ScanResults)
    requires
        old(resolver)@.backup.wf(),
    ensures
        final(resolver)@.backup.wf(),
        final(resolver)@ == spec_scan_items(old(resolver)@, spec_patterns(sinks@), items@).resolver,
        r@ == spec_scan_items(old(resolver)@, spec_patterns(sinks@), items@).found,
    decreases items, 1nat,
{
    let mut found = ScanResults::new();
    let mut i: usize = 0;
    assert(items@.take(0) =~= Seq::empty());
    while i < items.len()
        invariant
            i <= items.len(),
            resolver@.backup.wf(),
            resolver@ == spec_scan_items(
                old(resolver)@,
                spec_patterns(sinks@),
                items@.take(i as int),
            ).resolver,
            found@ == spec_scan_items(
                old(resolver)@,
                spec_patterns(sinks@),
                items@.take(i as int),
            ).found,
        decreases items.len() - i,
    {
        proof {
            assert(items@.take(i + 1).drop_last() == items@.take(i as int));
            assert(items@.take(i + 1).last() == items@[i as int]);
        }
        found.absorb(scan_item(resolver, sinks, &items[i]));
        i += 1;
    }
    assert(items@.take(i as int) == items@);
    found
}

/// Whether two states of a resolver are of the same file and index, with
/// the same scopes open.
pub open spec fn spec_same_scopes(before: FileResolverView, after: FileResolverView) -> bool {
    &&& after.backup.open_scopes() == before.backup.open_scopes()
    &&& after.backup.wf() == before.backup.wf()
    &&& after.backup.top_level() == before.backup.top_level()
    &&& after.backup.modpath == before.backup.modpath
    &&& after.index == before.index
    &&& after.filepath == before.filepath
}

/// The scan of an item leaves open the scopes that were open: every scope
/// that it opens it closes again.
pub proof fn lemma_scan_item_keeps_scopes(r: FileResolverView, patterns: Seq<Seq<char>>, item: Item)
    requires
        r.backup.wf(),
    ensures
        spec_same_scopes(r, spec_scan_item(r, patterns, item).resolver),
    decreases item, 0nat,
{
    let after = spec_scan_item(r, patterns, item).resolver;
    match item {
        Item::Mod { ident, items } => {
            let inside = spec_enter(r, ScopeKind::Mod, Some(ident@.name));
            lemma_scan_items_keep_scopes(inside, patterns, items@);
            let inner = spec_scan_items(inside, patterns, items@).resolver;
            assert(inner.backup.open_scopes().drop_last() =~= r.backup.open_scopes());
            assert(after.backup.open_scopes() =~= inner.backup.open_scopes().drop_last());
        },
        Item::Impl { header, items } => {
            let inside = spec_enter(r, ScopeKind::Impl, spec_impl_name(header));
            lemma_scan_items_keep_scopes(inside, patterns, items@);
            let inner = spec_scan_items(inside, patterns, items@).resolver;
            assert(inner.backup.open_scopes().drop_last() =~= r.backup.open_scopes());
            assert(after.backup.open_scopes() =~= inner.backup.open_scopes().drop_last());
        },
        Item::Fn { ident, .. } => {
            let inside = spec_enter(r, ScopeKind::Fn, Some(ident@.name));
            assert(inside.backup.scopes.drop_last() =~= r.backup.scopes);
        },
        Item::Use(use_stmt) => {
            assert(after.backup.open_scopes() =~= r.backup.open_scopes());
        },
        Item::ForeignFn(f) => {},
        Item::Macro => {},
    }
}

/// The scan of the items of a file leaves open the scopes that were open.
/// A resolver that is at top level before the scan is at top level after
/// it, whatever the file holds.
pub proof fn lemma_scan_items_keep_scopes(
    r: FileResolverView,
    patterns: Seq<Seq<char>>,
    items: Seq<Item>,
)
    requires
        r.backup.wf(),
    ensures
        spec_same_scopes(r, spec_scan_items(r, patterns, items).resolver),
    decreases items, 1nat,
{
    if items.len() > 0 {
        lemma_scan_items_keep_scopes(r, patterns, items.drop_last());
        let front = spec_scan_items(r, patterns, items.drop_last());
        lemma_scan_item_keeps_scopes(front.resolver, patterns, items.last());
    }
}

} // verus!
