//! The heuristic resolver.
//!
//! It knows one file, and of that file only what it was told: which
//! modules, impl blocks and functions are open, and which names the `use`
//! declarations in them import. A name is looked up in the open scopes from
//! the innermost outwards. A name that no scope imports is taken to be
//! declared in the current module. This always gives a path, which may be
//! wrong where the name came in by a glob import or a macro.

use vstd::prelude::*;

use crate::ident::spec_push_segment;
use crate::ident::CanonicalPath;
use crate::ident::Ident;
use crate::resolve::Resolution;
use crate::resolve::ResolutionView;
use crate::resolve::Resolve;
use crate::syntax::spec_impl_name;
use crate::syntax::spec_imports;
use crate::syntax::spec_names;
use crate::syntax::ImplHeader;
use crate::syntax::Import;
use crate::syntax::ImportView;
use crate::syntax::PathExpr;
use crate::syntax::SpannedIdent;
use crate::syntax::UseItem;

verus! {

/// What kind of scope is open.
#[derive(Clone, Copy, Debug, PartialEq, Eq, Hash, Structural)]
pub enum ScopeKind {
    Mod,
    Impl,
    Fn,
}

/// An open scope: its kind, its name where it has one, and the names
/// imported in it.
#[derive(Debug)]
pub struct Scope {
    kind: ScopeKind,
    name: Option<Ident>,
    imports: Vec<Import>,
}

/// What a [`Scope`] holds.
pub struct ScopeView {
    pub kind: ScopeKind,
    pub name: Option<Seq<char>>,
    pub imports: Seq<ImportView>,
}

impl View for Scope {
    type V = ScopeView;

    closed spec fn view(&self) -> ScopeView {
        ScopeView {
            kind: self.kind,
            name: match self.name {
                Some(name) => Some(name@),
                None => None,
            },
            imports: spec_imports(self.imports@),
        }
    }
}

/// The views of a sequence of scopes.
pub open spec fn spec_scopes(scopes: Seq<Scope>) -> Seq<ScopeView> {
    scopes.map_values(|s: Scope| s@)
}

/// The scope of the file itself, which is always open.
pub open spec fn spec_root_scope() -> ScopeView {
    ScopeView { kind: ScopeKind::Mod, name: None, imports: Seq::empty() }
}

/// A scope that was just opened.
pub open spec fn spec_new_scope(kind: ScopeKind, name: Option<Seq<char>>) -> ScopeView {
    ScopeView { kind, name, imports: Seq::empty() }
}

/// The path that a name is imported as in one scope: that of the latest
/// import of the name.
pub open spec fn spec_find_import(imports: Seq<ImportView>, name: Seq<char>) -> Option<Seq<char>>
    decreases imports.len(),
{
    if imports.len() == 0 {
        None
    } else if imports.last().name == name {
        Some(imports.last().path)
    } else {
        spec_find_import(imports.drop_last(), name)
    }
}

/// The path that a name is imported as: that of the innermost open scope
/// that imports it.
pub open spec fn spec_lookup(scopes: Seq<ScopeView>, name: Seq<char>) -> Option<Seq<char>>
    decreases scopes.len(),
{
    if scopes.len() == 0 {
        None
    } else {
        match spec_find_import(scopes.last().imports, name) {
            Some(path) => Some(path),
            None => spec_lookup(scopes.drop_last(), name),
        }
    }
}

/// The path of the current module: that of the file, and then the name of
/// every open module and impl block, outermost first. Functions add
/// nothing to it.
pub open spec fn spec_module_path(modpath: Seq<char>, scopes: Seq<ScopeView>) -> Seq<char>
    decreases scopes.len(),
{
    if scopes.len() == 0 {
        modpath
    } else {
        let outer = spec_module_path(modpath, scopes.drop_last());
        match scopes.last().name {
            Some(name) => if scopes.last().kind == ScopeKind::Fn {
                outer
            } else {
                spec_push_segment(outer, name)
            },
            None => outer,
        }
    }
}

/// A path with further segments at its end.
pub open spec fn spec_push_segments(path: Seq<char>, segments: Seq<Seq<char>>) -> Seq<char>
    decreases segments.len(),
{
    if segments.len() == 0 {
        path
    } else {
        spec_push_segment(spec_push_segments(path, segments.drop_last()), segments.last())
    }
}

/// The foreign declaration of a name: the latest one.
pub open spec fn spec_find_ffi(decls: Seq<ImportView>, name: Seq<char>) -> Option<Seq<char>> {
    spec_find_import(decls, name)
}

/// What a [`HackyResolver`] holds: the path of the module that the file
/// defines, the open scopes, outermost first, and the foreign functions
/// that were declared.
pub struct HackyResolverView {
    pub modpath: Seq<char>,
    pub scopes: Seq<ScopeView>,
    pub ffi_decls: Seq<ImportView>,
}

impl HackyResolverView {
    /// The scope of the file is always open.
    pub open spec fn wf(self) -> bool {
        self.scopes.len() >= 1
    }

    /// Whether no module, impl block or function is open.
    pub open spec fn top_level(self) -> bool {
        self.scopes.len() == 1
    }

    /// The kinds and names of the open scopes, outermost first.
    pub open spec fn open_scopes(self) -> Seq<(ScopeKind, Option<Seq<char>>)> {
        self.scopes.map_values(|s: ScopeView| (s.kind, s.name))
    }

    /// The path of a declaration with the given name in the current module.
    pub open spec fn resolve_def(self, name: Seq<char>) -> Seq<char> {
        spec_push_segment(spec_module_path(self.modpath, self.scopes), name)
    }

    /// The path that a name resolves to: what it is imported as, else its
    /// path as a declaration of the current module.
    pub open spec fn resolve_ident(self, name: Seq<char>) -> Seq<char> {
        match spec_lookup(self.scopes, name) {
            Some(path) => path,
            None => self.resolve_def(name),
        }
    }

    /// The path that a written path resolves to. Where its first segment
    /// is imported, the import stands for that segment. A single name that
    /// is not imported is a declaration of the current module. A longer
    /// path whose first segment is not imported stands as it is written.
    pub open spec fn resolve_path(self, names: Seq<Seq<char>>) -> Seq<char> {
        match spec_lookup(self.scopes, names[0]) {
            Some(path) => spec_push_segments(path, names.skip(1)),
            None => if names.len() == 1 {
                self.resolve_def(names[0])
            } else {
                spec_push_segments(Seq::empty(), names)
            },
        }
    }

    /// The foreign declaration that a path calls, if its last segment names
    /// one.
    pub open spec fn resolve_ffi(self, names: Seq<Seq<char>>) -> Option<Seq<char>> {
        spec_find_ffi(self.ffi_decls, names.last())
    }

    /// The resolver with one more open scope.
    pub open spec fn push(self, kind: ScopeKind, name: Option<Seq<char>>) -> HackyResolverView {
        HackyResolverView { scopes: self.scopes.push(spec_new_scope(kind, name)), ..self }
    }

    /// The resolver with its innermost scope closed. The scope of the file
    /// stays open.
    pub open spec fn pop(self) -> HackyResolverView {
        if self.scopes.len() > 1 {
            HackyResolverView { scopes: self.scopes.drop_last(), ..self }
        } else {
            self
        }
    }

    /// The resolver with further imports in its innermost scope.
    pub open spec fn import(self, imports: Seq<ImportView>) -> HackyResolverView {
        HackyResolverView {
            scopes: self.scopes.update(
                self.scopes.len() - 1,
                ScopeView { imports: self.scopes.last().imports + imports, ..self.scopes.last() },
            ),
            ..self
        }
    }

    /// The resolver with a foreign function declared in the current
    /// module.
    pub open spec fn declare_ffi(self, name: Seq<char>) -> HackyResolverView {
        HackyResolverView {
            ffi_decls: self.ffi_decls.push(ImportView { name, path: self.resolve_def(name) }),
            ..self
        }
    }
}

/// The resolver of a file in which nothing is open and nothing was noted.
pub open spec fn spec_new_resolver(modpath: Seq<char>) -> HackyResolverView {
    HackyResolverView { modpath, scopes: seq![spec_root_scope()], ffi_decls: Seq::empty() }
}

/// The resolver that goes by the scopes of one file.
#[derive(Debug)]
pub struct HackyResolver {
    modpath: CanonicalPath,
    scopes: Vec<Scope>,
    ffi_decls: Vec<Import>,
}

impl View for HackyResolver {
    type V = HackyResolverView;

    closed spec fn view(&self) -> HackyResolverView {
        HackyResolverView {
            modpath: self.modpath@,
            scopes: spec_scopes(self.scopes@),
            ffi_decls: spec_imports(self.ffi_decls@),
        }
    }
}

fn find_import<'a>(imports: &'a Vec<Import>, name: &Ident) -> (r: Option<&'a CanonicalPath>)
    ensures
        match r {
            Some(path) => spec_find_import(spec_imports(imports@), name@) == Some(path@),
            None => spec_find_import(spec_imports(imports@), name@) is None,
        },
{
    let ghost all = spec_imports(imports@);
    let mut i: usize = imports.len();
    assert(all.take(i as int) == all);
    while i > 0
        invariant
            i <= imports.len(),
            all == spec_imports(imports@),
            spec_find_import(all, name@) == spec_find_import(all.take(i as int), name@),
        decreases i,
    {
        i -= 1;
        assert(all.take(i + 1).drop_last() == all.take(i as int));
        assert(all.take(i + 1).last() == imports@[i as int]@);
        if imports[i].name == *name {
            return Some(&imports[i].path);
        }
    }
    None
}

impl HackyResolver {
    /// The resolver for a file that defines the module with the given
    /// path, with nothing open but the file itself.
    pub fn new(modpath: CanonicalPath) -> (r: HackyResolver)
        ensures
            r@ == spec_new_resolver(modpath@),
            r@.wf(),
            r@.top_level(),
    {
        let mut scopes: Vec<Scope> = Vec::new();
        let root = Scope { kind: ScopeKind::Mod, name: None, imports: Vec::new() };
        assert(root@.imports =~= Seq::empty());
        scopes.push(root);
        let r = HackyResolver { modpath, scopes, ffi_decls: Vec::new() };
        assert(r@.scopes =~= seq![spec_root_scope()]);
        assert(r@.ffi_decls =~= Seq::empty());
        r
    }

    /// Whether no module, impl block or function is open.
    pub fn is_top_level(&self) -> (r: bool)
        ensures
            r == self@.top_level(),
    {
        self.scopes.len() == 1
    }

    fn push_scope(&mut self, kind: ScopeKind, name: Option<Ident>)
        ensures
            final(self)@ == old(self)@.push(
                kind,
                match name {
                    Some(n) => Some(n@),
                    None => None,
                },
            ),
    {
        let scope = Scope { kind, name, imports: Vec::new() };
        assert(scope@.imports =~= Seq::empty());
        self.scopes.push(scope);
        assert(self@.scopes =~= old(self)@.scopes.push(scope@));
    }

    fn pop_scope(&mut self)
        ensures
            final(self)@ == old(self)@.pop(),
    {
        if self.scopes.len() > 1 {
            self.scopes.pop();
            assert(self@.scopes =~= old(self)@.scopes.drop_last());
        }
    }

    /// The path of the current module.
    pub fn current_module(&self) -> (r: CanonicalPath)
        ensures
            r@ == spec_module_path(self@.modpath, self@.scopes),
    {
        let ghost all = spec_scopes(self.scopes@);
        let mut path = self.modpath.clone();
        let mut i: usize = 0;
        assert(all.take(0) =~= Seq::empty());
        while i < self.scopes.len()
            invariant
                i <= self.scopes.len(),
                all == spec_scopes(self.scopes@),
                path@ == spec_module_path(self@.modpath, all.take(i as int)),
            decreases self.scopes.len() - i,
        {
            let scope = &self.scopes[i];
            proof {
                assert(all.take(i + 1).drop_last() == all.take(i as int));
                assert(all.take(i + 1).last() == scope@);
            }
            match &scope.name {
                Some(name) => {
                    let in_fn = match scope.kind {
                        ScopeKind::Fn => true,
                        _ => false,
                    };
                    if !in_fn {
                        path.push_ident(name);
                    }
                },
                None => {},
            }
            i += 1;
        }
        assert(all.take(i as int) == all);
        path
    }

    /// The path that a name is imported as, if an open scope imports it.
    pub fn lookup(&self, name: &Ident) -> (r: Option<&CanonicalPath>)
        ensures
            match r {
                Some(path) => spec_lookup(self@.scopes, name@) == Some(path@),
                None => spec_lookup(self@.scopes, name@) is None,
            },
    {
        let ghost all = spec_scopes(self.scopes@);
        let mut i: usize = self.scopes.len();
        assert(all.take(i as int) == all);
        while i > 0
            invariant
                i <= self.scopes.len(),
                all == spec_scopes(self.scopes@),
                spec_lookup(all, name@) == spec_lookup(all.take(i as int), name@),
            decreases i,
        {
            i -= 1;
            assert(all.take(i + 1).drop_last() == all.take(i as int));
            assert(all.take(i + 1).last() == self.scopes@[i as int]@);
            match find_import(&self.scopes[i].imports, name) {
                Some(path) => {
                    return Some(path);
                },
                None => {},
            }
        }
        None
    }
}

impl Resolve for HackyResolver {
    open spec fn open_scopes(&self) -> Seq<(ScopeKind, Option<Seq<char>>)> {
        self@.open_scopes()
    }

    open spec fn scope_state(&self) -> HackyResolverView {
        self@
    }

    /// States that the resolver is at top level, as it has to be before a
    /// file is scanned and after.
    fn assert_top_level_invariant(&self) {
    }

    /// Opens a module.
    fn push_mod(&mut self, mod_ident: &SpannedIdent)
        ensures
            final(self)@ == old(self)@.push(ScopeKind::Mod, Some(mod_ident@.name)),
    {
        self.push_scope(ScopeKind::Mod, Some(mod_ident.ident.clone()));
    }

    /// Closes the innermost scope, which a module opened.
    fn pop_mod(&mut self)
        ensures
            final(self)@ == old(self)@.pop(),
    {
        self.pop_scope();
    }

    /// Opens an impl block.
    fn push_impl(&mut self, impl_stmt: &ImplHeader)
        ensures
            final(self)@ == old(self)@.push(ScopeKind::Impl, spec_impl_name(*impl_stmt)),
    {
        let name = match &impl_stmt.trait_name {
            Some(name) => Some(name.clone()),
            None => match &impl_stmt.self_type {
                Some(name) => Some(name.clone()),
                None => None,
            },
        };
        self.push_scope(ScopeKind::Impl, name);
    }

    /// Closes the innermost scope, which an impl block opened.
    fn pop_impl(&mut self)
        ensures
            final(self)@ == old(self)@.pop(),
    {
        self.pop_scope();
    }

    /// Opens the body of a function.
    fn push_fn(&mut self, fn_ident: &SpannedIdent)
        ensures
            final(self)@ == old(self)@.push(ScopeKind::Fn, Some(fn_ident@.name)),
    {
        self.push_scope(ScopeKind::Fn, Some(fn_ident.ident.clone()));
    }

    /// Closes the innermost scope, which a function opened.
    fn pop_fn(&mut self)
        ensures
            final(self)@ == old(self)@.pop(),
    {
        self.pop_scope();
    }

    /// Takes note of the names that a `use` declaration imports into the
    /// innermost scope.
    fn scan_use(&mut self, use_stmt: &UseItem)
        ensures
            final(self)@ == old(self)@.import(spec_imports(use_stmt.imports@)),
            final(self)@.wf(),
    {
        let ghost added = spec_imports(use_stmt.imports@);
        let mut scope = match self.scopes.pop() {
            Some(scope) => scope,
            None => Scope { kind: ScopeKind::Mod, name: None, imports: Vec::new() },
        };
        let ghost rest = spec_scopes(self.scopes@);
        let ghost before = scope@;
        assert(rest =~= old(self)@.scopes.drop_last());
        assert(before == old(self)@.scopes.last());
        let mut i: usize = 0;
        assert(before.imports + added.take(0) =~= before.imports);
        while i < use_stmt.imports.len()
            invariant
                i <= use_stmt.imports.len(),
                added == spec_imports(use_stmt.imports@),
                scope@ == (ScopeView { imports: before.imports + added.take(i as int), ..before }),
            decreases use_stmt.imports.len() - i,
        {
            let ghost held = spec_imports(scope.imports@);
            scope.imports.push(use_stmt.imports[i].clone());
            assert(spec_imports(scope.imports@) =~= held.push(added[i as int]));
            i += 1;
            assert(before.imports + added.take(i as int) =~= (before.imports + added.take(
                i - 1,
            )).push(added[i - 1]));
        }
        assert(added.take(i as int) == added);
        self.scopes.push(scope);
        assert(self@.scopes =~= old(self)@.import(added).scopes);
    }

    /// The path of a declaration in the current module. The heuristic
    /// resolver always has an answer and gives no warning.
    fn resolve_def(&self, i: &SpannedIdent) -> (r: Resolution)
        ensures
            r@ == (ResolutionView { path: self@.resolve_def(i@.name), warning: None }),
    {
        let mut path = self.current_module();
        path.push_ident(&i.ident);
        Resolution { path, warning: None }
    }

    /// The path that an identifier resolves to.
    fn resolve_ident(&self, i: &SpannedIdent) -> (r: Resolution)
        ensures
            r@ == (ResolutionView { path: self@.resolve_ident(i@.name), warning: None }),
    {
        match self.lookup(&i.ident) {
            Some(path) => Resolution { path: path.clone(), warning: None },
            None => self.resolve_def(i),
        }
    }

    /// The path that a written path resolves to.
    fn resolve_path(&self, p: &PathExpr) -> (r: Resolution)
        ensures
            r@ == (ResolutionView { path: self@.resolve_path(p.names()), warning: None }),
    {
        let ghost names = p.names();
        let (mut path, start) = match self.lookup(&p.segments[0].ident) {
            Some(path) => (path.clone(), 1usize),
            None => {
                if p.segments.len() == 1 {
                    return self.resolve_def(&p.segments[0]);
                }
                (CanonicalPath::new(""), 0usize)
            },
        };
        proof {
            reveal_strlit("");
            assert(""@ =~= Seq::<char>::empty());
            assert(names[0] == p.segments@[0]@.name);
            assert(names.skip(start as int).take(0) =~= Seq::empty());
        }
        let ghost base = path@;
        let ghost rest = names.skip(start as int);
        let mut i: usize = start;
        while i < p.segments.len()
            invariant
                start <= i <= p.segments.len(),
                names == spec_names(p.segments@),
                rest == names.skip(start as int),
                path@ == spec_push_segments(base, rest.take(i - start)),
                start == 1 ==> spec_lookup(self@.scopes, names[0]) == Some(base),
                start != 1 ==> start == 0 && spec_lookup(self@.scopes, names[0]) is None
                    && names.len() > 1 && base == Seq::<char>::empty(),
            decreases p.segments.len() - i,
        {
            proof {
                assert(rest.take(i + 1 - start).drop_last() == rest.take(i - start));
                assert(rest.take(i + 1 - start).last() == p.segments@[i as int]@.name);
            }
            path.push_ident(&p.segments[i].ident);
            i += 1;
        }
        assert(rest.take(i - start) == rest);
        assert(names.skip(0) == names);
        Resolution { path, warning: None }
    }

    /// The foreign declaration that a path calls, if it calls one.
    fn resolve_ffi(&self, p: &PathExpr) -> (r: Option<CanonicalPath>)
        ensures
            match r {
                Some(path) => self@.resolve_ffi(p.names()) == Some(path@),
                None => self@.resolve_ffi(p.names()) is None,
            },
    {
        let last = &p.segments[p.segments.len() - 1];
        match find_import(&self.ffi_decls, &last.ident) {
            Some(path) => Some(path.clone()),
            None => None,
        }
    }

    /// Takes note of the declaration of a foreign function in the current
    /// module.
    fn scan_foreign_fn(&mut self, f: &SpannedIdent)
        ensures
            final(self)@ == old(self)@.declare_ffi(f@.name),
    {
        let path = self.resolve_def(f).path;
        let decl = Import { name: f.ident.clone(), path };
        self.ffi_decls.push(decl);
        assert(self@.ffi_decls =~= old(self)@.ffi_decls.push(decl@));
    }
}

/// Closing a scope undoes opening it: whatever was opened, the resolver is
/// as it was before.
pub proof fn lemma_pop_undoes_push(r: HackyResolverView, kind: ScopeKind, name: Option<Seq<char>>)
    requires
        r.wf(),
    ensures
        r.push(kind, name).pop() == r,
        r.push(kind, name).wf(),
        !r.push(kind, name).top_level(),
{
    assert(r.scopes.push(spec_new_scope(kind, name)).drop_last() =~= r.scopes);
}

} // verus!
