//! Name resolution as the scanner needs it.
//!
//! [`Resolve`] is what a resolver offers: it resolves identifiers and
//! paths to canonical paths, and is told which scopes the scanner enters
//! and leaves. [`FileResolver`] asks a precise index of the whole
//! workspace first, and falls back on the heuristic resolver of the file
//! where the index has no answer.

use vstd::prelude::*;
use vstd::string::*;

use crate::codec::decode_lines;
use crate::codec::spec_decode_lines;
use crate::effect::spec_src_loc;
use crate::effect::spec_src_loc_text;
use crate::effect::SrcLoc;
use crate::effect::SrcLocView;
use crate::hacky_resolver::spec_new_resolver;
use crate::hacky_resolver::HackyResolver;
use crate::hacky_resolver::HackyResolverView;
use crate::hacky_resolver::ScopeKind;
use crate::ident::CanonicalPath;
use crate::ident::Ident;
use crate::span::FilePath;
use crate::span::FilePathView;
use crate::span::Span;
use crate::syntax::spec_impl_name;
use crate::syntax::spec_imports;
use crate::syntax::ImplHeader;
use crate::syntax::PathExpr;
use crate::syntax::SpannedIdent;
use crate::syntax::SpannedIdentView;
use crate::syntax::UseItem;
use crate::text::parse_decimal;
use crate::text::spec_parse_decimal;
use crate::text::spec_strings;

verus! {

/// The open scopes with the innermost one closed. The scope of the file
/// stays open.
pub open spec fn spec_pop_scope(scopes: Seq<(ScopeKind, Option<Seq<char>>)>) -> Seq<
    (ScopeKind, Option<Seq<char>>),
> {
    if scopes.len() > 1 {
        scopes.drop_last()
    } else {
        scopes
    }
}

/// What a resolver offers to the scanner.
pub trait Resolve: Sized {
    /// The kinds and names of the scopes that are open, outermost first.
    /// The first one is the scope of the file.
    spec fn open_scopes(&self) -> Seq<(ScopeKind, Option<Seq<char>>)>;

    /// What the resolver keeps of the file as it is told of it: the open
    /// scopes with the names imported in each, and the foreign functions
    /// that were declared.
    spec fn scope_state(&self) -> HackyResolverView;

    /// States that no scope is open but that of the file, as it has to be
    /// before a file is scanned and after.
    fn assert_top_level_invariant(&self)
        requires
            self.open_scopes().len() == 1,
    ;

    /// The path that an identifier resolves to, with a warning where it is
    /// a guess.
    fn resolve_ident(&self, i: &SpannedIdent) -> Resolution;

    /// The path that a written path resolves to, with a warning where it
    /// is a guess.
    fn resolve_path(&self, p: &PathExpr) -> Resolution
        requires
            p.segments@.len() > 0,
    ;

    /// The path of a declaration in the current module, with a warning
    /// where it is a guess.
    fn resolve_def(&self, i: &SpannedIdent) -> Resolution;

    /// The foreign declaration that a path calls, if it calls one.
    fn resolve_ffi(&self, p: &PathExpr) -> Option<CanonicalPath>
        requires
            p.segments@.len() > 0,
    ;

    /// Opens a module.
    fn push_mod(&mut self, mod_ident: &SpannedIdent)
        ensures
            final(self).open_scopes() == old(self).open_scopes().push(
                (ScopeKind::Mod, Some(mod_ident@.name)),
            ),
            final(self).scope_state() == old(self).scope_state().push(
                ScopeKind::Mod,
                Some(mod_ident@.name),
            ),
    ;

    /// Closes the innermost scope, which a module opened.
    fn pop_mod(&mut self)
        ensures
            final(self).open_scopes() == spec_pop_scope(old(self).open_scopes()),
            final(self).scope_state() == old(self).scope_state().pop(),
    ;

    /// Opens an impl block.
    fn push_impl(&mut self, impl_stmt: &ImplHeader)
        ensures
            final(self).open_scopes() == old(self).open_scopes().push(
                (ScopeKind::Impl, spec_impl_name(*impl_stmt)),
            ),
            final(self).scope_state() == old(self).scope_state().push(
                ScopeKind::Impl,
                spec_impl_name(*impl_stmt),
            ),
    ;

    /// Closes the innermost scope, which an impl block opened.
    fn pop_impl(&mut self)
        ensures
            final(self).open_scopes() == spec_pop_scope(old(self).open_scopes()),
            final(self).scope_state() == old(self).scope_state().pop(),
    ;

    /// Opens the body of a function.
    fn push_fn(&mut self, fn_ident: &SpannedIdent)
        ensures
            final(self).open_scopes() == old(self).open_scopes().push(
                (ScopeKind::Fn, Some(fn_ident@.name)),
            ),
            final(self).scope_state() == old(self).scope_state().push(
                ScopeKind::Fn,
                Some(fn_ident@.name),
            ),
    ;

    /// Closes the innermost scope, which a function opened.
    fn pop_fn(&mut self)
        ensures
            final(self).open_scopes() == spec_pop_scope(old(self).open_scopes()),
            final(self).scope_state() == old(self).scope_state().pop(),
    ;

    /// Takes note of the names that a `use` declaration imports.
    fn scan_use(&mut self, use_stmt: &UseItem)
        requires
            old(self).open_scopes().len() >= 1,
        ensures
            final(self).open_scopes() == old(self).open_scopes(),
            final(self).scope_state() == old(self).scope_state().import(
                spec_imports(use_stmt.imports@),
            ),
    ;

    /// Takes note of the declaration of a foreign function.
    fn scan_foreign_fn(&mut self, f: &SpannedIdent)
        ensures
            final(self).open_scopes() == old(self).open_scopes(),
            final(self).scope_state() == old(self).scope_state().declare_ffi(f@.name),
    ;
}

/// Why the precise resolver has no answer.
#[derive(Clone, Copy, Debug, PartialEq, Eq, Structural)]
pub enum ResolveError {
    /// The index holds nothing for the identifier at its place, as for
    /// code that a macro made or a file that was not indexed.
    NotIndexed,
}

impl ResolveError {
    /// The message of the error.
    pub fn to_string(&self) -> (r: String)
        ensures
            r@ == "no entry in the index"@,
    {
        String::from_str("no entry in the index")
    }
}

/// One entry of the index: the identifier at a place, and the path that it
/// resolves to.
#[derive(Debug)]
pub struct IndexEntry {
    pub loc: SrcLoc,
    pub ident: Ident,
    pub path: CanonicalPath,
}

/// What an [`IndexEntry`] holds.
pub struct IndexEntryView {
    pub loc: SrcLocView,
    pub name: Seq<char>,
    pub path: Seq<char>,
}

impl View for IndexEntry {
    type V = IndexEntryView;

    open spec fn view(&self) -> IndexEntryView {
        IndexEntryView { loc: self.loc@, name: self.ident@, path: self.path@ }
    }
}

/// The views of a sequence of entries.
pub open spec fn spec_index(entries: Seq<IndexEntry>) -> Seq<IndexEntryView> {
    entries.map_values(|e: IndexEntry| e@)
}

/// The path that the index gives for an identifier at a place: that of the
/// first entry for them.
pub open spec fn spec_index_lookup(
    index: Seq<IndexEntryView>,
    loc: SrcLocView,
    name: Seq<char>,
) -> Option<Seq<char>>
    decreases index.len(),
{
    if index.len() == 0 {
        None
    } else if index[0].loc == loc && index[0].name == name {
        Some(index[0].path)
    } else {
        spec_index_lookup(index.drop_first(), loc, name)
    }
}

/// The number that a line of an index holds, if it holds one that is not
/// too large.
pub open spec fn spec_number(line: Seq<char>) -> Option<nat> {
    match spec_parse_decimal(line) {
        Some(n) => if n <= usize::MAX {
            Some(n)
        } else {
            None
        },
        None => None,
    }
}

/// The entry that eight lines hold: directory, file, the four numbers of
/// the region, the identifier, and the path that it resolves to.
pub open spec fn spec_entry_of_lines(lines: Seq<Seq<char>>) -> Option<IndexEntryView> {
    match (
        spec_number(lines[2]),
        spec_number(lines[3]),
        spec_number(lines[4]),
        spec_number(lines[5]),
    ) {
        (Some(start_line), Some(start_col), Some(end_line), Some(end_col)) => Some(
            IndexEntryView {
                loc: SrcLocView {
                    dir: lines[0],
                    file: lines[1],
                    start_line,
                    start_col,
                    end_line,
                    end_col,
                },
                name: lines[6],
                path: lines[7],
            },
        ),
        _ => None,
    }
}

/// The entries that lines hold, eight lines to an entry; none where lines
/// are left over or a number is none.
pub open spec fn spec_index_of_lines(lines: Seq<Seq<char>>) -> Option<Seq<IndexEntryView>>
    decreases lines.len(),
{
    if lines.len() == 0 {
        Some(Seq::empty())
    } else if lines.len() < 8 {
        None
    } else {
        match spec_entry_of_lines(lines.take(8)) {
            None => None,
            Some(entry) => match spec_index_of_lines(lines.skip(8)) {
                None => None,
                Some(rest) => Some(seq![entry] + rest),
            },
        }
    }
}

/// The index that a text holds, if it is the text of one.
pub open spec fn spec_index_from_text(text: Seq<char>) -> Option<Seq<IndexEntryView>> {
    match spec_decode_lines(text) {
        Some(lines) => spec_index_of_lines(lines),
        None => None,
    }
}

/// The precise resolver: an index of the whole workspace, made once for a
/// scan, that knows what the identifier at a place resolves to.
#[derive(Debug)]
pub struct Resolver {
    entries: Vec<IndexEntry>,
}

impl View for Resolver {
    type V = Seq<IndexEntryView>;

    closed spec fn view(&self) -> Seq<IndexEntryView> {
        spec_index(self.entries@)
    }
}

impl Resolver {
    /// The index with the given entries.
    pub fn new(entries: Vec<IndexEntry>) -> (r: Resolver)
        ensures
            r@ == spec_index(entries@),
    {
        Resolver { entries }
    }

    /// The index that a text holds, as an indexer wrote it, if it is the
    /// text of one.
    pub fn from_text(text: &str) -> (r: Option<Resolver>)
        ensures
            match r {
                Some(index) => spec_index_from_text(text@) == Some(index@),
                None => spec_index_from_text(text@) is None,
            },
    {
        let lines = match decode_lines(text) {
            Some(lines) => lines,
            None => {
                return None;
            },
        };
        let ghost all = spec_strings(lines@);
        let mut entries: Vec<IndexEntry> = Vec::new();
        let mut at: usize = 0;
        proof {
            assert(all.skip(0) == all);
            assert(spec_index(entries@) =~= Seq::empty());
            if spec_index_of_lines(all) is Some {
                assert(Seq::<IndexEntryView>::empty() + spec_index_of_lines(all)->0
                    =~= spec_index_of_lines(all)->0);
            }
        }
        while lines.len() - at >= 8
            invariant
                at <= lines.len(),
                all == spec_strings(lines@),
                spec_decode_lines(text@) == Some(all),
                spec_index_of_lines(all) == match spec_index_of_lines(all.skip(at as int)) {
                    Some(rest) => Some(spec_index(entries@) + rest),
                    None => None,
                },
            decreases lines.len() - at,
        {
            let ghost rest = all.skip(at as int);
            let ghost head = rest.take(8);
            proof {
                assert(rest.skip(8) == all.skip(at + 8));
                assert(head[0] == lines@[at + 0]@);
                assert(head[1] == lines@[at + 1]@);
                assert(head[2] == lines@[at + 2]@);
                assert(head[3] == lines@[at + 3]@);
                assert(head[4] == lines@[at + 4]@);
                assert(head[5] == lines@[at + 5]@);
                assert(head[6] == lines@[at + 6]@);
                assert(head[7] == lines@[at + 7]@);
            }
            let start_line = match parse_decimal(lines[at + 2].as_str()) {
                Some(n) => n,
                None => {
                    assert(spec_number(head[2]) is None);
                    return None;
                },
            };
            let start_col = match parse_decimal(lines[at + 3].as_str()) {
                Some(n) => n,
                None => {
                    assert(spec_number(head[3]) is None);
                    return None;
                },
            };
            let end_line = match parse_decimal(lines[at + 4].as_str()) {
                Some(n) => n,
                None => {
                    assert(spec_number(head[4]) is None);
                    return None;
                },
            };
            let end_col = match parse_decimal(lines[at + 5].as_str()) {
                Some(n) => n,
                None => {
                    assert(spec_number(head[5]) is None);
                    return None;
                },
            };
            let file = FilePath::new(lines[at].as_str(), lines[at + 1].as_str());
            let entry = IndexEntry {
                loc: SrcLoc::new(&file, start_line, start_col, end_line, end_col),
                ident: Ident::new(lines[at + 6].as_str()),
                path: CanonicalPath::new(lines[at + 7].as_str()),
            };
            proof {
                assert(spec_entry_of_lines(head) == Some(entry@));
                let done = spec_index(entries@);
                if spec_index_of_lines(rest.skip(8)) is Some {
                    let tail = spec_index_of_lines(rest.skip(8))->0;
                    assert(done.push(entry@) + tail =~= done + (seq![entry@] + tail));
                }
            }
            let ghost done = spec_index(entries@);
            entries.push(entry);
            assert(spec_index(entries@) =~= done.push(entry@));
            at += 8;
        }
        if at < lines.len() {
            return None;
        }
        proof {
            assert(all.skip(at as int).len() == 0);
            assert(spec_index(entries@) + Seq::<IndexEntryView>::empty() =~= spec_index(entries@));
        }
        Some(Resolver { entries })
    }

    /// The path that the identifier at a place resolves to, where the
    /// index knows it.
    pub fn resolve_ident(&self, s: SrcLoc, i: Ident) -> (r: Result<CanonicalPath, ResolveError>)
        ensures
            match r {
                Ok(path) => spec_index_lookup(self@, s@, i@) == Some(path@),
                Err(e) => spec_index_lookup(self@, s@, i@) is None && e == ResolveError::NotIndexed,
            },
    {
        let ghost all = self@;
        let mut k: usize = 0;
        assert(all.skip(0) == all);
        while k < self.entries.len()
            invariant
                k <= self.entries.len(),
                all == spec_index(self.entries@),
                spec_index_lookup(all, s@, i@) == spec_index_lookup(all.skip(k as int), s@, i@),
            decreases self.entries.len() - k,
        {
            let entry = &self.entries[k];
            assert(all.skip(k as int).drop_first() == all.skip(k + 1));
            assert(all.skip(k as int)[0] == entry@);
            if entry.loc == s && entry.ident == i {
                return Ok(entry.path.clone());
            }
            k += 1;
        }
        assert(all.skip(k as int).len() == 0);
        Err(ResolveError::NotIndexed)
    }
}

/// The note that the precise resolver failed on an identifier and the
/// fallback was used.
#[derive(Debug)]
pub struct ResolveWarning {
    pub ident: Ident,
    pub loc: SrcLoc,
    pub cause: ResolveError,
}

/// What a [`ResolveWarning`] holds.
pub struct ResolveWarningView {
    pub name: Seq<char>,
    pub loc: SrcLocView,
    pub cause: ResolveError,
}

impl View for ResolveWarning {
    type V = ResolveWarningView;

    open spec fn view(&self) -> ResolveWarningView {
        ResolveWarningView { name: self.ident@, loc: self.loc@, cause: self.cause }
    }
}

/// The views of a sequence of warnings.
pub open spec fn spec_warning_views(warnings: Seq<ResolveWarning>) -> Seq<ResolveWarningView> {
    warnings.map_values(|w: ResolveWarning| w@)
}

/// What the text of a warning is: the identifier, its place, and the
/// cause.
pub open spec fn spec_warning_text(name: Seq<char>, loc: SrcLocView) -> Seq<char> {
    "Resolution failed (using fallback) for: "@ + name + " ("@ + spec_src_loc_text(loc) + ") ("@
        + "no entry in the index"@ + ")"@
}

impl ResolveWarning {
    /// The text of the warning.
    pub fn to_string(&self) -> (r: String)
        ensures
            r@ == spec_warning_text(self.ident@, self.loc@),
    {
        let mut r = String::from_str("Resolution failed (using fallback) for: ");
        r.append(self.ident.as_str());
        r.append(" (");
        r.append(self.loc.to_string().as_str());
        r.append(") (");
        r.append(self.cause.to_string().as_str());
        r.append(")");
        r
    }
}

/// A resolved path, with the warning that goes with it where the fallback
/// gave it.
#[derive(Debug)]
pub struct Resolution {
    pub path: CanonicalPath,
    pub warning: Option<ResolveWarning>,
}

/// What a [`Resolution`] holds.
pub struct ResolutionView {
    pub path: Seq<char>,
    pub warning: Option<ResolveWarningView>,
}

impl View for Resolution {
    type V = ResolutionView;

    open spec fn view(&self) -> ResolutionView {
        ResolutionView {
            path: self.path@,
            warning: match self.warning {
                Some(w) => Some(w@),
                None => None,
            },
        }
    }
}

/// The place at which the index is asked for an identifier: that of the
/// identifier, its start one column further to the right.
pub open spec fn spec_lookup_site(filepath: FilePathView, span: Span) -> SrcLocView {
    let loc = spec_src_loc(filepath, span);
    if loc.start_col < usize::MAX {
        SrcLocView { start_col: loc.start_col + 1, ..loc }
    } else {
        loc
    }
}

/// What a [`FileResolver`] holds.
pub struct FileResolverView {
    pub filepath: FilePathView,
    pub index: Seq<IndexEntryView>,
    pub backup: HackyResolverView,
}

impl FileResolverView {
    /// What the index gives for an identifier of the file.
    pub open spec fn precise(self, i: SpannedIdentView) -> Option<Seq<char>> {
        spec_index_lookup(self.index, spec_lookup_site(self.filepath, i.span), i.name)
    }

    /// The warning that goes with the resolution of an identifier: none
    /// where the index has an answer, one that names the identifier and
    /// its place where the fallback is used.
    pub open spec fn warning(self, i: SpannedIdentView) -> Option<ResolveWarningView> {
        match self.precise(i) {
            Some(_) => None,
            None => Some(
                ResolveWarningView {
                    name: i.name,
                    loc: spec_src_loc(self.filepath, i.span),
                    cause: ResolveError::NotIndexed,
                },
            ),
        }
    }

    /// The path that an identifier resolves to: what the index gives for
    /// it, else what the heuristic resolver gives.
    pub open spec fn resolve_ident(self, i: SpannedIdentView) -> Seq<char> {
        match self.precise(i) {
            Some(path) => path,
            None => self.backup.resolve_ident(i.name),
        }
    }

    /// The path that a written path resolves to: what the index gives for
    /// its last segment, else what the heuristic resolver gives.
    pub open spec fn resolve_path(self, p: PathExpr) -> Seq<char> {
        match self.precise(p.segments@.last()@) {
            Some(path) => path,
            None => self.backup.resolve_path(p.names()),
        }
    }

    /// The path of a declaration: what the index gives for its name, else
    /// what the heuristic resolver gives.
    pub open spec fn resolve_def(self, i: SpannedIdentView) -> Seq<char> {
        match self.precise(i) {
            Some(path) => path,
            None => self.backup.resolve_def(i.name),
        }
    }

    /// The same resolver with another state of the heuristic resolver.
    pub open spec fn with_backup(self, backup: HackyResolverView) -> FileResolverView {
        FileResolverView { backup, ..self }
    }
}

/// The resolver of one file: the precise resolver, with the heuristic one
/// behind it.
#[derive(Debug)]
pub struct FileResolver<'a> {
    filepath: &'a FilePath,
    resolver: &'a Resolver,
    backup: HackyResolver,
}

impl<'a> View for FileResolver<'a> {
    type V = FileResolverView;

    closed spec fn view(&self) -> FileResolverView {
        FileResolverView { filepath: self.filepath@, index: self.resolver@, backup: self.backup@ }
    }
}

impl<'a> FileResolver<'a> {
    /// The resolver for a file that defines the module with the given
    /// path, over the index of the workspace.
    pub fn new(resolver: &'a Resolver, filepath: &'a FilePath, modpath: CanonicalPath) -> (r: Self)
        ensures
            r@.filepath == filepath@,
            r@.index == resolver@,
            r@.backup == spec_new_resolver(modpath@),
    {
        let backup = HackyResolver::new(modpath);
        FileResolver { filepath, resolver, backup }
    }

    /// The file that the resolver is for.
    pub fn filepath(&self) -> (r: &'a FilePath)
        ensures
            r@ == self@.filepath,
    {
        self.filepath
    }

    /// The heuristic resolver behind the precise one.
    pub fn backup(&self) -> (r: &HackyResolver)
        ensures
            r@ == self@.backup,
    {
        &self.backup
    }

    /// Asks the index for an identifier of the file.
    pub fn resolve_core(&self, i: &SpannedIdent) -> (r: Result<CanonicalPath, ResolveError>)
        ensures
            match r {
                Ok(path) => self@.precise(i@) == Some(path@),
                Err(e) => self@.precise(i@) is None && e == ResolveError::NotIndexed,
            },
    {
        let mut s = SrcLoc::from_span(self.filepath, &i.span);
        if s.start_col() < usize::MAX {
            s.add1();
        }
        self.resolver.resolve_ident(s, i.ident.clone())
    }

    /// Resolves an identifier of the file by the index, and by the given
    /// fallback where the index has no answer. The fallback is used, and
    /// the warning made, only then.
    pub fn resolve_or_else<F>(&self, i: &SpannedIdent, fallback: F) -> (r: Resolution) where
        F: FnOnce() -> CanonicalPath,

        requires
            fallback.requires(()),
        ensures
            r@.warning == self@.warning(i@),
            match self@.precise(i@) {
                Some(path) => r@.path == path,
                None => fallback.ensures((), r.path),
            },
    {
        match self.resolve_core(i) {
            Ok(res) => Resolution { path: res, warning: None },
            Err(err) => {
                let s = SrcLoc::from_span(self.filepath, &i.span);
                let warning = ResolveWarning { ident: i.ident.clone(), loc: s, cause: err };
                Resolution { path: fallback(), warning: Some(warning) }
            },
        }
    }
}

impl<'a> Resolve for FileResolver<'a> {
    open spec fn open_scopes(&self) -> Seq<(ScopeKind, Option<Seq<char>>)> {
        self@.backup.open_scopes()
    }

    open spec fn scope_state(&self) -> HackyResolverView {
        self@.backup
    }

    fn assert_top_level_invariant(&self) {
        self.backup.assert_top_level_invariant();
    }

    /// Resolves an identifier by the index, and by the heuristic resolver
    /// where the index has no answer; the warning says that it had none.
    fn resolve_ident(&self, i: &SpannedIdent) -> (r: Resolution)
        ensures
            r@ == (ResolutionView { path: self@.resolve_ident(i@), warning: self@.warning(i@) }),
    {
        let backup = &self.backup;
        let fallback = || -> (r: CanonicalPath)
            ensures
                r@ == backup@.resolve_ident(i@.name),
            { backup.resolve_ident(i).path };
        self.resolve_or_else(i, fallback)
    }

    /// Resolves a path by what the index gives for its last segment, and
    /// by the heuristic resolver, on the whole path, where the index has
    /// no answer; the warning says that it had none.
    fn resolve_path(&self, p: &PathExpr) -> (r: Resolution)
        ensures
            r@ == (ResolutionView {
                path: self@.resolve_path(*p),
                warning: self@.warning(p.segments@.last()@),
            }),
    {
        let i = &p.segments[p.segments.len() - 1];
        let backup = &self.backup;
        let fallback = || -> (r: CanonicalPath)
            ensures
                r@ == backup@.resolve_path(p.names()),
            { backup.resolve_path(p).path };
        self.resolve_or_else(i, fallback)
    }

    /// Resolves the name of a declaration by the index, and by the
    /// heuristic resolver where the index has no answer; the warning says
    /// that it had none.
    fn resolve_def(&self, i: &SpannedIdent) -> (r: Resolution)
        ensures
            r@ == (ResolutionView { path: self@.resolve_def(i@), warning: self@.warning(i@) }),
    {
        let backup = &self.backup;
        let fallback = || -> (r: CanonicalPath)
            ensures
                r@ == backup@.resolve_def(i@.name),
            { backup.resolve_def(i).path };
        self.resolve_or_else(i, fallback)
    }

    fn resolve_ffi(&self, p: &PathExpr) -> (r: Option<CanonicalPath>)
        ensures
            match r {
                Some(path) => self@.backup.resolve_ffi(p.names()) == Some(path@),
                None => self@.backup.resolve_ffi(p.names()) is None,
            },
    {
        self.backup.resolve_ffi(p)
    }

    fn push_mod(&mut self, mod_ident: &SpannedIdent)
        ensures
            final(self)@ == (FileResolverView {
                backup: old(self)@.backup.push(ScopeKind::Mod, Some(mod_ident@.name)),
                ..old(self)@
            }),
    {
        self.backup.push_mod(mod_ident);
    }

    fn pop_mod(&mut self)
        ensures
            final(self)@ == (FileResolverView { backup: old(self)@.backup.pop(), ..old(self)@ }),
    {
        self.backup.pop_mod();
    }

    fn push_impl(&mut self, impl_stmt: &ImplHeader)
        ensures
            final(self)@ == (FileResolverView {
                backup: old(self)@.backup.push(ScopeKind::Impl, spec_impl_name(*impl_stmt)),
                ..old(self)@
            }),
    {
        self.backup.push_impl(impl_stmt);
    }

    fn pop_impl(&mut self)
        ensures
            final(self)@ == (FileResolverView { backup: old(self)@.backup.pop(), ..old(self)@ }),
    {
        self.backup.pop_impl();
    }

    fn push_fn(&mut self, fn_ident: &SpannedIdent)
        ensures
            final(self)@ == (FileResolverView {
                backup: old(self)@.backup.push(ScopeKind::Fn, Some(fn_ident@.name)),
                ..old(self)@
            }),
    {
        self.backup.push_fn(fn_ident);
    }

    fn pop_fn(&mut self)
        ensures
            final(self)@ == (FileResolverView { backup: old(self)@.backup.pop(), ..old(self)@ }),
    {
        self.backup.pop_fn();
    }

    fn scan_use(&mut self, use_stmt: &UseItem)
        ensures
            final(self)@ == (FileResolverView {
                backup: old(self)@.backup.import(spec_imports(use_stmt.imports@)),
                ..old(self)@
            }),
    {
        self.backup.scan_use(use_stmt);
    }

    fn scan_foreign_fn(&mut self, f: &SpannedIdent)
        ensures
            final(self)@ == (FileResolverView {
                backup: old(self)@.backup.declare_ffi(f@.name),
                ..old(self)@
            }),
    {
        self.backup.scan_foreign_fn(f)
    }
}

} // verus!
