//! What a resolver reads of the syntax of a source file: identifiers with
//! their place, paths, imports, and the headers of impl blocks.

use vstd::prelude::*;

use crate::effect::DeclaredVisibility;
use crate::effect::EffectView;
use vstd::string::*;

use crate::ident::spec_join;
use crate::ident::spec_separator;
use crate::ident::CanonicalPath;
use crate::ident::Ident;
use crate::span::Span;

verus! {

/// An identifier as it occurs in a file.
#[derive(Debug, PartialEq, Eq, Hash)]
pub struct SpannedIdent {
    pub ident: Ident,
    pub span: Span,
}

/// What a [`SpannedIdent`] holds.
pub struct SpannedIdentView {
    pub name: Seq<char>,
    pub span: Span,
}

impl View for SpannedIdent {
    type V = SpannedIdentView;

    open spec fn view(&self) -> SpannedIdentView {
        SpannedIdentView { name: self.ident@, span: self.span }
    }
}

impl SpannedIdent {
    pub fn new(name: &str, span: Span) -> (r: SpannedIdent)
        ensures
            r@ == (SpannedIdentView { name: name@, span }),
    {
        SpannedIdent { ident: Ident::new(name), span }
    }
}

impl Clone for SpannedIdent {
    fn clone(&self) -> (r: Self)
        ensures
            r@ == self@,
    {
        SpannedIdent { ident: self.ident.clone(), span: self.span }
    }
}

/// A path as it occurs in a file: one identifier or several, outermost
/// first.
#[derive(Debug, PartialEq, Eq, Hash)]
pub struct PathExpr {
    pub segments: Vec<SpannedIdent>,
}

/// The names of a sequence of identifiers.
pub open spec fn spec_names(segments: Seq<SpannedIdent>) -> Seq<Seq<char>> {
    segments.map_values(|s: SpannedIdent| s@.name)
}

impl PathExpr {
    /// The names of the segments of the path.
    pub open spec fn names(&self) -> Seq<Seq<char>> {
        spec_names(self.segments@)
    }

    pub fn new(segments: Vec<SpannedIdent>) -> (r: PathExpr)
        ensures
            r.segments == segments,
    {
        PathExpr { segments }
    }
}

/// A name that a `use` declaration brings into scope, with the path that
/// it stands for.
#[derive(Debug, PartialEq, Eq, Hash)]
pub struct Import {
    pub name: Ident,
    pub path: CanonicalPath,
}

/// What an [`Import`] holds.
pub struct ImportView {
    pub name: Seq<char>,
    pub path: Seq<char>,
}

impl View for Import {
    type V = ImportView;

    open spec fn view(&self) -> ImportView {
        ImportView { name: self.name@, path: self.path@ }
    }
}

impl Import {
    pub fn new(name: &str, path: &str) -> (r: Import)
        ensures
            r@ == (ImportView { name: name@, path: path@ }),
    {
        Import { name: Ident::new(name), path: CanonicalPath::new(path) }
    }
}

impl Clone for Import {
    fn clone(&self) -> (r: Self)
        ensures
            r@ == self@,
    {
        Import { name: self.name.clone(), path: self.path.clone() }
    }
}

/// The views of a sequence of imports.
pub open spec fn spec_imports(imports: Seq<Import>) -> Seq<ImportView> {
    imports.map_values(|i: Import| i@)
}

/// A `use` declaration: the names it brings into scope. Glob imports bring
/// no name that is known here, and are left out.
#[derive(Debug, PartialEq, Eq, Hash)]
pub struct UseItem {
    pub imports: Vec<Import>,
}

/// The tree of a `use` declaration, as it is written.
#[derive(Debug, PartialEq, Eq, Hash)]
pub enum UseTree {
    /// `ident::tree`
    Path { ident: Ident, tree: Box<UseTree> },
    /// `ident`
    Name(Ident),
    /// `ident as rename`
    Rename { ident: Ident, rename: Ident },
    /// `*`
    Glob,
    /// `{tree, tree, ...}`
    Group(Vec<UseTree>),
}

/// The texts of a sequence of identifiers.
pub open spec fn spec_idents(idents: Seq<Ident>) -> Seq<Seq<char>> {
    idents.map_values(|i: Ident| i@)
}

/// The names that a use tree brings into scope below a prefix. A name
/// stands for the prefix joined with it; a renamed one is known by its new
/// name. A glob brings no name that is known here. A group brings what
/// each of its trees brings, in their order.
pub open spec fn spec_imports_of(prefix: Seq<Seq<char>>, tree: UseTree) -> Seq<ImportView>
    decreases tree, 0nat,
{
    match tree {
        UseTree::Path { ident, tree } => spec_imports_of(prefix.push(ident@), *tree),
        UseTree::Name(ident) => seq![
            ImportView { name: ident@, path: spec_join(prefix.push(ident@)) },
        ],
        UseTree::Rename { ident, rename } => seq![
            ImportView { name: rename@, path: spec_join(prefix.push(ident@)) },
        ],
        UseTree::Glob => Seq::empty(),
        UseTree::Group(trees) => spec_imports_of_all(prefix, trees@),
    }
}

/// The names that use trees bring into scope below a prefix, one tree
/// after the other.
pub open spec fn spec_imports_of_all(prefix: Seq<Seq<char>>, trees: Seq<UseTree>) -> Seq<
    ImportView,
>
    decreases trees, 1nat,
{
    if trees.len() == 0 {
        Seq::empty()
    } else {
        spec_imports_of_all(prefix, trees.drop_last()) + spec_imports_of(prefix, trees.last())
    }
}

fn extended(prefix: &Vec<Ident>, ident: &Ident) -> (r: Vec<Ident>)
    ensures
        spec_idents(r@) == spec_idents(prefix@).push(ident@),
{
    let mut r: Vec<Ident> = Vec::new();
    let mut i: usize = 0;
    while i < prefix.len()
        invariant
            i <= prefix.len(),
            r@.len() == i,
            forall|j: int| 0 <= j < i ==> r@[j]@ == prefix@[j]@,
        decreases prefix.len() - i,
    {
        r.push(prefix[i].clone());
        i += 1;
    }
    r.push(ident.clone());
    assert(spec_idents(r@) =~= spec_idents(prefix@).push(ident@));
    r
}

/// The path that segments make, joined by `::`.
pub fn join_segments(segments: &Vec<Ident>) -> (r: CanonicalPath)
    ensures
        r@ == spec_join(spec_idents(segments@)),
{
    let ghost all = spec_idents(segments@);
    if segments.len() == 0 {
        proof {
            reveal_strlit("");
            assert(""@ =~= Seq::<char>::empty());
        }
        return CanonicalPath::new("");
    }
    let mut text = segments[0].as_str().to_owned();
    let mut i: usize = 1;
    assert(all.take(1) =~= seq![all[0]]);
    while i < segments.len()
        invariant
            1 <= i <= segments.len(),
            all == spec_idents(segments@),
            text@ == spec_join(all.take(i as int)),
        decreases segments.len() - i,
    {
        proof {
            reveal_strlit("::");
            assert("::"@ =~= spec_separator());
            assert(all.take(i + 1).drop_last() == all.take(i as int));
            assert(all.take(i + 1).last() == segments@[i as int]@);
        }
        text.append("::");
        text.append(segments[i].as_str());
        i += 1;
    }
    assert(all.take(i as int) == all);
    CanonicalPath::new_owned(text)
}

/// The names that a use tree brings into scope below a prefix.
pub fn imports_of(prefix: &Vec<Ident>, tree: &UseTree) -> (r: Vec<Import>)
    ensures
        spec_imports(r@) == spec_imports_of(spec_idents(prefix@), *tree),
    decreases tree, 0nat,
{
    match tree {
        UseTree::Path { ident, tree } => {
            let longer = extended(prefix, ident);
            imports_of(&longer, &**tree)
        },
        UseTree::Name(ident) => {
            let full = extended(prefix, ident);
            let import = Import { name: ident.clone(), path: join_segments(&full) };
            let mut r: Vec<Import> = Vec::new();
            r.push(import);
            assert(spec_imports(r@) =~= seq![import@]);
            r
        },
        UseTree::Rename { ident, rename } => {
            let full = extended(prefix, ident);
            let import = Import { name: rename.clone(), path: join_segments(&full) };
            let mut r: Vec<Import> = Vec::new();
            r.push(import);
            assert(spec_imports(r@) =~= seq![import@]);
            r
        },
        UseTree::Glob => {
            let r: Vec<Import> = Vec::new();
            assert(spec_imports(r@) =~= Seq::empty());
            r
        },
        UseTree::Group(trees) => imports_of_all(prefix, trees),
    }
}

/// The names that use trees bring into scope below a prefix, one tree
/// after the other.
pub fn imports_of_all(prefix: &Vec<Ident>, trees: &Vec<UseTree>) -> (r: Vec<Import>)
    ensures
        spec_imports(r@) == spec_imports_of_all(spec_idents(prefix@), trees@),
    decreases trees, 1nat,
{
    let mut r: Vec<Import> = Vec::new();
    let mut i: usize = 0;
    assert(trees@.take(0) =~= Seq::empty());
    assert(spec_imports(r@) =~= Seq::empty());
    while i < trees.len()
        invariant
            i <= trees.len(),
            spec_imports(r@) == spec_imports_of_all(spec_idents(prefix@), trees@.take(i as int)),
        decreases trees.len() - i,
    {
        proof {
            assert(trees@.take(i + 1).drop_last() == trees@.take(i as int));
            assert(trees@.take(i + 1).last() == trees@[i as int]);
        }
        let mut more = imports_of(prefix, &trees[i]);
        let ghost before = spec_imports(r@);
        let ghost added = spec_imports(more@);
        r.append(&mut more);
        assert(spec_imports(r@) =~= before + added);
        i += 1;
    }
    assert(trees@.take(i as int) == trees@);
    r
}

impl UseItem {
    /// The `use` declaration with the given tree: the names that the tree
    /// brings into scope.
    pub fn from_tree(tree: &UseTree) -> (r: UseItem)
        ensures
            spec_imports(r.imports@) == spec_imports_of(Seq::empty(), *tree),
    {
        let prefix: Vec<Ident> = Vec::new();
        assert(spec_idents(prefix@) =~= Seq::empty());
        UseItem { imports: imports_of(&prefix, tree) }
    }
}

/// The header of an impl block: the name of the trait, for the
/// implementation of a trait, and the name of the type, where the type is
/// named by a path.
#[derive(Debug, PartialEq, Eq, Hash)]
pub struct ImplHeader {
    pub trait_name: Option<Ident>,
    pub self_type: Option<Ident>,
}

/// The name under which the items of an impl block are found: that of the
/// trait, else that of the type, if either is known.
pub open spec fn spec_impl_name(header: ImplHeader) -> Option<Seq<char>> {
    match header.trait_name {
        Some(name) => Some(name@),
        None => match header.self_type {
            Some(name) => Some(name@),
            None => None,
        },
    }
}

/// An operation that is an effect without being a call.
#[derive(Clone, Copy, Debug, PartialEq, Eq, Hash, Structural)]
pub enum OperationKind {
    /// Dereference of a raw pointer
    RawPointer,
    /// Read of a field of a union
    UnionField,
    /// Access to a mutable static
    StaticMut,
    /// Access to a static of a foreign block
    StaticExt,
    /// Creation of a function pointer
    FnPtrCreation,
    /// Creation of a closure
    ClosureCreation,
}

/// What the declarations of a file say of the names that its expressions
/// use: which name mutable statics, statics of foreign blocks and
/// functions, and which name fields of unions.
#[derive(Debug)]
pub struct Declarations {
    pub static_muts: Vec<Ident>,
    pub foreign_statics: Vec<Ident>,
    pub fns: Vec<Ident>,
    pub union_fields: Vec<Ident>,
}

/// What a [`Declarations`] holds.
pub struct DeclarationsView {
    pub static_muts: Seq<Seq<char>>,
    pub foreign_statics: Seq<Seq<char>>,
    pub fns: Seq<Seq<char>>,
    pub union_fields: Seq<Seq<char>>,
}

impl View for Declarations {
    type V = DeclarationsView;

    open spec fn view(&self) -> DeclarationsView {
        DeclarationsView {
            static_muts: spec_idents(self.static_muts@),
            foreign_statics: spec_idents(self.foreign_statics@),
            fns: spec_idents(self.fns@),
            union_fields: spec_idents(self.union_fields@),
        }
    }
}

/// The operation that the use of a name as a value is: the access to a
/// mutable static or to a static of a foreign block, where the name is
/// declared as one, and the creation of a function pointer, where it is
/// declared as a function. The use of another name is no operation.
pub open spec fn spec_path_operation(decls: DeclarationsView, name: Seq<char>) -> Option<
    OperationKind,
> {
    if decls.static_muts.contains(name) {
        Some(OperationKind::StaticMut)
    } else if decls.foreign_statics.contains(name) {
        Some(OperationKind::StaticExt)
    } else if decls.fns.contains(name) {
        Some(OperationKind::FnPtrCreation)
    } else {
        None
    }
}

/// The operation that the access to a field is: the read of a field of a
/// union, where a union of the file declares the field.
pub open spec fn spec_field_operation(decls: DeclarationsView, field: Seq<char>) -> Option<
    OperationKind,
> {
    if decls.union_fields.contains(field) {
        Some(OperationKind::UnionField)
    } else {
        None
    }
}

fn declares(names: &Vec<Ident>, name: &Ident) -> (r: bool)
    ensures
        r == spec_idents(names@).contains(name@),
{
    let mut i: usize = 0;
    while i < names.len()
        invariant
            i <= names.len(),
            forall|j: int| 0 <= j < i ==> spec_idents(names@)[j] != name@,
        decreases names.len() - i,
    {
        if names[i] == *name {
            assert(spec_idents(names@)[i as int] == name@);
            return true;
        }
        i += 1;
    }
    false
}

/// The operation that the use of a path as a value is, by the name of its
/// last segment. An empty path is none.
pub fn path_operation(decls: &Declarations, path: &PathExpr) -> (r: Option<OperationKind>)
    ensures
        r == if path.segments@.len() == 0 {
            None
        } else {
            spec_path_operation(decls@, path.segments@.last()@.name)
        },
{
    if path.segments.len() == 0 {
        return None;
    }
    let name = &path.segments[path.segments.len() - 1].ident;
    if declares(&decls.static_muts, name) {
        Some(OperationKind::StaticMut)
    } else if declares(&decls.foreign_statics, name) {
        Some(OperationKind::StaticExt)
    } else if declares(&decls.fns, name) {
        Some(OperationKind::FnPtrCreation)
    } else {
        None
    }
}

/// The operation that the access to a field is.
pub fn field_operation(decls: &Declarations, field: &Ident) -> (r: Option<OperationKind>)
    ensures
        r == spec_field_operation(decls@, field@),
{
    if declares(&decls.union_fields, field) {
        Some(OperationKind::UnionField)
    } else {
        None
    }
}

/// Whether an operation is allowed in unsafe code only. Such an operation
/// counts as an effect where it stands in unsafe code; elsewhere what looks
/// like it is the safe form, as the dereference of a reference is.
pub open spec fn spec_needs_unsafe(kind: OperationKind) -> bool {
    match kind {
        OperationKind::FnPtrCreation => false,
        OperationKind::ClosureCreation => false,
        _ => true,
    }
}

/// The effect of an operation on the item with the given path.
pub open spec fn spec_operation_effect(kind: OperationKind, target: Seq<char>) -> EffectView {
    match kind {
        OperationKind::RawPointer => EffectView::RawPointer(target),
        OperationKind::UnionField => EffectView::UnionField(target),
        OperationKind::StaticMut => EffectView::StaticMut(target),
        OperationKind::StaticExt => EffectView::StaticExt(target),
        OperationKind::FnPtrCreation => EffectView::FnPtrCreation,
        OperationKind::ClosureCreation => EffectView::ClosureCreation,
    }
}

/// An expression in the body of a function, as far as effects go.
#[derive(Debug)]
pub enum Expr {
    /// A call of a function that is named by a path, with its arguments
    Call { callee: PathExpr, span: Span, args: Vec<Expr> },
    /// A call of something that is no path, such as a closure, with its
    /// arguments
    OtherCall { args: Vec<Expr> },
    /// The invocation of a macro, which is not expanded
    Macro,
    /// An `unsafe { ... }` block
    Unsafe { span: Span, body: Vec<Expr> },
    /// An operation that is an effect without being a call, on the item
    /// that the path names. The path is empty where no item is named.
    Operation { kind: OperationKind, target: PathExpr, span: Span },
    /// Any other expression, with the expressions inside it
    Other { parts: Vec<Expr> },
}

/// An item of a file, as far as scopes, names and effects go.
#[derive(Debug)]
pub enum Item {
    /// A module with its items
    Mod { ident: SpannedIdent, items: Vec<Item> },
    /// An impl block with its items
    Impl { header: ImplHeader, items: Vec<Item> },
    /// A function with the expressions of its body
    Fn { ident: SpannedIdent, vis: DeclaredVisibility, is_unsafe: bool, span: Span, body: Vec<Expr> },
    /// A `use` declaration
    Use(UseItem),
    /// The declaration of a foreign function
    ForeignFn(SpannedIdent),
    /// The invocation of a macro, which is not expanded
    Macro,
}

} // verus!
