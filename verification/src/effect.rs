//! The data model of effects.
//!
//! - [`Effect`] is what kind of dangerous operation was found.
//! - [`EffectInstance`] is one occurrence of an effect in source code, with
//!   its caller, its callee and its location.
//! - [`EffectBlock`] is a region of source code that may hold effects: an
//!   unsafe block or the body of a function.

use vstd::prelude::*;
use vstd::std_specs::cmp::PartialEqSpecImpl;
use vstd::string::*;

use crate::ident::spec_first_segment;
use crate::ident::CanonicalPath;
use crate::ident::IdentPath;
use crate::sink::spec_new_match;
use crate::sink::spec_patterns;
use crate::sink::Sink;
use crate::span::FilePath;
use crate::span::FilePathView;
use crate::span::Span;
use crate::text::chars_of;
use crate::text::push_char;
use crate::text::push_decimal;
use crate::text::sanitize_comma;
use crate::text::spec_decimal;
use crate::text::spec_sanitize_comma;

verus! {

/// The text between two fields of a CSV row.
pub open spec fn spec_field_separator() -> Seq<char> {
    seq![',', ' ']
}

fn push_field_separator(s: &mut String)
    ensures
        final(s)@ == old(s)@ + spec_field_separator(),
{
    push_char(s, ',');
    push_char(s, ' ');
    assert(s@ =~= old(s)@ + spec_field_separator());
}

/// A location in source code: a file and a region of it.
#[derive(Debug, Eq, Hash)]
pub struct SrcLoc {
    /// Directory in which the expression occurs
    dir: String,
    /// File in which the expression occurs, in the above directory
    file: String,
    /// Region in which the expression occurs, in the above file
    start_line: usize,
    start_col: usize,
    end_line: usize,
    end_col: usize,
}

/// What a [`SrcLoc`] holds.
pub struct SrcLocView {
    pub dir: Seq<char>,
    pub file: Seq<char>,
    pub start_line: nat,
    pub start_col: nat,
    pub end_line: nat,
    pub end_col: nat,
}

/// The location of a span in a file.
pub open spec fn spec_src_loc(filepath: FilePathView, span: Span) -> SrcLocView {
    SrcLocView {
        dir: filepath.dir,
        file: filepath.file,
        start_line: span.start_line as nat,
        start_col: span.start_col as nat,
        end_line: span.end_line as nat,
        end_col: span.end_col as nat,
    }
}

/// The path of a file in a directory: the directory, a `/` where the
/// directory is not empty and does not end in one, and the file. A file
/// that starts at the root stands for itself.
pub open spec fn spec_join_path(dir: Seq<char>, file: Seq<char>) -> Seq<char> {
    if file.len() > 0 && file[0] == '/' {
        file
    } else if dir.len() == 0 || dir.last() == '/' {
        dir + file
    } else {
        dir + seq!['/'] + file
    }
}

/// The CSV fields of a location: directory, file, line and column of its
/// start.
pub open spec fn spec_src_loc_csv(loc: SrcLocView) -> Seq<char> {
    spec_sanitize_comma(loc.dir) + spec_field_separator() + spec_sanitize_comma(loc.file)
        + spec_field_separator() + spec_decimal(loc.start_line) + spec_field_separator()
        + spec_decimal(loc.start_col)
}

/// A location as it is shown to a reader: `path:line:col..line:col`.
pub open spec fn spec_src_loc_text(loc: SrcLocView) -> Seq<char> {
    spec_join_path(loc.dir, loc.file) + seq![':'] + spec_decimal(loc.start_line) + seq![':']
        + spec_decimal(loc.start_col) + seq!['.', '.'] + spec_decimal(loc.end_line) + seq![':']
        + spec_decimal(loc.end_col)
}

impl View for SrcLoc {
    type V = SrcLocView;

    closed spec fn view(&self) -> SrcLocView {
        SrcLocView {
            dir: self.dir@,
            file: self.file@,
            start_line: self.start_line as nat,
            start_col: self.start_col as nat,
            end_line: self.end_line as nat,
            end_col: self.end_col as nat,
        }
    }
}

impl SrcLoc {
    pub fn new(
        filepath: &FilePath,
        start_line: usize,
        start_col: usize,
        end_line: usize,
        end_col: usize,
    ) -> (r: SrcLoc)
        ensures
            r@ == spec_src_loc(filepath@, Span { start_line, start_col, end_line, end_col }),
    {
        SrcLoc {
            dir: filepath.dir.clone(),
            file: filepath.file.clone(),
            start_line,
            start_col,
            end_line,
            end_col,
        }
    }

    pub fn from_span(filepath: &FilePath, span: &Span) -> (r: SrcLoc)
        ensures
            r@ == spec_src_loc(filepath@, *span),
    {
        Self::new(filepath, span.start_line, span.start_col, span.end_line, span.end_col)
    }

    /// The same region one line further up.
    pub fn sub1(&self) -> (r: SrcLoc)
        requires
            self@.start_line >= 1,
            self@.end_line >= 1,
        ensures
            r@ == (SrcLocView {
                start_line: (self@.start_line - 1) as nat,
                end_line: (self@.end_line - 1) as nat,
                ..self@
            }),
    {
        SrcLoc {
            dir: self.dir.clone(),
            file: self.file.clone(),
            start_line: self.start_line - 1,
            start_col: self.start_col,
            end_line: self.end_line - 1,
            end_col: self.end_col,
        }
    }

    /// Moves the start of the region one column to the right.
    pub fn add1(&mut self)
        requires
            old(self)@.start_col < usize::MAX,
        ensures
            final(self)@ == (SrcLocView { start_col: old(self)@.start_col + 1, ..old(self)@ }),
    {
        self.start_col += 1;
    }

    pub fn csv_header() -> (r: &'static str)
        ensures
            r@ == "dir, file, line, col"@,
    {
        "dir, file, line, col"
    }

    pub fn to_csv(&self) -> (r: String)
        ensures
            r@ == spec_src_loc_csv(self@),
    {
        let mut s = sanitize_comma(self.dir.as_str());
        push_field_separator(&mut s);
        let file = sanitize_comma(self.file.as_str());
        s.append(file.as_str());
        push_field_separator(&mut s);
        push_decimal(&mut s, self.start_line);
        push_field_separator(&mut s);
        push_decimal(&mut s, self.start_col);
        s
    }

    pub fn dir(&self) -> (r: &String)
        ensures
            r@ == self@.dir,
    {
        &self.dir
    }

    pub fn file(&self) -> (r: &String)
        ensures
            r@ == self@.file,
    {
        &self.file
    }

    pub fn start_line(&self) -> (r: usize)
        ensures
            r == self@.start_line,
    {
        self.start_line
    }

    pub fn start_col(&self) -> (r: usize)
        ensures
            r == self@.start_col,
    {
        self.start_col
    }

    pub fn end_line(&self) -> (r: usize)
        ensures
            r == self@.end_line,
    {
        self.end_line
    }

    pub fn end_col(&self) -> (r: usize)
        ensures
            r == self@.end_col,
    {
        self.end_col
    }

    /// The path of the file: its name, joined to its directory.
    pub fn filepath_string(&self) -> (r: String)
        ensures
            r@ == spec_join_path(self@.dir, self@.file),
    {
        let file = chars_of(self.file.as_str());
        if file.len() > 0 && file[0] == '/' {
            return self.file.clone();
        }
        let dir = chars_of(self.dir.as_str());
        let mut s = self.dir.clone();
        if dir.len() > 0 && dir[dir.len() - 1] != '/' {
            push_char(&mut s, '/');
        }
        s.append(self.file.as_str());
        s
    }

    /// The location as it is shown to a reader.
    pub fn to_string(&self) -> (r: String)
        ensures
            r@ == spec_src_loc_text(self@),
    {
        let mut s = self.filepath_string();
        push_char(&mut s, ':');
        push_decimal(&mut s, self.start_line);
        push_char(&mut s, ':');
        push_decimal(&mut s, self.start_col);
        push_char(&mut s, '.');
        push_char(&mut s, '.');
        push_decimal(&mut s, self.end_line);
        push_char(&mut s, ':');
        push_decimal(&mut s, self.end_col);
        assert(s@ =~= spec_src_loc_text(self@));
        s
    }
}

impl Clone for SrcLoc {
    fn clone(&self) -> (r: Self)
        ensures
            r@ == self@,
    {
        SrcLoc {
            dir: self.dir.clone(),
            file: self.file.clone(),
            start_line: self.start_line,
            start_col: self.start_col,
            end_line: self.end_line,
            end_col: self.end_col,
        }
    }
}

impl PartialEq for SrcLoc {
    fn eq(&self, other: &Self) -> (r: bool) {
        self.dir == other.dir && self.file == other.file && self.start_line == other.start_line
            && self.start_col == other.start_col && self.end_line == other.end_line
            && self.end_col == other.end_col
    }
}

impl PartialEqSpecImpl for SrcLoc {
    open spec fn obeys_eq_spec() -> bool {
        true
    }

    open spec fn eq_spec(&self, other: &Self) -> bool {
        self@ == other@
    }
}

/// A single effect: a call into a dangerous function, or an operation that
/// only unsafe code may perform.
#[derive(Debug, Eq, Hash)]
pub enum Effect {
    /// Function call whose callee path matches a sink pattern
    SinkCall(Sink),
    /// Call of a foreign function
    FFICall(CanonicalPath),
    /// Call of an unsafe function or method
    UnsafeCall(CanonicalPath),
    /// Pointer dereference
    RawPointer(CanonicalPath),
    /// Reading a union field
    UnionField(CanonicalPath),
    /// Accessing a global mutable variable
    StaticMut(CanonicalPath),
    /// Accessing an external mutable variable
    StaticExt(CanonicalPath),
    /// Creation of a function pointer
    FnPtrCreation,
    /// Creation of a closure
    ClosureCreation,
}

/// What an [`Effect`] holds.
pub enum EffectView {
    SinkCall(Seq<char>),
    FFICall(Seq<char>),
    UnsafeCall(Seq<char>),
    RawPointer(Seq<char>),
    UnionField(Seq<char>),
    StaticMut(Seq<char>),
    StaticExt(Seq<char>),
    FnPtrCreation,
    ClosureCreation,
}

/// The short name of an effect: the pattern that fired for a sink call, a
/// fixed label in square brackets for the others.
pub open spec fn spec_simple_str(e: EffectView) -> Seq<char> {
    match e {
        EffectView::SinkCall(pattern) => pattern,
        EffectView::FFICall(_) => "[FFI]"@,
        EffectView::UnsafeCall(_) => "[UnsafeCall]"@,
        EffectView::RawPointer(_) => "[PtrDeref]"@,
        EffectView::UnionField(_) => "[UnionField]"@,
        EffectView::StaticMut(_) => "[StaticMutVar]"@,
        EffectView::StaticExt(_) => "[StaticExtVar]"@,
        EffectView::FnPtrCreation => "[FnPtrCreation]"@,
        EffectView::ClosureCreation => "[ClosureCreation]"@,
    }
}

/// The effect of a call, by what is known of its callee. A sink pattern
/// that fired comes first, then the path of a foreign declaration, then the
/// mark of an unsafe call. A call with none of these is no effect.
pub open spec fn spec_call_effect(
    sink: Option<Seq<char>>,
    ffi: Option<Seq<char>>,
    is_unsafe: bool,
    callee: Seq<char>,
) -> Option<EffectView> {
    match sink {
        Some(pattern) => Some(EffectView::SinkCall(pattern)),
        None => match ffi {
            Some(decl) => Some(EffectView::FFICall(decl)),
            None => if is_unsafe {
                Some(EffectView::UnsafeCall(callee))
            } else {
                None
            },
        },
    }
}

impl View for Effect {
    type V = EffectView;

    open spec fn view(&self) -> EffectView {
        match self {
            Effect::SinkCall(s) => EffectView::SinkCall(s@),
            Effect::FFICall(p) => EffectView::FFICall(p@),
            Effect::UnsafeCall(p) => EffectView::UnsafeCall(p@),
            Effect::RawPointer(p) => EffectView::RawPointer(p@),
            Effect::UnionField(p) => EffectView::UnionField(p@),
            Effect::StaticMut(p) => EffectView::StaticMut(p@),
            Effect::StaticExt(p) => EffectView::StaticExt(p@),
            Effect::FnPtrCreation => EffectView::FnPtrCreation,
            Effect::ClosureCreation => EffectView::ClosureCreation,
        }
    }
}

impl Effect {
    /// The pattern that fired, for a sink call.
    pub fn sink_pattern(&self) -> (r: Option<&Sink>)
        ensures
            match r {
                Some(s) => self@ == EffectView::SinkCall(s@),
                None => !(self@ is SinkCall),
            },
    {
        match self {
            Self::SinkCall(s) => Some(s),
            Self::FFICall(_) => None,
            Self::UnsafeCall(_) => None,
            Self::RawPointer(_) => None,
            Self::UnionField(_) => None,
            Self::StaticMut(_) => None,
            Self::StaticExt(_) => None,
            Self::FnPtrCreation => None,
            Self::ClosureCreation => None,
        }
    }

    /// The short name of the effect.
    pub fn simple_str(&self) -> (r: &str)
        ensures
            r@ == spec_simple_str(self@),
    {
        match self {
            Self::SinkCall(s) => s.as_str(),
            Self::FFICall(_) => "[FFI]",
            Self::UnsafeCall(_) => "[UnsafeCall]",
            Self::RawPointer(_) => "[PtrDeref]",
            Self::UnionField(_) => "[UnionField]",
            Self::StaticMut(_) => "[StaticMutVar]",
            Self::StaticExt(_) => "[StaticExtVar]",
            Self::FnPtrCreation => "[FnPtrCreation]",
            Self::ClosureCreation => "[ClosureCreation]",
        }
    }

    /// The short name of the effect as a CSV field.
    pub fn to_csv(&self) -> (r: String)
        ensures
            r@ == spec_sanitize_comma(spec_simple_str(self@)),
    {
        sanitize_comma(self.simple_str())
    }
}

impl Clone for Effect {
    fn clone(&self) -> (r: Self)
        ensures
            r@ == self@,
    {
        match self {
            Self::SinkCall(s) => Self::SinkCall(s.clone()),
            Self::FFICall(p) => Self::FFICall(p.clone()),
            Self::UnsafeCall(p) => Self::UnsafeCall(p.clone()),
            Self::RawPointer(p) => Self::RawPointer(p.clone()),
            Self::UnionField(p) => Self::UnionField(p.clone()),
            Self::StaticMut(p) => Self::StaticMut(p.clone()),
            Self::StaticExt(p) => Self::StaticExt(p.clone()),
            Self::FnPtrCreation => Self::FnPtrCreation,
            Self::ClosureCreation => Self::ClosureCreation,
        }
    }
}

impl PartialEq for Effect {
    fn eq(&self, other: &Self) -> (r: bool) {
        match (self, other) {
            (Self::SinkCall(a), Self::SinkCall(b)) => a == b,
            (Self::FFICall(a), Self::FFICall(b)) => a == b,
            (Self::UnsafeCall(a), Self::UnsafeCall(b)) => a == b,
            (Self::RawPointer(a), Self::RawPointer(b)) => a == b,
            (Self::UnionField(a), Self::UnionField(b)) => a == b,
            (Self::StaticMut(a), Self::StaticMut(b)) => a == b,
            (Self::StaticExt(a), Self::StaticExt(b)) => a == b,
            (Self::FnPtrCreation, Self::FnPtrCreation) => true,
            (Self::ClosureCreation, Self::ClosureCreation) => true,
            _ => false,
        }
    }
}

impl PartialEqSpecImpl for Effect {
    open spec fn obeys_eq_spec() -> bool {
        true
    }

    open spec fn eq_spec(&self, other: &Self) -> bool {
        self@ == other@
    }
}

/// One occurrence of an effect, with its context.
#[derive(Debug, Eq, Hash)]
pub struct EffectInstance {
    /// Path to the caller function or module scope
    caller: CanonicalPath,
    /// Location of the call or other effect
    call_loc: SrcLoc,
    /// Callee of the call, or the item that the effect touches
    callee: CanonicalPath,
    /// Which effect it is. For a sink call this holds the pattern that
    /// fired, a prefix of the callee.
    eff_type: Effect,
}

/// What an [`EffectInstance`] holds.
pub struct EffectInstanceView {
    pub caller: Seq<char>,
    pub call_loc: SrcLocView,
    pub callee: Seq<char>,
    pub eff_type: EffectView,
}

/// The view of an optional canonical path.
pub open spec fn spec_path_option(p: Option<CanonicalPath>) -> Option<Seq<char>> {
    match p {
        Some(path) => Some(path@),
        None => None,
    }
}

/// What classifying a call gives: an instance with the effect that
/// [`spec_call_effect`] names, at the call site; nothing where that names
/// none.
pub open spec fn spec_new_call(
    filepath: FilePathView,
    caller: Seq<char>,
    callee: Seq<char>,
    callsite: Span,
    is_unsafe: bool,
    ffi: Option<Seq<char>>,
    patterns: Seq<Seq<char>>,
) -> Option<EffectInstanceView> {
    match spec_call_effect(spec_new_match(patterns, callee), ffi, is_unsafe, callee) {
        Some(eff_type) => Some(
            EffectInstanceView {
                caller,
                call_loc: spec_src_loc(filepath, callsite),
                callee,
                eff_type,
            },
        ),
        None => None,
    }
}

/// The CSV row of an effect instance: the caller's package, the caller, the
/// callee, the effect, and the fields of the location, eight fields in
/// all. Every field is written without commas.
pub open spec fn spec_effect_csv(e: EffectInstanceView) -> Seq<char> {
    spec_sanitize_comma(spec_first_segment(e.caller)) + spec_field_separator()
        + spec_sanitize_comma(e.caller) + spec_field_separator() + spec_sanitize_comma(e.callee)
        + spec_field_separator() + spec_sanitize_comma(spec_simple_str(e.eff_type))
        + spec_field_separator() + spec_src_loc_csv(e.call_loc)
}

impl View for EffectInstance {
    type V = EffectInstanceView;

    closed spec fn view(&self) -> EffectInstanceView {
        EffectInstanceView {
            caller: self.caller@,
            call_loc: self.call_loc@,
            callee: self.callee@,
            eff_type: self.eff_type@,
        }
    }
}

impl EffectInstance {
    /// Classifies a call. Gives an instance if the callee matches a sink,
    /// is a foreign function, or is called as unsafe, in that order of
    /// precedence. Ordinary calls give nothing.
    pub fn new_call(
        filepath: &FilePath,
        caller: CanonicalPath,
        callee: CanonicalPath,
        callsite: &Span,
        is_unsafe: bool,
        ffi: Option<CanonicalPath>,
        sinks: &Vec<IdentPath>,
    ) -> (r: Option<EffectInstance>)
        ensures
            match r {
                Some(e) => Some(e@),
                None => None,
            } == spec_new_call(
                filepath@,
                caller@,
                callee@,
                *callsite,
                is_unsafe,
                spec_path_option(ffi),
                spec_patterns(sinks@),
            ),
    {
        let call_loc = SrcLoc::from_span(filepath, callsite);
        let eff_type = match Sink::new_match(&callee, sinks) {
            Some(pattern) => Effect::SinkCall(pattern),
            None => match ffi {
                Some(decl) => Effect::FFICall(decl),
                None => {
                    if is_unsafe {
                        Effect::UnsafeCall(callee.clone())
                    } else {
                        return None;
                    }
                },
            },
        };
        Some(EffectInstance { caller, call_loc, callee, eff_type })
    }

    /// An instance of an effect that was found outside a call.
    pub fn new_effect(
        filepath: &FilePath,
        caller: CanonicalPath,
        callee: CanonicalPath,
        eff_site: &Span,
        eff_type: Effect,
    ) -> (r: EffectInstance)
        ensures
            r@ == (EffectInstanceView {
                caller: caller@,
                call_loc: spec_src_loc(filepath@, *eff_site),
                callee: callee@,
                eff_type: eff_type@,
            }),
    {
        let call_loc = SrcLoc::from_span(filepath, eff_site);
        EffectInstance { caller, call_loc, callee, eff_type }
    }

    pub fn caller(&self) -> (r: &CanonicalPath)
        ensures
            r@ == self@.caller,
    {
        &self.caller
    }

    pub fn caller_path(&self) -> (r: &str)
        ensures
            r@ == self@.caller,
    {
        self.caller.as_str()
    }

    pub fn callee(&self) -> (r: &CanonicalPath)
        ensures
            r@ == self@.callee,
    {
        &self.callee
    }

    pub fn callee_path(&self) -> (r: &str)
        ensures
            r@ == self@.callee,
    {
        self.callee.as_str()
    }

    /// Caller and callee as full paths.
    pub fn caller_callee(&self) -> (r: (&str, &str))
        ensures
            r.0@ == self@.caller,
            r.1@ == self@.callee,
    {
        (self.caller_path(), self.callee_path())
    }

    pub fn csv_header() -> (r: &'static str)
        ensures
            r@ == "crate, fn_decl, callee, effect, dir, file, line, col"@,
    {
        "crate, fn_decl, callee, effect, dir, file, line, col"
    }

    pub fn to_csv(&self) -> (r: String)
        ensures
            r@ == spec_effect_csv(self@),
    {
        let crt = self.caller.crate_name();
        let mut s = sanitize_comma(crt.as_str());
        push_field_separator(&mut s);
        let caller = sanitize_comma(self.caller.as_str());
        s.append(caller.as_str());
        push_field_separator(&mut s);
        let callee = sanitize_comma(self.callee.as_str());
        s.append(callee.as_str());
        push_field_separator(&mut s);
        let effect = self.eff_type.to_csv();
        s.append(effect.as_str());
        push_field_separator(&mut s);
        let call_loc_csv = self.call_loc.to_csv();
        s.append(call_loc_csv.as_str());
        s
    }

    pub fn eff_type(&self) -> (r: &Effect)
        ensures
            r@ == self@.eff_type,
    {
        &self.eff_type
    }

    /// The pattern that fired, for a sink call.
    pub fn pattern(&self) -> (r: Option<&Sink>)
        ensures
            match r {
                Some(s) => self@.eff_type == EffectView::SinkCall(s@),
                None => !(self@.eff_type is SinkCall),
            },
    {
        self.eff_type.sink_pattern()
    }

    pub fn is_ffi(&self) -> (r: bool)
        ensures
            r == (self@.eff_type is FFICall),
    {
        match self.eff_type {
            Effect::FFICall(_) => true,
            _ => false,
        }
    }

    pub fn is_unsafe_call(&self) -> (r: bool)
        ensures
            r == (self@.eff_type is UnsafeCall),
    {
        match self.eff_type {
            Effect::UnsafeCall(_) => true,
            _ => false,
        }
    }

    pub fn is_ptr_deref(&self) -> (r: bool)
        ensures
            r == (self@.eff_type is RawPointer),
    {
        match self.eff_type {
            Effect::RawPointer(_) => true,
            _ => false,
        }
    }

    pub fn is_union_field_acc(&self) -> (r: bool)
        ensures
            r == (self@.eff_type is UnionField),
    {
        match self.eff_type {
            Effect::UnionField(_) => true,
            _ => false,
        }
    }

    pub fn is_mut_static(&self) -> (r: bool)
        ensures
            r == (self@.eff_type is StaticMut),
    {
        match self.eff_type {
            Effect::StaticMut(_) => true,
            _ => false,
        }
    }

    pub fn call_loc(&self) -> (r: &SrcLoc)
        ensures
            r@ == self@.call_loc,
    {
        &self.call_loc
    }
}

impl Clone for EffectInstance {
    fn clone(&self) -> (r: Self)
        ensures
            r@ == self@,
    {
        EffectInstance {
            caller: self.caller.clone(),
            call_loc: self.call_loc.clone(),
            callee: self.callee.clone(),
            eff_type: self.eff_type.clone(),
        }
    }
}

impl PartialEq for EffectInstance {
    fn eq(&self, other: &Self) -> (r: bool) {
        self.caller == other.caller && self.call_loc == other.call_loc && self.callee
            == other.callee && self.eff_type == other.eff_type
    }
}

impl PartialEqSpecImpl for EffectInstance {
    open spec fn obeys_eq_spec() -> bool {
        true
    }

    open spec fn eq_spec(&self, other: &Self) -> bool {
        self@ == other@
    }
}

/// Whether a declaration can be seen from other packages.
#[derive(Clone, Copy, Debug, PartialEq, Eq, Hash, Structural)]
pub enum Visibility {
    Public,
    Private,
}

/// The visibility that a declaration is written with.
#[derive(Clone, Copy, Debug, PartialEq, Eq, Hash, Structural)]
pub enum DeclaredVisibility {
    /// `pub`
    Public,
    /// `pub(crate)`, `pub(super)`, `pub(in path)`
    Restricted,
    /// Nothing written
    Inherited,
}

impl From<&DeclaredVisibility> for Visibility {
    /// Only `pub` makes a declaration visible to other packages: every
    /// restricted form counts as private.
    fn from(vis: &DeclaredVisibility) -> (r: Visibility) {
        match vis {
            DeclaredVisibility::Public => Visibility::Public,
            _ => Visibility::Private,
        }
    }
}

impl vstd::std_specs::convert::FromSpecImpl<&DeclaredVisibility> for Visibility {
    open spec fn obeys_from_spec() -> bool {
        true
    }

    open spec fn from_spec(vis: &DeclaredVisibility) -> Visibility {
        if *vis == DeclaredVisibility::Public {
            Visibility::Public
        } else {
            Visibility::Private
        }
    }
}

/// The declaration of a function.
#[derive(Debug, Eq, Hash)]
pub struct FnDec {
    pub src_loc: SrcLoc,
    pub fn_name: CanonicalPath,
    pub vis: Visibility,
}

/// What a [`FnDec`] holds.
pub struct FnDecView {
    pub src_loc: SrcLocView,
    pub fn_name: Seq<char>,
    pub vis: Visibility,
}

/// The declaration of a function with the given name and declared
/// visibility, at the given span.
pub open spec fn spec_fn_dec(
    filepath: FilePathView,
    decl_span: Span,
    fn_name: Seq<char>,
    vis: DeclaredVisibility,
) -> FnDecView {
    FnDecView {
        src_loc: spec_src_loc(filepath, decl_span),
        fn_name,
        vis: if vis == DeclaredVisibility::Public {
            Visibility::Public
        } else {
            Visibility::Private
        },
    }
}

impl View for FnDec {
    type V = FnDecView;

    open spec fn view(&self) -> FnDecView {
        FnDecView { src_loc: self.src_loc@, fn_name: self.fn_name@, vis: self.vis }
    }
}

impl FnDec {
    pub fn new(
        filepath: &FilePath,
        decl_span: &Span,
        fn_name: CanonicalPath,
        vis: &DeclaredVisibility,
    ) -> (r: FnDec)
        ensures
            r@ == spec_fn_dec(filepath@, *decl_span, fn_name@, *vis),
    {
        let src_loc = SrcLoc::from_span(filepath, decl_span);
        let vis = Visibility::from(vis);
        FnDec { src_loc, fn_name, vis }
    }
}

impl Clone for FnDec {
    fn clone(&self) -> (r: Self)
        ensures
            r@ == self@,
    {
        FnDec { src_loc: self.src_loc.clone(), fn_name: self.fn_name.clone(), vis: self.vis }
    }
}

impl PartialEq for FnDec {
    fn eq(&self, other: &Self) -> (r: bool) {
        self.src_loc == other.src_loc && self.fn_name == other.fn_name && self.vis == other.vis
    }
}

impl PartialEqSpecImpl for FnDec {
    open spec fn obeys_eq_spec() -> bool {
        true
    }

    open spec fn eq_spec(&self, other: &Self) -> bool {
        self@ == other@
    }
}

/// What kind of region an [`EffectBlock`] is.
#[derive(Clone, Copy, Debug, PartialEq, Eq, Hash, Structural)]
pub enum BlockType {
    /// An expression enclosed by `unsafe { ... }`
    UnsafeExpr,
    /// The body of `fn foo(args) { ... }`
    NormalFn,
    /// The body of `unsafe fn foo(args) { ... }`
    UnsafeFn,
}

/// A region of source code that holds zero or more effects, in the order in
/// which they were found, together with the function that encloses it.
#[derive(Debug, Eq, Hash)]
pub struct EffectBlock {
    src_loc: SrcLoc,
    block_type: BlockType,
    effects: Vec<EffectInstance>,
    containing_fn: FnDec,
}

/// What an [`EffectBlock`] holds.
pub struct EffectBlockView {
    pub src_loc: SrcLocView,
    pub block_type: BlockType,
    pub effects: Seq<EffectInstanceView>,
    pub containing_fn: FnDecView,
}

/// The views of a sequence of effect instances.
pub open spec fn spec_effect_views(effects: Seq<EffectInstance>) -> Seq<EffectInstanceView> {
    effects.map_values(|e: EffectInstance| e@)
}

/// The items of `s` whose flag equals `want`, in their order.
pub open spec fn spec_select<T>(s: Seq<T>, flags: Seq<bool>, want: bool) -> Seq<T>
    decreases s.len(),
{
    if s.len() == 0 || flags.len() != s.len() {
        Seq::empty()
    } else {
        let rest = spec_select(s.drop_last(), flags.drop_last(), want);
        if flags.last() == want {
            rest.push(s.last())
        } else {
            rest
        }
    }
}

impl View for EffectBlock {
    type V = EffectBlockView;

    closed spec fn view(&self) -> EffectBlockView {
        EffectBlockView {
            src_loc: self.src_loc@,
            block_type: self.block_type,
            effects: spec_effect_views(self.effects@),
            containing_fn: self.containing_fn@,
        }
    }
}

impl EffectBlock {
    /// The effects of the block as they are held, in order.
    pub closed spec fn spec_effects(&self) -> Seq<EffectInstance> {
        self.effects@
    }

    /// The view of the block shows the views of the effects it holds.
    pub proof fn lemma_view_effects(&self)
        ensures
            self@.effects == spec_effect_views(self.spec_effects()),
    {
    }

    /// The block of an `unsafe { ... }` expression, with no effects yet.
    pub fn new_unsafe_expr(filepath: &FilePath, block_span: &Span, containing_fn: FnDec) -> (r:
        EffectBlock)
        ensures
            r@ == (EffectBlockView {
                src_loc: spec_src_loc(filepath@, *block_span),
                block_type: BlockType::UnsafeExpr,
                effects: Seq::empty(),
                containing_fn: containing_fn@,
            }),
    {
        let src_loc = SrcLoc::from_span(filepath, block_span);
        let block_type = BlockType::UnsafeExpr;
        let effects: Vec<EffectInstance> = Vec::new();
        assert(spec_effect_views(effects@) =~= Seq::empty());
        EffectBlock { src_loc, block_type, effects, containing_fn }
    }

    /// The block of the body of a declared function, with no effects yet.
    pub fn from_fn_decl(fn_decl: FnDec) -> (r: EffectBlock)
        ensures
            r@ == (EffectBlockView {
                src_loc: fn_decl@.src_loc,
                block_type: BlockType::NormalFn,
                effects: Seq::empty(),
                containing_fn: fn_decl@,
            }),
    {
        let src_loc = fn_decl.src_loc.clone();
        let block_type = BlockType::NormalFn;
        let effects: Vec<EffectInstance> = Vec::new();
        assert(spec_effect_views(effects@) =~= Seq::empty());
        EffectBlock { src_loc, block_type, effects, containing_fn: fn_decl }
    }

    /// The block of the body of a declared function that holds one effect.
    pub fn from_effect(eff: EffectInstance, containing_fn: FnDec) -> (r: EffectBlock)
        ensures
            r@ == (EffectBlockView {
                src_loc: containing_fn@.src_loc,
                block_type: BlockType::NormalFn,
                effects: seq![eff@],
                containing_fn: containing_fn@,
            }),
    {
        let mut result = Self::from_fn_decl(containing_fn);
        result.push_effect(eff);
        assert(result@.effects =~= seq![eff@]);
        result
    }

    /// The block of the body of a function, with no effects yet.
    pub fn new_fn(
        filepath: &FilePath,
        decl_span: &Span,
        fn_name: CanonicalPath,
        vis: &DeclaredVisibility,
    ) -> (r: EffectBlock)
        ensures
            r@ == (EffectBlockView {
                src_loc: spec_src_loc(filepath@, *decl_span),
                block_type: BlockType::NormalFn,
                effects: Seq::empty(),
                containing_fn: spec_fn_dec(filepath@, *decl_span, fn_name@, *vis),
            }),
    {
        let src_loc = SrcLoc::from_span(filepath, decl_span);
        let block_type = BlockType::NormalFn;
        let effects: Vec<EffectInstance> = Vec::new();
        assert(spec_effect_views(effects@) =~= Seq::empty());
        EffectBlock {
            src_loc,
            block_type,
            effects,
            containing_fn: FnDec::new(filepath, decl_span, fn_name, vis),
        }
    }

    /// The block of the body of an unsafe function, with no effects yet.
    pub fn new_unsafe_fn(
        filepath: &FilePath,
        decl_span: &Span,
        fn_name: CanonicalPath,
        vis: &DeclaredVisibility,
    ) -> (r: EffectBlock)
        ensures
            r@ == (EffectBlockView {
                src_loc: spec_src_loc(filepath@, *decl_span),
                block_type: BlockType::UnsafeFn,
                effects: Seq::empty(),
                containing_fn: spec_fn_dec(filepath@, *decl_span, fn_name@, *vis),
            }),
    {
        let src_loc = SrcLoc::from_span(filepath, decl_span);
        let block_type = BlockType::UnsafeFn;
        let effects: Vec<EffectInstance> = Vec::new();
        assert(spec_effect_views(effects@) =~= Seq::empty());
        EffectBlock {
            src_loc,
            block_type,
            effects,
            containing_fn: FnDec::new(filepath, decl_span, fn_name, vis),
        }
    }

    pub fn src_loc(&self) -> (r: &SrcLoc)
        ensures
            r@ == self@.src_loc,
    {
        &self.src_loc
    }

    pub fn block_type(&self) -> (r: &BlockType)
        ensures
            *r == self@.block_type,
    {
        &self.block_type
    }

    /// Adds an effect at the end of the block.
    pub fn push_effect(&mut self, effect: EffectInstance)
        ensures
            final(self)@ == (EffectBlockView {
                effects: old(self)@.effects.push(effect@),
                ..old(self)@
            }),
            final(self).spec_effects() == old(self).spec_effects().push(effect),
    {
        self.effects.push(effect);
        assert(spec_effect_views(self.effects@) =~= spec_effect_views(old(self).effects@).push(
            effect@,
        ));
    }

    /// Adds effects at the end of the block, in their order.
    pub fn extend_effects(&mut self, effects: Vec<EffectInstance>)
        ensures
            final(self)@ == (EffectBlockView {
                effects: old(self)@.effects + spec_effect_views(effects@),
                ..old(self)@
            }),
            final(self).spec_effects() == old(self).spec_effects() + effects@,
    {
        let mut effects = effects;
        let ghost added = effects@;
        self.effects.append(&mut effects);
        assert(spec_effect_views(self.effects@) =~= spec_effect_views(old(self).effects@)
            + spec_effect_views(added));
    }

    pub fn effects(&self) -> (r: &Vec<EffectInstance>)
        ensures
            r@ == self.spec_effects(),
            spec_effect_views(r@) == self@.effects,
    {
        &self.effects
    }

    /// Takes out the effects for which `f` gives `true`, and hands them
    /// back. The block keeps the others. Both parts keep the order that
    /// the effects had.
    pub fn filter_effects<F>(&mut self, f: F) -> (removed: Vec<EffectInstance>) where
        F: Fn(&EffectInstance) -> bool,

        requires
            forall|e: EffectInstance| #[trigger] call_requires(f, (&e,)),
        ensures
            exists|matched: Seq<bool>|
                {
                    &&& matched.len() == old(self).spec_effects().len()
                    &&& forall|i: int|
                        0 <= i < matched.len() ==> call_ensures(
                            f,
                            (&old(self).spec_effects()[i],),
                            #[trigger] matched[i],
                        )
                    &&& final(self).spec_effects() == spec_select(
                        old(self).spec_effects(),
                        matched,
                        false,
                    )
                    &&& removed@ == spec_select(old(self).spec_effects(), matched, true)
                },
            final(self)@.src_loc == old(self)@.src_loc,
            final(self)@.block_type == old(self)@.block_type,
            final(self)@.containing_fn == old(self)@.containing_fn,
    {
        broadcast use vstd::std_specs::vec::axiom_spec_into_iter;

        let mut effects: Vec<EffectInstance> = Vec::new();
        std::mem::swap(&mut self.effects, &mut effects);
        let ghost all = effects@;
        let ghost mut matched: Seq<bool> = Seq::empty();
        let mut removed: Vec<EffectInstance> = Vec::new();
        for e in it: effects
            invariant
                it.seq() == all,
                forall|e: EffectInstance| #[trigger] call_requires(f, (&e,)),
                matched.len() == it.index(),
                forall|i: int|
                    0 <= i < matched.len() ==> call_ensures(f, (&all[i],), #[trigger] matched[i]),
                self.effects@ == spec_select(all.take(it.index() as int), matched, false),
                removed@ == spec_select(all.take(it.index() as int), matched, true),
                self.src_loc == old(self).src_loc,
                self.block_type == old(self).block_type,
                self.containing_fn == old(self).containing_fn,
        {
            let ghost i = it.index() as int;
            let hit = f(&e);
            proof {
                assert(all.take(i + 1).drop_last() == all.take(i));
                assert(matched.push(hit).drop_last() == matched);
                matched = matched.push(hit);
            }
            if hit {
                removed.push(e);
            } else {
                self.effects.push(e);
            }
        }
        assert(all.take(all.len() as int) == all);
        assert(matched.len() == all.len());
        assert(all == old(self).spec_effects());
        assert(self.spec_effects() == spec_select(all, matched, false));
        assert(removed@ == spec_select(all, matched, true));
        removed
    }

    pub fn containing_fn(&self) -> (r: &FnDec)
        ensures
            r@ == self@.containing_fn,
    {
        &self.containing_fn
    }
}

impl Clone for EffectBlock {
    fn clone(&self) -> (r: Self)
        ensures
            r@ == self@,
    {
        let mut effects: Vec<EffectInstance> = Vec::new();
        let mut i: usize = 0;
        while i < self.effects.len()
            invariant
                i <= self.effects.len(),
                effects@.len() == i,
                forall|j: int| 0 <= j < i ==> effects@[j]@ == self.effects@[j]@,
            decreases self.effects.len() - i,
        {
            effects.push(self.effects[i].clone());
            i += 1;
        }
        assert(spec_effect_views(effects@) =~= spec_effect_views(self.effects@));
        EffectBlock {
            src_loc: self.src_loc.clone(),
            block_type: self.block_type,
            effects,
            containing_fn: self.containing_fn.clone(),
        }
    }
}

impl PartialEq for EffectBlock {
    fn eq(&self, other: &Self) -> (r: bool) {
        if !(self.src_loc == other.src_loc && self.block_type == other.block_type
            && self.containing_fn == other.containing_fn && self.effects.len()
            == other.effects.len()) {
            assert(self@.effects.len() == self.effects@.len());
            assert(other@.effects.len() == other.effects@.len());
            return false;
        }
        let mut i: usize = 0;
        while i < self.effects.len()
            invariant
                i <= self.effects.len(),
                self.effects.len() == other.effects.len(),
                forall|j: int| 0 <= j < i ==> self.effects@[j]@ == other.effects@[j]@,
            decreases self.effects.len() - i,
        {
            if !(self.effects[i] == other.effects[i]) {
                assert(self@.effects[i as int] != other@.effects[i as int]);
                return false;
            }
            i += 1;
        }
        assert(self@.effects =~= other@.effects);
        true
    }
}

impl PartialEqSpecImpl for EffectBlock {
    open spec fn obeys_eq_spec() -> bool {
        true
    }

    open spec fn eq_spec(&self, other: &Self) -> bool {
        self@ == other@
    }
}

/// The implementation of a trait for a type. A trait implementation holds
/// no unsafe code of its own, only its methods can, so it is no effect block.
#[derive(Debug, Eq, Hash)]
pub struct TraitImpl {
    src_loc: SrcLoc,
    tr_name: CanonicalPath,
    self_type: Option<CanonicalPath>,
}

/// What a [`TraitImpl`] holds.
pub struct TraitImplView {
    pub src_loc: SrcLocView,
    pub tr_name: Seq<char>,
    pub self_type: Option<Seq<char>>,
}

impl View for TraitImpl {
    type V = TraitImplView;

    closed spec fn view(&self) -> TraitImplView {
        TraitImplView {
            src_loc: self.src_loc@,
            tr_name: self.tr_name@,
            self_type: spec_path_option(self.self_type),
        }
    }
}

impl TraitImpl {
    pub fn new(
        impl_span: &Span,
        filepath: &FilePath,
        tr_name: CanonicalPath,
        self_type: Option<CanonicalPath>,
    ) -> (r: TraitImpl)
        ensures
            r@ == (TraitImplView {
                src_loc: spec_src_loc(filepath@, *impl_span),
                tr_name: tr_name@,
                self_type: spec_path_option(self_type),
            }),
    {
        let src_loc = SrcLoc::from_span(filepath, impl_span);
        TraitImpl { src_loc, tr_name, self_type }
    }
}

impl PartialEq for TraitImpl {
    fn eq(&self, other: &Self) -> (r: bool) {
        let same_type = match (&self.self_type, &other.self_type) {
            (Some(a), Some(b)) => a == b,
            (None, None) => true,
            _ => false,
        };
        self.src_loc == other.src_loc && self.tr_name == other.tr_name && same_type
    }
}

impl PartialEqSpecImpl for TraitImpl {
    open spec fn obeys_eq_spec() -> bool {
        true
    }

    open spec fn eq_spec(&self, other: &Self) -> bool {
        self@ == other@
    }
}

/// The declaration of a trait. Like a trait implementation, it is no effect
/// block.
#[derive(Debug, Eq, Hash)]
pub struct TraitDec {
    src_loc: SrcLoc,
    tr_name: CanonicalPath,
}

/// What a [`TraitDec`] holds.
pub struct TraitDecView {
    pub src_loc: SrcLocView,
    pub tr_name: Seq<char>,
}

impl View for TraitDec {
    type V = TraitDecView;

    closed spec fn view(&self) -> TraitDecView {
        TraitDecView { src_loc: self.src_loc@, tr_name: self.tr_name@ }
    }
}

impl TraitDec {
    pub fn new(trait_span: &Span, filepath: &FilePath, tr_name: CanonicalPath) -> (r: TraitDec)
        ensures
            r@ == (TraitDecView {
                src_loc: spec_src_loc(filepath@, *trait_span),
                tr_name: tr_name@,
            }),
    {
        let src_loc = SrcLoc::from_span(filepath, trait_span);
        TraitDec { src_loc, tr_name }
    }
}

impl PartialEq for TraitDec {
    fn eq(&self, other: &Self) -> (r: bool) {
        self.src_loc == other.src_loc && self.tr_name == other.tr_name
    }
}

impl PartialEqSpecImpl for TraitDec {
    open spec fn obeys_eq_spec() -> bool {
        true
    }

    open spec fn eq_spec(&self, other: &Self) -> bool {
        self@ == other@
    }
}

/// A call classifies as at most one effect, and a sink pattern that fired
/// wins over the mark of a foreign function: such a call is a `SinkCall`,
/// never an `FFICall`.
pub proof fn lemma_sink_wins_over_ffi(
    pattern: Seq<char>,
    ffi: Option<Seq<char>>,
    is_unsafe: bool,
    callee: Seq<char>,
)
    ensures
        spec_call_effect(Some(pattern), ffi, is_unsafe, callee) == Some(
            EffectView::SinkCall(pattern),
        ),
{
}

/// A call that matches no sink and is no foreign function is an
/// `UnsafeCall` of its callee if it is marked unsafe, and no effect at all
/// if it is not. A foreign function that matches no sink is an `FFICall`,
/// marked unsafe or not.
pub proof fn lemma_call_effect_priority(ffi: Seq<char>, is_unsafe: bool, callee: Seq<char>)
    ensures
        spec_call_effect(None, None, true, callee) == Some(EffectView::UnsafeCall(callee)),
        spec_call_effect(None, None, false, callee) is None,
        spec_call_effect(None, Some(ffi), is_unsafe, callee) == Some(EffectView::FFICall(ffi)),
{
}

/// Two effect instances with the same caller, callee, location and effect
/// compare equal.
pub proof fn lemma_equal_parts_equal_instances(a: EffectInstance, b: EffectInstance)
    requires
        a@.caller == b@.caller,
        a@.callee == b@.callee,
        a@.call_loc == b@.call_loc,
        a@.eff_type == b@.eff_type,
    ensures
        a@ == b@,
        vstd::std_specs::cmp::PartialEqSpec::eq_spec(&a, &b),
{
}

} // verus!
