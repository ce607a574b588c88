//! Identifiers and qualified names.
//!
//! An [`Ident`] is a single name. An [`IdentPath`] is a sequence of names
//! joined by `::`, as it is written in source or in a pattern. A
//! [`CanonicalPath`] is a fully qualified path that starts with the name of a
//! package; it is the key by which declarations are referred to across
//! packages.

use vstd::prelude::*;
use vstd::std_specs::cmp::PartialEqSpecImpl;
use vstd::string::*;

use crate::text::chars_of;
use crate::text::string_of;

verus! {

/// The separator between the segments of a path.
pub open spec fn spec_separator() -> Seq<char> {
    seq![':', ':']
}

/// Whether a separator starts at position `i` of `s`.
pub open spec fn spec_separator_at(s: Seq<char>, i: int) -> bool {
    0 <= i && i + 1 < s.len() && s[i] == ':' && s[i + 1] == ':'
}

/// Whether `first` is what stands in `s` before its first separator (all of
/// `s` where it holds no separator).
pub open spec fn spec_is_first_segment(s: Seq<char>, first: Seq<char>) -> bool {
    &&& first.is_prefix_of(s)
    &&& first.len() == s.len() || spec_separator_at(s, first.len() as int)
    &&& forall|j: int| 0 <= j < first.len() ==> !spec_separator_at(s, j)
}

/// The leading segment of a path: what stands before its first separator.
pub open spec fn spec_first_segment(s: Seq<char>) -> Seq<char> {
    choose|first: Seq<char>| spec_is_first_segment(s, first)
}

/// A path with one more segment at its end: the segment alone where the path
/// was empty, else the path, a separator, and the segment.
pub open spec fn spec_push_segment(path: Seq<char>, segment: Seq<char>) -> Seq<char> {
    if path.len() == 0 {
        segment
    } else {
        path + spec_separator() + segment
    }
}

/// The segments joined by separators, a separator between each two neighbours.
pub open spec fn spec_join(segments: Seq<Seq<char>>) -> Seq<char>
    decreases segments.len(),
{
    if segments.len() == 0 {
        Seq::empty()
    } else if segments.len() == 1 {
        segments[0]
    } else {
        spec_join(segments.drop_last()) + spec_separator() + segments.last()
    }
}

/// A single name, such as that of a function, a module or a type.
#[derive(Debug, Eq, Hash)]
pub struct Ident {
    text: String,
}

impl View for Ident {
    type V = Seq<char>;

    closed spec fn view(&self) -> Seq<char> {
        self.text@
    }
}

impl Ident {
    pub fn new(s: &str) -> (r: Ident)
        ensures
            r@ == s@,
    {
        Ident { text: s.to_owned() }
    }

    pub fn as_str(&self) -> (r: &str)
        ensures
            r@ == self@,
    {
        self.text.as_str()
    }
}

impl Clone for Ident {
    fn clone(&self) -> (r: Self)
        ensures
            r@ == self@,
    {
        Ident { text: self.text.clone() }
    }
}

impl PartialEq for Ident {
    fn eq(&self, other: &Self) -> (r: bool) {
        self.text == other.text
    }
}

impl PartialEqSpecImpl for Ident {
    open spec fn obeys_eq_spec() -> bool {
        true
    }

    open spec fn eq_spec(&self, other: &Self) -> bool {
        self@ == other@
    }
}

/// A path as it is written: names joined by `::`. Also the form of a pattern
/// that callee paths are matched against.
#[derive(Debug, Eq, Hash)]
pub struct IdentPath {
    text: String,
}

impl View for IdentPath {
    type V = Seq<char>;

    closed spec fn view(&self) -> Seq<char> {
        self.text@
    }
}

impl IdentPath {
    pub fn new(s: &str) -> (r: IdentPath)
        ensures
            r@ == s@,
    {
        IdentPath { text: s.to_owned() }
    }

    pub fn as_str(&self) -> (r: &str)
        ensures
            r@ == self@,
    {
        self.text.as_str()
    }
}

impl Clone for IdentPath {
    fn clone(&self) -> (r: Self)
        ensures
            r@ == self@,
    {
        IdentPath { text: self.text.clone() }
    }
}

impl PartialEq for IdentPath {
    fn eq(&self, other: &Self) -> (r: bool) {
        self.text == other.text
    }
}

impl PartialEqSpecImpl for IdentPath {
    open spec fn obeys_eq_spec() -> bool {
        true
    }

    open spec fn eq_spec(&self, other: &Self) -> bool {
        self@ == other@
    }
}

/// A fully qualified path, `package::module::item`.
#[derive(Debug, Eq, Hash)]
pub struct CanonicalPath {
    text: String,
}

impl View for CanonicalPath {
    type V = Seq<char>;

    closed spec fn view(&self) -> Seq<char> {
        self.text@
    }
}

impl CanonicalPath {
    pub fn new(s: &str) -> (r: CanonicalPath)
        ensures
            r@ == s@,
    {
        CanonicalPath { text: s.to_owned() }
    }

    pub fn new_owned(s: String) -> (r: CanonicalPath)
        ensures
            r@ == s@,
    {
        CanonicalPath { text: s }
    }

    /// The canonical path with the text of an identifier path.
    pub fn from_path(p: IdentPath) -> (r: CanonicalPath)
        ensures
            r@ == p@,
    {
        CanonicalPath { text: p.text }
    }

    pub fn as_str(&self) -> (r: &str)
        ensures
            r@ == self@,
    {
        self.text.as_str()
    }

    /// The path as an identifier path, for matching against patterns.
    pub fn to_path(&self) -> (r: IdentPath)
        ensures
            r@ == self@,
    {
        IdentPath { text: self.text.clone() }
    }

    /// The text of the path, owned.
    pub fn to_string(&self) -> (r: String)
        ensures
            r@ == self@,
    {
        self.text.clone()
    }

    /// The name of the package that the path belongs to: its leading segment.
    pub fn crate_name(&self) -> (r: Ident)
        ensures
            spec_is_first_segment(self@, r@),
            r@ == spec_first_segment(self@),
    {
        let chars = chars_of(self.text.as_str());
        let mut first: Vec<char> = Vec::new();
        let mut i: usize = 0;
        let mut found = false;
        while i < chars.len() && !found
            invariant
                i <= chars.len(),
                first@ == chars@.take(i as int),
                forall|j: int| 0 <= j < i ==> !spec_separator_at(chars@, j),
                found ==> spec_separator_at(chars@, i as int),
            decreases chars.len() - i + if found { 0int } else { 1int },
        {
            if chars[i] == ':' && i + 1 < chars.len() && chars[i + 1] == ':' {
                found = true;
            } else {
                first.push(chars[i]);
                i += 1;
                assert(chars@.take(i as int) == chars@.take(i - 1).push(chars@[i - 1]));
            }
        }
        proof {
            assert(first@ =~= chars@.subrange(0, first@.len() as int));
            lemma_first_segment_unique(self@, first@, spec_first_segment(self@));
        }
        Ident { text: string_of(&first) }
    }

    /// Appends a segment to the path.
    pub fn push_ident(&mut self, i: &Ident)
        ensures
            final(self)@ == spec_push_segment(old(self)@, i@),
    {
        let is_empty = chars_of(self.text.as_str()).len() == 0;
        if !is_empty {
            self.text.append("::");
            proof {
                reveal_strlit("::");
                assert("::"@ =~= spec_separator());
            }
        } else {
            assert(old(self)@ + i@ =~= i@);
        }
        self.text.append(i.as_str());
    }
}

impl Clone for CanonicalPath {
    fn clone(&self) -> (r: Self)
        ensures
            r@ == self@,
    {
        CanonicalPath { text: self.text.clone() }
    }
}

impl PartialEq for CanonicalPath {
    fn eq(&self, other: &Self) -> (r: bool) {
        self.text == other.text
    }
}

impl PartialEqSpecImpl for CanonicalPath {
    open spec fn obeys_eq_spec() -> bool {
        true
    }

    open spec fn eq_spec(&self, other: &Self) -> bool {
        self@ == other@
    }
}

/// The leading segment of a path is unique: two candidates for it are equal.
pub proof fn lemma_first_segment_unique(s: Seq<char>, a: Seq<char>, b: Seq<char>)
    requires
        spec_is_first_segment(s, a),
        spec_is_first_segment(s, b),
    ensures
        a == b,
{
    if a.len() < b.len() {
        assert(spec_separator_at(s, a.len() as int));
    } else if b.len() < a.len() {
        assert(spec_separator_at(s, b.len() as int));
    }
    assert(a =~= b);
}

} // verus!
