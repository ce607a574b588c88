//! Where a piece of syntax stands: the region it covers in its file, and the
//! file itself, given by its directory and its name.

use vstd::prelude::*;
use vstd::string::*;

verus! {

/// The region of a file that a piece of syntax covers. Lines count from one,
/// columns from zero, as parsers report them.
#[derive(Clone, Copy, Debug, PartialEq, Eq, Hash, Structural)]
pub struct Span {
    pub start_line: usize,
    pub start_col: usize,
    pub end_line: usize,
    pub end_col: usize,
}

impl Span {
    pub fn new(start_line: usize, start_col: usize, end_line: usize, end_col: usize) -> (r: Span)
        ensures
            r == (Span { start_line, start_col, end_line, end_col }),
    {
        Span { start_line, start_col, end_line, end_col }
    }
}

/// A source file: the directory it lies in and its name in that directory.
#[derive(Debug, Eq, Hash)]
pub struct FilePath {
    pub dir: String,
    pub file: String,
}

/// What a [`FilePath`] holds.
pub struct FilePathView {
    pub dir: Seq<char>,
    pub file: Seq<char>,
}

impl View for FilePath {
    type V = FilePathView;

    open spec fn view(&self) -> FilePathView {
        FilePathView { dir: self.dir@, file: self.file@ }
    }
}

impl FilePath {
    pub fn new(dir: &str, file: &str) -> (r: FilePath)
        ensures
            r@ == (FilePathView { dir: dir@, file: file@ }),
    {
        FilePath { dir: dir.to_owned(), file: file.to_owned() }
    }
}

impl Clone for FilePath {
    fn clone(&self) -> (r: Self)
        ensures
            r@ == self@,
    {
        FilePath { dir: self.dir.clone(), file: self.file.clone() }
    }
}

impl PartialEq for FilePath {
    fn eq(&self, other: &Self) -> (r: bool) {
        self.dir == other.dir && self.file == other.file
    }
}

impl vstd::std_specs::cmp::PartialEqSpecImpl for FilePath {
    open spec fn obeys_eq_spec() -> bool {
        true
    }

    open spec fn eq_spec(&self, other: &Self) -> bool {
        self@ == other@
    }
}

} // verus!
