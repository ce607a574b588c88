//! Sinks: the patterns that mark a callee as dangerous to call.
//!
//! A pattern is a path. It matches a callee whose path it equals, and every
//! callee below it: `std::fs` matches `std::fs::read`, but not `std::fsx`.
//! Where several patterns of a set match, the shortest one fires.

use vstd::prelude::*;
use vstd::std_specs::cmp::PartialEqSpecImpl;

use crate::ident::spec_separator;
use crate::ident::CanonicalPath;
use crate::ident::IdentPath;
use crate::text::chars_of;
use crate::text::starts_with;

verus! {

/// Whether a pattern matches a callee path: the two are equal, or the callee
/// continues the pattern with a separator.
pub open spec fn spec_pattern_matches(pattern: Seq<char>, callee: Seq<char>) -> bool {
    callee == pattern || (pattern + spec_separator()).is_prefix_of(callee)
}

/// The texts of a list of patterns.
pub open spec fn spec_patterns(sinks: Seq<IdentPath>) -> Seq<Seq<char>> {
    sinks.map_values(|p: IdentPath| p@)
}

/// Whether some pattern of the list matches the callee.
pub open spec fn spec_any_match(patterns: Seq<Seq<char>>, callee: Seq<char>) -> bool {
    exists|i: int| 0 <= i < patterns.len() && spec_pattern_matches(#[trigger] patterns[i], callee)
}

/// Whether `found` is a pattern of the list that matches the callee and is
/// no longer than any other pattern of the list that matches it.
pub open spec fn spec_is_shortest_match(
    patterns: Seq<Seq<char>>,
    callee: Seq<char>,
    found: Seq<char>,
) -> bool {
    &&& patterns.contains(found)
    &&& spec_pattern_matches(found, callee)
    &&& forall|i: int|
        0 <= i < patterns.len() && spec_pattern_matches(#[trigger] patterns[i], callee)
            ==> found.len() <= patterns[i].len()
}

/// The pattern that fires for a callee: the shortest pattern of the list
/// that matches it, if any does.
pub open spec fn spec_new_match(patterns: Seq<Seq<char>>, callee: Seq<char>) -> Option<Seq<char>> {
    if spec_any_match(patterns, callee) {
        Some(choose|found: Seq<char>| spec_is_shortest_match(patterns, callee, found))
    } else {
        None
    }
}

/// Two patterns of equal length that match one callee are the same pattern.
pub proof fn lemma_matches_of_equal_length(callee: Seq<char>, a: Seq<char>, b: Seq<char>)
    requires
        spec_pattern_matches(a, callee),
        spec_pattern_matches(b, callee),
        a.len() == b.len(),
    ensures
        a == b,
{
    assert(a.is_prefix_of(callee)) by {
        if callee != a {
            assert((a + spec_separator()).subrange(0, a.len() as int) =~= a);
            assert(a =~= callee.subrange(0, a.len() as int));
        } else {
            assert(a =~= callee.subrange(0, a.len() as int));
        }
    }
    assert(b.is_prefix_of(callee)) by {
        if callee != b {
            assert((b + spec_separator()).subrange(0, b.len() as int) =~= b);
            assert(b =~= callee.subrange(0, b.len() as int));
        } else {
            assert(b =~= callee.subrange(0, b.len() as int));
        }
    }
    assert(a =~= b);
}

/// The pattern that fires is unique: whatever is a shortest match is the
/// result of [`spec_new_match`].
pub proof fn lemma_shortest_match_is_new_match(
    patterns: Seq<Seq<char>>,
    callee: Seq<char>,
    found: Seq<char>,
)
    requires
        spec_is_shortest_match(patterns, callee, found),
    ensures
        spec_new_match(patterns, callee) == Some(found),
{
    let i = choose|i: int| 0 <= i < patterns.len() && patterns[i] == found;
    assert(spec_pattern_matches(patterns[i], callee));
    let chosen = choose|f: Seq<char>| spec_is_shortest_match(patterns, callee, f);
    let j = choose|j: int| 0 <= j < patterns.len() && patterns[j] == chosen;
    assert(spec_pattern_matches(patterns[j], callee));
    lemma_matches_of_equal_length(callee, found, chosen);
}

/// A pattern that fired for some callee.
#[derive(Debug, Eq, Hash)]
pub struct Sink {
    pattern: IdentPath,
}

impl View for Sink {
    type V = Seq<char>;

    closed spec fn view(&self) -> Seq<char> {
        self.pattern@
    }
}

fn pattern_matches(pattern: Vec<char>, callee: &Vec<char>) -> (r: bool)
    ensures
        r == spec_pattern_matches(pattern@, callee@),
{
    if pattern.len() == callee.len() {
        let r = starts_with(callee, &pattern);
        assert(r ==> callee@ =~= pattern@);
        r
    } else {
        let mut extended = pattern;
        extended.push(':');
        extended.push(':');
        assert(extended@ =~= pattern@ + spec_separator());
        starts_with(callee, &extended)
    }
}

impl Sink {
    /// The sink with the given pattern.
    pub fn new(s: &str) -> (r: Sink)
        ensures
            r@ == s@,
    {
        Sink { pattern: IdentPath::new(s) }
    }

    /// The text of the pattern.
    pub fn as_str(&self) -> (r: &str)
        ensures
            r@ == self@,
    {
        self.pattern.as_str()
    }

    /// The sink that a callee runs into, if any: the shortest pattern of
    /// `sinks` that matches the callee's path.
    pub fn new_match(callee: &CanonicalPath, sinks: &Vec<IdentPath>) -> (r: Option<Sink>)
        ensures
            match r {
                Some(sink) => spec_new_match(spec_patterns(sinks@), callee@) == Some(sink@),
                None => spec_new_match(spec_patterns(sinks@), callee@) is None,
            },
    {
        let callee_chars = chars_of(callee.as_str());
        let ghost patterns = spec_patterns(sinks@);
        let mut best: Option<usize> = None;
        let mut best_len: usize = 0;
        let mut i: usize = 0;
        while i < sinks.len()
            invariant
                i <= sinks.len(),
                patterns == spec_patterns(sinks@),
                callee_chars@ == callee@,
                best is None ==> forall|j: int|
                    0 <= j < i ==> !spec_pattern_matches(#[trigger] patterns[j], callee@),
                best matches Some(b) ==> {
                    &&& b < i
                    &&& best_len == patterns[b as int].len()
                    &&& spec_pattern_matches(patterns[b as int], callee@)
                    &&& forall|j: int|
                        0 <= j < i && spec_pattern_matches(#[trigger] patterns[j], callee@)
                            ==> best_len <= patterns[j].len()
                },
            decreases sinks.len() - i,
        {
            let pattern = chars_of(sinks[i].as_str());
            let len = pattern.len();
            assert(pattern@ == patterns[i as int]);
            if pattern_matches(pattern, &callee_chars) {
                let better = match best {
                    Some(_) => len < best_len,
                    None => true,
                };
                if better {
                    best = Some(i);
                    best_len = len;
                }
            }
            i += 1;
        }
        match best {
            Some(b) => {
                let sink = Sink { pattern: sinks[b].clone() };
                proof {
                    assert(patterns[b as int] == sink@);
                    assert(patterns.contains(sink@));
                    lemma_shortest_match_is_new_match(patterns, callee@, sink@);
                }
                Some(sink)
            },
            None => None,
        }
    }
}

impl Clone for Sink {
    fn clone(&self) -> (r: Self)
        ensures
            r@ == self@,
    {
        Sink { pattern: self.pattern.clone() }
    }
}

impl PartialEq for Sink {
    fn eq(&self, other: &Self) -> (r: bool) {
        self.pattern == other.pattern
    }
}

impl PartialEqSpecImpl for Sink {
    open spec fn obeys_eq_spec() -> bool {
        true
    }

    open spec fn eq_spec(&self, other: &Self) -> bool {
        self@ == other@
    }
}

} // verus!
