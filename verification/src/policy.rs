//! The audit policy of one package version.
//!
//! A policy records which public functions of the package are
//! caller-checked: safe to call only if the caller keeps to a condition.
//! Dependents treat those functions as sinks when their own policies are
//! made.

use vstd::prelude::*;
use vstd::string::*;

use crate::effect::EffectBlock;
use crate::effect::EffectBlockView;
use crate::effect::Visibility;
use crate::ident::CanonicalPath;
use crate::codec::decode_lines;
use crate::codec::encode_lines;
use crate::codec::lemma_lines_round_trip;
use crate::codec::spec_decode_lines;
use crate::codec::spec_encode_lines;
use crate::text::lemma_distinct;
use crate::text::spec_strings;
use crate::text::spec_distinct;

verus! {

/// The texts of a sequence of canonical paths.
pub open spec fn spec_paths(paths: Seq<CanonicalPath>) -> Seq<Seq<char>> {
    paths.map_values(|p: CanonicalPath| p@)
}

/// The views of a sequence of effect blocks.
pub open spec fn spec_blocks(blocks: Seq<EffectBlock>) -> Seq<EffectBlockView> {
    blocks.map_values(|b: EffectBlock| b@)
}

/// Whether a block makes its function caller-checked: the function is
/// public and the block holds an effect.
pub open spec fn spec_marks_caller_checked(block: EffectBlockView) -> bool {
    block.containing_fn.vis == Visibility::Public && block.effects.len() > 0
}

/// The functions that the blocks of a scan make caller-checked, one entry
/// for each such block.
pub open spec fn spec_caller_checked(blocks: Seq<EffectBlockView>) -> Seq<Seq<char>> {
    blocks.filter(|b: EffectBlockView| spec_marks_caller_checked(b)).map_values(
        |b: EffectBlockView| b.containing_fn.fn_name,
    )
}

/// Whether `paths` holds a path with the given text.
pub fn contains_path(paths: &Vec<CanonicalPath>, path: &CanonicalPath) -> (r: bool)
    ensures
        r == spec_paths(paths@).contains(path@),
{
    let mut i: usize = 0;
    while i < paths.len()
        invariant
            i <= paths.len(),
            forall|j: int| 0 <= j < i ==> spec_paths(paths@)[j] != path@,
        decreases paths.len() - i,
    {
        if paths[i] == *path {
            assert(spec_paths(paths@)[i as int] == path@);
            return true;
        }
        i += 1;
    }
    false
}

/// Adds a path at the end unless one with the same text is held.
pub fn push_distinct(paths: &mut Vec<CanonicalPath>, path: CanonicalPath)
    ensures
        spec_paths(final(paths)@) == if spec_paths(old(paths)@).contains(path@) {
            spec_paths(old(paths)@)
        } else {
            spec_paths(old(paths)@).push(path@)
        },
{
    if !contains_path(paths, &path) {
        paths.push(path);
        assert(spec_paths(paths@) =~= spec_paths(old(paths)@).push(path@));
    }
}

/// The audit policy of a package version.
#[derive(Debug, PartialEq, Eq)]
pub struct PolicyFile {
    /// The directory of the package that the policy was made for
    pub base_dir: String,
    /// The public functions that are caller-checked. A policy that a scan
    /// made holds each once; a policy that was read holds what its text
    /// holds.
    pub pub_caller_checked: Vec<CanonicalPath>,
}

/// What a [`PolicyFile`] holds.
pub struct PolicyFileView {
    pub base_dir: Seq<char>,
    pub pub_caller_checked: Seq<Seq<char>>,
}

impl View for PolicyFile {
    type V = PolicyFileView;

    open spec fn view(&self) -> PolicyFileView {
        PolicyFileView {
            base_dir: self.base_dir@,
            pub_caller_checked: spec_paths(self.pub_caller_checked@),
        }
    }
}

/// The lines of a policy: the directory of the package, then the
/// caller-checked functions.
pub open spec fn spec_policy_lines(p: PolicyFileView) -> Seq<Seq<char>> {
    seq![p.base_dir] + p.pub_caller_checked
}

/// The text of a policy, as it is saved.
pub open spec fn spec_policy_text(p: PolicyFileView) -> Seq<char> {
    spec_encode_lines(spec_policy_lines(p))
}

/// The policy that a text holds, if it is the text of one.
pub open spec fn spec_policy_from_text(text: Seq<char>) -> Option<PolicyFileView> {
    match spec_decode_lines(text) {
        Some(lines) => if lines.len() == 0 {
            None
        } else {
            Some(PolicyFileView { base_dir: lines[0], pub_caller_checked: lines.skip(1) })
        },
        None => None,
    }
}

/// Loading what was saved gives back the policy: its caller-checked
/// functions, be there none or many, and the directory of its package.
pub proof fn lemma_policy_round_trip(p: PolicyFileView)
    ensures
        spec_policy_from_text(spec_policy_text(p)) == Some(p),
{
    let lines = spec_policy_lines(p);
    lemma_lines_round_trip(lines);
    assert(lines.skip(1) =~= p.pub_caller_checked);
}

impl PolicyFile {
    /// The text of the policy, as it is saved.
    pub fn to_text(&self) -> (r: String)
        ensures
            r@ == spec_policy_text(self@),
    {
        let mut lines: Vec<String> = Vec::new();
        lines.push(self.base_dir.clone());
        let mut i: usize = 0;
        assert(spec_strings(lines@) =~= seq![self@.base_dir] + self@.pub_caller_checked.take(0));
        while i < self.pub_caller_checked.len()
            invariant
                i <= self.pub_caller_checked.len(),
                spec_strings(lines@) == seq![self@.base_dir] + self@.pub_caller_checked.take(
                    i as int,
                ),
            decreases self.pub_caller_checked.len() - i,
        {
            let ghost before = spec_strings(lines@);
            lines.push(self.pub_caller_checked[i].to_string());
            assert(spec_strings(lines@) =~= before.push(self@.pub_caller_checked[i as int]));
            i += 1;
            assert(seq![self@.base_dir] + self@.pub_caller_checked.take(i as int) =~= (
            seq![self@.base_dir] + self@.pub_caller_checked.take(i - 1)).push(
                self@.pub_caller_checked[i - 1],
            ));
        }
        assert(self@.pub_caller_checked.take(i as int) == self@.pub_caller_checked);
        encode_lines(&lines)
    }

    /// The policy that a text holds, if it is the text of one.
    pub fn from_text(text: &str) -> (r: Option<PolicyFile>)
        ensures
            match r {
                Some(p) => spec_policy_from_text(text@) == Some(p@),
                None => spec_policy_from_text(text@) is None,
            },
    {
        let lines = match decode_lines(text) {
            Some(lines) => lines,
            None => {
                return None;
            },
        };
        if lines.len() == 0 {
            return None;
        }
        let ghost all = spec_strings(lines@);
        let mut checked: Vec<CanonicalPath> = Vec::new();
        let mut i: usize = 1;
        assert(spec_paths(checked@) =~= all.skip(1).take(0));
        while i < lines.len()
            invariant
                1 <= i <= lines.len(),
                all == spec_strings(lines@),
                spec_paths(checked@) == all.skip(1).take(i - 1),
            decreases lines.len() - i,
        {
            let ghost before = spec_paths(checked@);
            checked.push(CanonicalPath::new(lines[i].as_str()));
            assert(spec_paths(checked@) =~= before.push(all[i as int]));
            i += 1;
            assert(all.skip(1).take(i - 1) =~= all.skip(1).take(i - 2).push(all[i - 1]));
        }
        assert(all.skip(1).take(i - 1) =~= all.skip(1));
        Some(PolicyFile { base_dir: lines[0].clone(), pub_caller_checked: checked })
    }

    /// The policy without caller-checked functions.
    pub fn empty(base_dir: &str) -> (r: PolicyFile)
        ensures
            r@ == (PolicyFileView { base_dir: base_dir@, pub_caller_checked: Seq::empty() }),
    {
        let r = PolicyFile { base_dir: base_dir.to_owned(), pub_caller_checked: Vec::new() };
        assert(r@.pub_caller_checked =~= Seq::empty());
        r
    }

    /// The default policy of a package, from the blocks that a scan of its
    /// source found: every public function with an effect in its body is
    /// caller-checked.
    pub fn new_caller_checked_default(base_dir: &str, blocks: &Vec<EffectBlock>) -> (r: PolicyFile)
        ensures
            r@ == (PolicyFileView {
                base_dir: base_dir@,
                pub_caller_checked: spec_distinct(spec_caller_checked(spec_blocks(blocks@))),
            }),
            r@.pub_caller_checked.no_duplicates(),
    {
        let ghost all = spec_blocks(blocks@);
        proof {
            lemma_distinct(spec_caller_checked(all));
        }
        let ghost marks = |b: EffectBlockView| spec_marks_caller_checked(b);
        let ghost name = |b: EffectBlockView| b.containing_fn.fn_name;
        let mut checked: Vec<CanonicalPath> = Vec::new();
        let mut i: usize = 0;
        proof {
            reveal(Seq::filter);
            assert(all.take(0).filter(marks) =~= Seq::empty());
            assert(spec_paths(checked@) =~= spec_distinct(
                all.take(0).filter(marks).map_values(name),
            ));
        }
        while i < blocks.len()
            invariant
                i <= blocks.len(),
                all == spec_blocks(blocks@),
                marks == |b: EffectBlockView| spec_marks_caller_checked(b),
                name == |b: EffectBlockView| b.containing_fn.fn_name,
                spec_paths(checked@) == spec_distinct(
                    all.take(i as int).filter(marks).map_values(name),
                ),
            decreases blocks.len() - i,
        {
            let block = &blocks[i];
            proof {
                reveal(Seq::filter);
                assert(all.take(i + 1).drop_last() == all.take(i as int));
                assert(all.take(i + 1).last() == block@);
            }
            let is_public = match block.containing_fn().vis {
                Visibility::Public => true,
                Visibility::Private => false,
            };
            if is_public && block.effects().len() > 0 {
                let ghost before = all.take(i as int).filter(marks).map_values(name);
                let ghost after = all.take(i + 1).filter(marks).map_values(name);
                assert(after.drop_last() =~= before);
                assert(after.last() == block@.containing_fn.fn_name);
                push_distinct(&mut checked, block.containing_fn().fn_name.clone());
            }
            i += 1;
        }
        assert(all.take(i as int) == all);
        PolicyFile { base_dir: base_dir.to_owned(), pub_caller_checked: checked }
    }

    /// Whether a function is caller-checked by this policy.
    pub fn is_caller_checked(&self, path: &CanonicalPath) -> (r: bool)
        ensures
            r == self@.pub_caller_checked.contains(path@),
    {
        contains_path(&self.pub_caller_checked, path)
    }
}

impl Clone for PolicyFile {
    fn clone(&self) -> (r: Self)
        ensures
            r@ == self@,
    {
        let mut checked: Vec<CanonicalPath> = Vec::new();
        let mut i: usize = 0;
        while i < self.pub_caller_checked.len()
            invariant
                i <= self.pub_caller_checked.len(),
                checked@.len() == i,
                forall|j: int| 0 <= j < i ==> checked@[j]@ == self.pub_caller_checked@[j]@,
            decreases self.pub_caller_checked.len() - i,
        {
            checked.push(self.pub_caller_checked[i].clone());
            i += 1;
        }
        assert(spec_paths(checked@) =~= spec_paths(self.pub_caller_checked@));
        PolicyFile { base_dir: self.base_dir.clone(), pub_caller_checked: checked }
    }
}

/// The default policy holds no function twice, and holds exactly the
/// public functions that have a block with an effect.
pub proof fn lemma_default_policy(blocks: Seq<EffectBlockView>, path: Seq<char>)
    ensures
        spec_distinct(spec_caller_checked(blocks)).no_duplicates(),
        spec_distinct(spec_caller_checked(blocks)).contains(path) <==> exists|i: int|
            0 <= i < blocks.len() && spec_marks_caller_checked(#[trigger] blocks[i])
                && blocks[i].containing_fn.fn_name == path,
{
    broadcast use vstd::seq_lib::group_filter_ensures;

    let marks = |b: EffectBlockView| spec_marks_caller_checked(b);
    let name = |b: EffectBlockView| b.containing_fn.fn_name;
    let marked = blocks.filter(marks);
    let listed = spec_caller_checked(blocks);
    lemma_distinct(listed);
    if listed.contains(path) {
        let j = choose|j: int| 0 <= j < listed.len() && listed[j] == path;
        assert(marked.contains(marked[j]));
        blocks.lemma_filter_contains_rev(marks, marked[j]);
        assert(marks(marked[j]));
        let i = choose|i: int| 0 <= i < blocks.len() && blocks[i] == marked[j];
        assert(spec_marks_caller_checked(blocks[i]) && blocks[i].containing_fn.fn_name == path);
    }
    if exists|i: int|
        0 <= i < blocks.len() && spec_marks_caller_checked(#[trigger] blocks[i])
            && blocks[i].containing_fn.fn_name == path {
        let i = choose|i: int|
            0 <= i < blocks.len() && spec_marks_caller_checked(#[trigger] blocks[i])
                && blocks[i].containing_fn.fn_name == path;
        assert(marks(blocks[i]));
        assert(marked.contains(blocks[i]));
        let j = choose|j: int| 0 <= j < marked.len() && marked[j] == blocks[i];
        assert(listed[j] == path);
    }
}

} // verus!
