//! The audit chain: which policy belongs to which package version.
//!
//! A chain is made for one root package. It holds the place of its own
//! manifest, the place of the root package's source, and for each package
//! version that was audited the path of its policy.

use vstd::prelude::*;
use vstd::string::*;

use crate::codec::decode_lines;
use crate::codec::encode_lines;
use crate::codec::lemma_lines_round_trip;
use crate::codec::spec_decode_lines;
use crate::codec::spec_encode_lines;
use crate::package::package_key;
use crate::package::spec_package_key;
use crate::package::Package;
use crate::text::lemma_push_keeps_distinct;
use crate::text::spec_strings;
use crate::text::str_eq;

verus! {

/// One line of the chain: a package version and the path of its policy.
#[derive(Debug, PartialEq, Eq)]
pub struct ChainEntry {
    pub name: String,
    pub version: String,
    pub policy_path: String,
}

/// What a [`ChainEntry`] holds.
pub struct ChainEntryView {
    pub name: Seq<char>,
    pub version: Seq<char>,
    pub policy_path: Seq<char>,
}

impl ChainEntryView {
    pub open spec fn key(self) -> Seq<char> {
        spec_package_key(self.name, self.version)
    }
}

impl View for ChainEntry {
    type V = ChainEntryView;

    open spec fn view(&self) -> ChainEntryView {
        ChainEntryView { name: self.name@, version: self.version@, policy_path: self.policy_path@ }
    }
}

impl Clone for ChainEntry {
    fn clone(&self) -> (r: Self)
        ensures
            r@ == self@,
    {
        ChainEntry {
            name: self.name.clone(),
            version: self.version.clone(),
            policy_path: self.policy_path.clone(),
        }
    }
}

/// The views of a sequence of entries.
pub open spec fn spec_entries(entries: Seq<ChainEntry>) -> Seq<ChainEntryView> {
    entries.map_values(|e: ChainEntry| e@)
}

/// The keys of a sequence of entries.
pub open spec fn spec_keys(entries: Seq<ChainEntryView>) -> Seq<Seq<char>> {
    entries.map_values(|e: ChainEntryView| e.key())
}

/// The entries with one registered: in place of the entry with the same
/// key where there is one, else behind the others.
pub open spec fn spec_register(
    entries: Seq<ChainEntryView>,
    entry: ChainEntryView,
) -> Seq<ChainEntryView> {
    let keys = spec_keys(entries);
    if keys.contains(entry.key()) {
        entries.update(keys.index_of(entry.key()), entry)
    } else {
        entries.push(entry)
    }
}

/// The entries with each one registered in its turn.
pub open spec fn spec_register_all(entries: Seq<ChainEntryView>) -> Seq<ChainEntryView>
    decreases entries.len(),
{
    if entries.len() == 0 {
        Seq::empty()
    } else {
        spec_register(spec_register_all(entries.drop_last()), entries.last())
    }
}

/// The lines of the entries of a chain: name, version and path of the
/// policy of each.
pub open spec fn spec_entry_lines(entries: Seq<ChainEntryView>) -> Seq<Seq<char>>
    decreases entries.len(),
{
    if entries.len() == 0 {
        Seq::empty()
    } else {
        spec_entry_lines(entries.drop_last()) + seq![
            entries.last().name,
            entries.last().version,
            entries.last().policy_path,
        ]
    }
}

/// The entries that lines hold, three lines to an entry.
pub open spec fn spec_entries_of_lines(lines: Seq<Seq<char>>) -> Seq<ChainEntryView> {
    Seq::new(
        (lines.len() / 3) as nat,
        |i: int|
            ChainEntryView {
                name: lines[3 * i],
                version: lines[3 * i + 1],
                policy_path: lines[3 * i + 2],
            },
    )
}

/// The text of a chain, as its manifest holds it: the path of the
/// manifest, the path of the root package, and the entries.
pub open spec fn spec_chain_text(c: AuditChainView) -> Seq<char> {
    spec_encode_lines(seq![c.manifest_path, c.crate_path] + spec_entry_lines(c.entries))
}

/// The chain that a text holds, if it is the text of one.
pub open spec fn spec_chain_from_text(text: Seq<char>) -> Option<AuditChainView> {
    match spec_decode_lines(text) {
        Some(lines) => if lines.len() < 2 || (lines.len() - 2) % 3 != 0 {
            None
        } else {
            Some(
                AuditChainView {
                    manifest_path: lines[0],
                    crate_path: lines[1],
                    entries: spec_register_all(spec_entries_of_lines(lines.skip(2))),
                },
            )
        },
        None => None,
    }
}

/// What an [`AuditChain`] holds.
pub struct AuditChainView {
    pub manifest_path: Seq<char>,
    pub crate_path: Seq<char>,
    pub entries: Seq<ChainEntryView>,
}

impl AuditChainView {
    /// No package version has two entries.
    pub open spec fn wf(self) -> bool {
        spec_keys(self.entries).no_duplicates()
    }

    /// Whether the chain holds a policy for the package version with the
    /// given key.
    pub open spec fn has_policy(self, key: Seq<char>) -> bool {
        spec_keys(self.entries).contains(key)
    }

    /// The path of the policy of the package version with the given key.
    pub open spec fn policy_path(self, key: Seq<char>) -> Option<Seq<char>> {
        if self.has_policy(key) {
            Some(self.entries[spec_keys(self.entries).index_of(key)].policy_path)
        } else {
            None
        }
    }
}

/// The policies of a package and of the packages that it depends on.
#[derive(Debug, PartialEq, Eq)]
pub struct AuditChain {
    manifest_path: String,
    crate_path: String,
    crate_policies: Vec<ChainEntry>,
}

impl View for AuditChain {
    type V = AuditChainView;

    closed spec fn view(&self) -> AuditChainView {
        AuditChainView {
            manifest_path: self.manifest_path@,
            crate_path: self.crate_path@,
            entries: spec_entries(self.crate_policies@),
        }
    }
}

impl AuditChain {
    /// The chain without policies.
    pub fn new(manifest_path: String, crate_path: String) -> (r: AuditChain)
        ensures
            r@ == (AuditChainView {
                manifest_path: manifest_path@,
                crate_path: crate_path@,
                entries: Seq::empty(),
            }),
            r@.wf(),
    {
        let r = AuditChain { manifest_path, crate_path, crate_policies: Vec::new() };
        assert(r@.entries =~= Seq::empty());
        r
    }

    pub fn manifest_path(&self) -> (r: &String)
        ensures
            r@ == self@.manifest_path,
    {
        &self.manifest_path
    }

    pub fn crate_path(&self) -> (r: &String)
        ensures
            r@ == self@.crate_path,
    {
        &self.crate_path
    }

    /// The entries of the chain, in the order in which their package
    /// versions were first registered.
    pub fn entries(&self) -> (r: &Vec<ChainEntry>)
        ensures
            spec_entries(r@) == self@.entries,
    {
        &self.crate_policies
    }

    fn find(&self, key: &str) -> (r: Option<usize>)
        requires
            self@.wf(),
        ensures
            match r {
                Some(i) => i < self@.entries.len() && self@.entries[i as int].key() == key@ && i
                    == spec_keys(self@.entries).index_of(key@) && self@.has_policy(key@),
                None => !self@.has_policy(key@),
            },
    {
        let ghost keys = spec_keys(self@.entries);
        let mut i: usize = 0;
        while i < self.crate_policies.len()
            invariant
                i <= self.crate_policies.len(),
                keys == spec_keys(self@.entries),
                keys.no_duplicates(),
                forall|j: int| 0 <= j < i ==> keys[j] != key@,
            decreases self.crate_policies.len() - i,
        {
            let entry = &self.crate_policies[i];
            let entry_key = package_key(entry.name.as_str(), entry.version.as_str());
            assert(keys[i as int] == entry_key@);
            if str_eq(entry_key.as_str(), key) {
                proof {
                    let j = keys.index_of(key@);
                    assert(0 <= j < keys.len() && keys[j] == key@);
                }
                return Some(i);
            }
            i += 1;
        }
        None
    }

    /// Registers an entry, in place of one with the same key.
    pub fn register(&mut self, entry: ChainEntry)
        requires
            old(self)@.wf(),
        ensures
            final(self)@.wf(),
            final(self)@ == (AuditChainView {
                entries: spec_register(old(self)@.entries, entry@),
                ..old(self)@
            }),
            final(self)@.has_policy(entry@.key()),
            forall|key: Seq<char>| old(self)@.has_policy(key) ==> final(self)@.has_policy(key),
    {
        let key = package_key(entry.name.as_str(), entry.version.as_str());
        let ghost before = self@.entries;
        let ghost keys = spec_keys(before);
        match self.find(key.as_str()) {
            Some(i) => {
                self.crate_policies.set(i, entry);
                proof {
                    assert(self@.entries =~= before.update(i as int, entry@));
                    assert(spec_keys(self@.entries) =~= keys);
                }
            },
            None => {
                self.crate_policies.push(entry);
                proof {
                    assert(self@.entries =~= before.push(entry@));
                    let after = spec_keys(self@.entries);
                    assert(after =~= keys.push(entry@.key()));
                    assert(after[keys.len() as int] == entry@.key());
                    assert forall|k: Seq<char>| keys.contains(k) implies after.contains(k) by {
                        let j = choose|j: int| 0 <= j < keys.len() && keys[j] == k;
                        assert(after[j] == k);
                    }
                    lemma_push_keeps_distinct(keys, entry@.key());
                }
            },
        }
    }

    /// Registers the policy of a package version, in place of one that was
    /// registered for it before.
    pub fn add_crate_policy(&mut self, package: &Package, policy_path: String)
        requires
            old(self)@.wf(),
        ensures
            final(self)@.wf(),
            final(self)@ == (AuditChainView {
                entries: spec_register(
                    old(self)@.entries,
                    ChainEntryView {
                        name: package@.name,
                        version: package@.version,
                        policy_path: policy_path@,
                    },
                ),
                ..old(self)@
            }),
            final(self)@.has_policy(package@.key()),
            forall|key: Seq<char>| old(self)@.has_policy(key) ==> final(self)@.has_policy(key),
    {
        self.register(
            ChainEntry {
                name: package.name.clone(),
                version: package.version.clone(),
                policy_path,
            },
        );
    }

    /// The text of the chain, as its manifest holds it.
    pub fn to_text(&self) -> (r: String)
        ensures
            r@ == spec_chain_text(self@),
    {
        let ghost head = seq![self@.manifest_path, self@.crate_path];
        let ghost all = self@.entries;
        let mut lines: Vec<String> = Vec::new();
        lines.push(self.manifest_path.clone());
        lines.push(self.crate_path.clone());
        let mut i: usize = 0;
        assert(all.take(0) =~= Seq::empty());
        assert(spec_strings(lines@) =~= head + spec_entry_lines(all.take(0)));
        while i < self.crate_policies.len()
            invariant
                i <= self.crate_policies.len(),
                all == self@.entries,
                head == seq![self@.manifest_path, self@.crate_path],
                spec_strings(lines@) == head + spec_entry_lines(all.take(i as int)),
            decreases self.crate_policies.len() - i,
        {
            let entry = &self.crate_policies[i];
            let ghost before = spec_strings(lines@);
            proof {
                assert(all.take(i + 1).drop_last() == all.take(i as int));
                assert(all.take(i + 1).last() == entry@);
            }
            lines.push(entry.name.clone());
            lines.push(entry.version.clone());
            lines.push(entry.policy_path.clone());
            assert(spec_strings(lines@) =~= before + seq![
                entry@.name,
                entry@.version,
                entry@.policy_path,
            ]);
            assert(head + spec_entry_lines(all.take(i + 1)) =~= before + seq![
                entry@.name,
                entry@.version,
                entry@.policy_path,
            ]);
            i += 1;
        }
        assert(all.take(i as int) == all);
        encode_lines(&lines)
    }

    /// The chain that a text holds, if it is the text of one. Where the
    /// text holds a package version twice, the later entry stands.
    pub fn from_text(text: &str) -> (r: Option<AuditChain>)
        ensures
            match r {
                Some(c) => spec_chain_from_text(text@) == Some(c@) && c@.wf(),
                None => spec_chain_from_text(text@) is None,
            },
    {
        let lines = match decode_lines(text) {
            Some(lines) => lines,
            None => {
                return None;
            },
        };
        if lines.len() < 2 || (lines.len() - 2) % 3 != 0 {
            return None;
        }
        let ghost all = spec_strings(lines@);
        let ghost listed = spec_entries_of_lines(all.skip(2));
        let count = (lines.len() - 2) / 3;
        let mut chain = AuditChain::new(lines[0].clone(), lines[1].clone());
        let mut k: usize = 0;
        assert(listed.take(0) =~= Seq::empty());
        while k < count
            invariant
                k <= count,
                count == (lines.len() - 2) / 3,
                (lines.len() - 2) % 3 == 0,
                lines.len() >= 2,
                all == spec_strings(lines@),
                listed == spec_entries_of_lines(all.skip(2)),
                listed.len() == count,
                chain@.wf(),
                chain@ == (AuditChainView {
                    manifest_path: all[0],
                    crate_path: all[1],
                    entries: spec_register_all(listed.take(k as int)),
                }),
            decreases count - k,
        {
            let at = 2 + 3 * k;
            let entry = ChainEntry {
                name: lines[at].clone(),
                version: lines[at + 1].clone(),
                policy_path: lines[at + 2].clone(),
            };
            proof {
                assert(listed.take(k + 1).drop_last() == listed.take(k as int));
                assert(listed.take(k + 1).last() == listed[k as int]);
                assert(listed[k as int] == entry@);
            }
            chain.register(entry);
            k += 1;
        }
        assert(listed.take(k as int) == listed);
        Some(chain)
    }

    /// The path of the policy of a package version, by its key.
    pub fn policy_path(&self, key: &str) -> (r: Option<&String>)
        requires
            self@.wf(),
        ensures
            match r {
                Some(path) => self@.policy_path(key@) == Some(path@),
                None => self@.policy_path(key@) is None,
            },
    {
        match self.find(key) {
            Some(i) => Some(&self.crate_policies[i].policy_path),
            None => None,
        }
    }

    /// The entries of all versions of the package with the given name, in
    /// the order of the chain.
    pub fn matching_policies(&self, crate_name: &str) -> (r: Vec<ChainEntry>)
        ensures
            spec_entries(r@) == self@.entries.filter(|e: ChainEntryView| e.name == crate_name@),
    {
        let ghost named = |e: ChainEntryView| e.name == crate_name@;
        let ghost all = self@.entries;
        let mut r: Vec<ChainEntry> = Vec::new();
        let mut i: usize = 0;
        proof {
            reveal(Seq::filter);
            assert(spec_entries(r@) =~= all.take(0).filter(named));
        }
        while i < self.crate_policies.len()
            invariant
                i <= self.crate_policies.len(),
                all == self@.entries,
                named == |e: ChainEntryView| e.name == crate_name@,
                spec_entries(r@) == all.take(i as int).filter(named),
            decreases self.crate_policies.len() - i,
        {
            let entry = &self.crate_policies[i];
            proof {
                reveal(Seq::filter);
                assert(all.take(i + 1).drop_last() == all.take(i as int));
                assert(all.take(i + 1).last() == entry@);
            }
            if str_eq(entry.name.as_str(), crate_name) {
                let ghost before = spec_entries(r@);
                r.push(entry.clone());
                assert(spec_entries(r@) =~= before.push(entry@));
            }
            i += 1;
        }
        assert(all.take(i as int) == all);
        r
    }
}

/// The lines of entries hold those entries, three lines to each.
pub proof fn lemma_entries_of_lines(entries: Seq<ChainEntryView>)
    ensures
        spec_entry_lines(entries).len() == 3 * entries.len(),
        spec_entries_of_lines(spec_entry_lines(entries)) == entries,
    decreases entries.len(),
{
    if entries.len() > 0 {
        let front = entries.drop_last();
        lemma_entries_of_lines(front);
        let lines = spec_entry_lines(entries);
        let read = spec_entries_of_lines(lines);
        assert(read.len() == entries.len());
        assert forall|i: int| 0 <= i < entries.len() implies read[i] == entries[i] by {
            if i < front.len() {
                assert(spec_entries_of_lines(spec_entry_lines(front))[i] == front[i]);
                assert(lines[3 * i] == spec_entry_lines(front)[3 * i]);
                assert(lines[3 * i + 1] == spec_entry_lines(front)[3 * i + 1]);
                assert(lines[3 * i + 2] == spec_entry_lines(front)[3 * i + 2]);
            }
        }
        assert(read =~= entries);
    } else {
        assert(spec_entries_of_lines(spec_entry_lines(entries)) =~= entries);
    }
}

/// Registering entries of different package versions one after the other
/// gives those entries in their order.
pub proof fn lemma_register_all_distinct(entries: Seq<ChainEntryView>)
    requires
        spec_keys(entries).no_duplicates(),
    ensures
        spec_register_all(entries) == entries,
    decreases entries.len(),
{
    if entries.len() > 0 {
        let front = entries.drop_last();
        let keys = spec_keys(entries);
        assert(spec_keys(front) =~= keys.drop_last());
        assert(spec_keys(front).no_duplicates()) by {
            assert forall|a: int, b: int|
                0 <= a < front.len() && 0 <= b < front.len() && a != b implies spec_keys(front)[a]
                != spec_keys(front)[b] by {
                assert(keys[a] != keys[b]);
            }
        }
        lemma_register_all_distinct(front);
        if spec_keys(front).contains(entries.last().key()) {
            let j = choose|j: int| 0 <= j < front.len() && spec_keys(front)[j] == entries.last().key();
            assert(keys[j] == keys[entries.len() - 1]);
        }
        assert(front.push(entries.last()) =~= entries);
    }
}

/// Loading the manifest that was saved gives back the chain.
pub proof fn lemma_chain_round_trip(c: AuditChainView)
    requires
        c.wf(),
    ensures
        spec_chain_from_text(spec_chain_text(c)) == Some(c),
{
    let lines = seq![c.manifest_path, c.crate_path] + spec_entry_lines(c.entries);
    lemma_lines_round_trip(lines);
    lemma_entries_of_lines(c.entries);
    lemma_register_all_distinct(c.entries);
    assert(lines.skip(2) =~= spec_entry_lines(c.entries));
    assert((3 * c.entries.len()) % 3 == 0) by (nonlinear_arith);
}

} // verus!
