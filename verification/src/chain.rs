//! Making an audit chain: the decisions between the steps that touch the
//! file system, the network and the source code.
//!
//! The packages are visited dependencies first. For each one a policy is
//! made from a scan of its source, with the caller-checked functions of its
//! dependencies as further sinks, and registered in the chain. What is read
//! from disk is handed in as plain values; what is to be done on disk is
//! handed out as a task.

use vstd::prelude::*;
use vstd::string::*;

use crate::audit_chain::AuditChain;
use crate::audit_chain::AuditChainView;
use crate::audit_chain::ChainEntry;
use crate::ident::CanonicalPath;
use crate::audit_chain::spec_keys;
use crate::audit_chain::spec_register;
use crate::audit_chain::ChainEntryView;
use crate::graph::lemma_dependency_graph;
use crate::graph::lemma_index_of_unique;
use crate::graph::make_dependency_graph;
use crate::graph::spec_has_edge;
use crate::graph::post_order;
use crate::graph::spec_acyclic;
use crate::graph::spec_dependency_graph;
use crate::graph::spec_is_post_order;
use crate::graph::spec_node_seq;
use crate::graph::spec_reaches;
use crate::graph::DependencyGraph;
use crate::graph::DependencyGraphView;
use crate::package::spec_dependencies;
use crate::package::spec_packages;
use crate::text::spec_strings;
use crate::package::Dependency;
use crate::package::DependencyView;
use crate::package::Package;
use crate::package::PackageView;
use crate::policy::push_distinct;
use crate::policy::spec_paths;
use crate::policy::PolicyFile;
use crate::policy::PolicyFileView;
use crate::text::joined;
use crate::text::push_char;
use crate::text::spec_distinct;
use crate::text::str_eq;

verus! {

/// What the user asked for when a chain is created.
#[derive(Debug)]
pub struct Create {
    /// Path to the root package
    pub crate_path: String,
    /// Path to the manifest of the chain
    pub manifest_path: String,
    /// Directory of the policies
    pub policy_path: String,
    /// Whether policies that exist are made anew
    pub force_overwrite: bool,
}

/// What a review shows.
#[derive(Clone, Copy, Debug, PartialEq, Eq, Structural)]
pub enum ReviewType {
    PubFuns,
    All,
}

impl ReviewType {
    /// The name of the review type on the command line.
    pub fn to_string(&self) -> (r: String)
        ensures
            r@ == match self {
                ReviewType::PubFuns => "pub-funs"@,
                ReviewType::All => "all"@,
            },
    {
        match self {
            ReviewType::PubFuns => String::from_str("pub-funs"),
            ReviewType::All => String::from_str("all"),
        }
    }
}

/// What stands at the path where a policy is to be saved.
#[derive(Clone, Copy, Debug, PartialEq, Eq, Structural)]
pub enum PathState {
    Missing,
    File,
    Directory,
}

/// What is done about the policy of a package.
#[derive(Clone, Copy, Debug, PartialEq, Eq, Structural)]
pub enum PolicyPlan {
    /// No policy is there: make one.
    Create,
    /// A policy is there and is made anew: remove it, then make one.
    Overwrite,
    /// A policy is there and is kept as it is.
    Reuse,
}

/// Why a chain could not be made.
#[derive(Debug, PartialEq, Eq)]
pub enum ChainError {
    /// The root package is not among the packages of the lockfile.
    RootNotFound,
    /// A package is depended on, but the lockfile does not list it.
    MissingPackage(String),
    /// A directory stands where the policy is to be saved.
    PolicyPathIsDirectory,
    /// The policy of the root package exists and is not to be overwritten.
    PolicyExists,
    /// The policy of a dependency could not be read.
    DependencyPolicyUnreadable(String),
    /// Making the policy of a package failed: the key of the package, and
    /// the cause.
    CreationFailed(String, String),
}

/// What a [`ChainError`] holds.
pub enum ChainErrorView {
    RootNotFound,
    MissingPackage(Seq<char>),
    PolicyPathIsDirectory,
    PolicyExists,
    DependencyPolicyUnreadable(Seq<char>),
    CreationFailed(Seq<char>, Seq<char>),
}

impl View for ChainError {
    type V = ChainErrorView;

    open spec fn view(&self) -> ChainErrorView {
        match self {
            ChainError::RootNotFound => ChainErrorView::RootNotFound,
            ChainError::MissingPackage(key) => ChainErrorView::MissingPackage(key@),
            ChainError::PolicyPathIsDirectory => ChainErrorView::PolicyPathIsDirectory,
            ChainError::PolicyExists => ChainErrorView::PolicyExists,
            ChainError::DependencyPolicyUnreadable(key) => ChainErrorView::DependencyPolicyUnreadable(
                key@,
            ),
            ChainError::CreationFailed(package, message) => ChainErrorView::CreationFailed(
                package@,
                message@,
            ),
        }
    }
}

/// The message of an error.
pub open spec fn spec_error_message(e: ChainErrorView) -> Seq<char> {
    match e {
        ChainErrorView::RootNotFound => "Root package is not in the lockfile"@,
        ChainErrorView::MissingPackage(key) => "Package is not in the lockfile: "@ + key,
        ChainErrorView::PolicyPathIsDirectory => "Policy path is a directory"@,
        ChainErrorView::PolicyExists => "Policy file already exists"@,
        ChainErrorView::DependencyPolicyUnreadable(key) =>
            "couldnt read dependency policy file (maybe created it out of order): "@ + key,
        ChainErrorView::CreationFailed(package, message) => "Audit chain creation failed for "@
            + package + ": "@ + message,
    }
}

impl ChainError {
    /// The message of the error.
    pub fn to_string(&self) -> (r: String)
        ensures
            r@ == spec_error_message(self@),
    {
        match self {
            ChainError::RootNotFound => String::from_str("Root package is not in the lockfile"),
            ChainError::MissingPackage(key) => joined(
                "Package is not in the lockfile: ",
                key.as_str(),
            ),
            ChainError::PolicyPathIsDirectory => String::from_str("Policy path is a directory"),
            ChainError::PolicyExists => String::from_str("Policy file already exists"),
            ChainError::DependencyPolicyUnreadable(key) => joined(
                "couldnt read dependency policy file (maybe created it out of order): ",
                key.as_str(),
            ),
            ChainError::CreationFailed(package, message) => {
                let mut r = joined("Audit chain creation failed for ", package.as_str());
                r.append(": ");
                r.append(message.as_str());
                r
            },
        }
    }
}

/// Where the source of a package comes from.
#[derive(Debug, PartialEq, Eq)]
pub enum PackageSource {
    /// The root package: its source lies at this path.
    Local(String),
    /// Another package: its source is fetched into the download directory.
    Fetch { name: String, version: String, download_path: String },
}

/// What a [`PackageSource`] holds.
pub enum PackageSourceView {
    Local(Seq<char>),
    Fetch { name: Seq<char>, version: Seq<char>, download_path: Seq<char> },
}

impl View for PackageSource {
    type V = PackageSourceView;

    open spec fn view(&self) -> PackageSourceView {
        match self {
            PackageSource::Local(path) => PackageSourceView::Local(path@),
            PackageSource::Fetch { name, version, download_path } => PackageSourceView::Fetch {
                name: name@,
                version: version@,
                download_path: download_path@,
            },
        }
    }
}

/// A policy as it was read from disk, with the path it was read from.
#[derive(Debug)]
pub struct StoredPolicy {
    pub path: String,
    pub policy: PolicyFile,
}

/// What a [`StoredPolicy`] holds.
pub struct StoredPolicyView {
    pub path: Seq<char>,
    pub policy: PolicyFileView,
}

impl View for StoredPolicy {
    type V = StoredPolicyView;

    open spec fn view(&self) -> StoredPolicyView {
        StoredPolicyView { path: self.path@, policy: self.policy@ }
    }
}

/// The views of a sequence of stored policies.
pub open spec fn spec_store(store: Seq<StoredPolicy>) -> Seq<StoredPolicyView> {
    store.map_values(|s: StoredPolicy| s@)
}

/// What is to be done for the policy of one package.
#[derive(Debug)]
pub struct PolicyTask {
    /// Where the policy is saved
    pub policy_path: String,
    /// Where the source of the package comes from
    pub source: PackageSource,
    /// Whether a policy is made
    pub plan: PolicyPlan,
    /// The caller-checked functions of the dependencies, which count as
    /// sinks when the package is scanned. Empty where no policy is made.
    pub sinks: Vec<CanonicalPath>,
}

/// What a [`PolicyTask`] holds.
pub struct PolicyTaskView {
    pub policy_path: Seq<char>,
    pub source: PackageSourceView,
    pub plan: PolicyPlan,
    pub sinks: Seq<Seq<char>>,
}

impl View for PolicyTask {
    type V = PolicyTaskView;

    open spec fn view(&self) -> PolicyTaskView {
        PolicyTaskView {
            policy_path: self.policy_path@,
            source: self.source@,
            plan: self.plan,
            sinks: spec_paths(self.sinks@),
        }
    }
}

/// What a [`Create`] holds.
pub struct CreateView {
    pub crate_path: Seq<char>,
    pub manifest_path: Seq<char>,
    pub policy_path: Seq<char>,
    pub force_overwrite: bool,
}

impl View for Create {
    type V = CreateView;

    open spec fn view(&self) -> CreateView {
        CreateView {
            crate_path: self.crate_path@,
            manifest_path: self.manifest_path@,
            policy_path: self.policy_path@,
            force_overwrite: self.force_overwrite,
        }
    }
}

impl Clone for Create {
    fn clone(&self) -> (r: Self)
        ensures
            r@ == self@,
    {
        Create {
            crate_path: self.crate_path.clone(),
            manifest_path: self.manifest_path.clone(),
            policy_path: self.policy_path.clone(),
            force_overwrite: self.force_overwrite,
        }
    }
}

/// The path of the policy of a package version: in the policy directory,
/// named by the key of the package, with the extension `policy`.
pub open spec fn spec_policy_file_path(
    policy_dir: Seq<char>,
    name: Seq<char>,
    version: Seq<char>,
) -> Seq<char> {
    policy_dir + seq!['/'] + name + seq!['-'] + version + ".policy"@
}

/// The path of the policy of a package version.
pub fn policy_file_path(policy_dir: &str, name: &str, version: &str) -> (r: String)
    ensures
        r@ == spec_policy_file_path(policy_dir@, name@, version@),
{
    let mut r = policy_dir.to_owned();
    push_char(&mut r, '/');
    r.append(name);
    push_char(&mut r, '-');
    r.append(version);
    r.append(".policy");
    r
}

/// What is done about the policy of a package, by what stands at its path.
/// A directory there is an error. A policy that exists is overwritten only
/// if that is forced. Without force the policy of a dependency is kept and
/// used again, while that of the root package is in the way.
pub open spec fn spec_policy_plan(state: PathState, is_root: bool, force: bool) -> Result<
    PolicyPlan,
    ChainErrorView,
> {
    match state {
        PathState::Directory => Err(ChainErrorView::PolicyPathIsDirectory),
        PathState::Missing => Ok(PolicyPlan::Create),
        PathState::File => if force {
            Ok(PolicyPlan::Overwrite)
        } else if is_root {
            Err(ChainErrorView::PolicyExists)
        } else {
            Ok(PolicyPlan::Reuse)
        },
    }
}

/// Decides what is done about the policy of a package.
pub fn plan_policy(state: PathState, is_root: bool, force: bool) -> (r: Result<
    PolicyPlan,
    ChainError,
>)
    ensures
        match r {
            Ok(plan) => spec_policy_plan(state, is_root, force) == Ok::<PolicyPlan, ChainErrorView>(
                plan,
            ),
            Err(e) => spec_policy_plan(state, is_root, force) == Err::<PolicyPlan, ChainErrorView>(
                e@,
            ),
        },
{
    match state {
        PathState::Directory => Err(ChainError::PolicyPathIsDirectory),
        PathState::Missing => Ok(PolicyPlan::Create),
        PathState::File => {
            if force {
                Ok(PolicyPlan::Overwrite)
            } else if is_root {
                Err(ChainError::PolicyExists)
            } else {
                Ok(PolicyPlan::Reuse)
            }
        },
    }
}

/// Unless it is forced, no policy that exists is written: making a chain a
/// second time leaves the policies of the first run as they are. The
/// policies of dependencies are used again; only the root's own policy
/// stops the run. A policy that is missing is always made.
pub proof fn lemma_policies_kept_without_force(state: PathState, is_root: bool)
    ensures
        state == PathState::File ==> spec_policy_plan(state, is_root, false) != Ok::<
            PolicyPlan,
            ChainErrorView,
        >(PolicyPlan::Create) && spec_policy_plan(state, is_root, false) != Ok::<
            PolicyPlan,
            ChainErrorView,
        >(PolicyPlan::Overwrite),
        state == PathState::File && !is_root ==> spec_policy_plan(state, is_root, false) == Ok::<
            PolicyPlan,
            ChainErrorView,
        >(PolicyPlan::Reuse),
        state == PathState::Missing ==> spec_policy_plan(state, is_root, false) == Ok::<
            PolicyPlan,
            ChainErrorView,
        >(PolicyPlan::Create),
{
}

/// The policy that was read from the given path: the first of the store
/// with that path.
pub open spec fn spec_stored_policy(store: Seq<StoredPolicyView>, path: Seq<char>) -> Option<
    PolicyFileView,
>
    decreases store.len(),
{
    if store.len() == 0 {
        None
    } else if store[0].path == path {
        Some(store[0].policy)
    } else {
        spec_stored_policy(store.drop_first(), path)
    }
}

/// The policy of a dependency: the one that was read from the path that
/// the chain holds for it.
pub open spec fn spec_dependency_policy(
    chain: AuditChainView,
    store: Seq<StoredPolicyView>,
    dep: DependencyView,
) -> Option<PolicyFileView> {
    match chain.policy_path(dep.key()) {
        Some(path) => spec_stored_policy(store, path),
        None => None,
    }
}

/// The caller-checked functions of the policies of the dependencies, one
/// dependency after the other. A dependency without a policy adds none.
pub open spec fn spec_all_dependency_sinks(
    chain: AuditChainView,
    store: Seq<StoredPolicyView>,
    deps: Seq<DependencyView>,
) -> Seq<Seq<char>>
    decreases deps.len(),
{
    if deps.len() == 0 {
        Seq::empty()
    } else {
        spec_all_dependency_sinks(chain, store, deps.drop_last()) + match spec_dependency_policy(
            chain,
            store,
            deps.last(),
        ) {
            Some(policy) => policy.pub_caller_checked,
            None => Seq::empty(),
        }
    }
}

/// What collecting the sinks of the dependencies gives: the caller-checked
/// functions of all their policies, each once; or, where a policy is not
/// there, the error that names the first dependency without one.
pub open spec fn spec_collect_dependency_sinks(
    chain: AuditChainView,
    store: Seq<StoredPolicyView>,
    deps: Seq<DependencyView>,
) -> Result<Seq<Seq<char>>, ChainErrorView>
    decreases deps.len(),
{
    if deps.len() == 0 {
        Ok(Seq::empty())
    } else {
        match spec_collect_dependency_sinks(chain, store, deps.drop_last()) {
            Err(e) => Err(e),
            Ok(_) => match spec_dependency_policy(chain, store, deps.last()) {
                None => Err(ChainErrorView::DependencyPolicyUnreadable(deps.last().key())),
                Some(_) => Ok(spec_distinct(spec_all_dependency_sinks(chain, store, deps))),
            },
        }
    }
}

fn stored_policy<'a>(store: &'a Vec<StoredPolicy>, path: &str) -> (r: Option<&'a PolicyFile>)
    ensures
        match r {
            Some(policy) => spec_stored_policy(spec_store(store@), path@) == Some(policy@),
            None => spec_stored_policy(spec_store(store@), path@) is None,
        },
{
    let ghost all = spec_store(store@);
    let mut i: usize = 0;
    assert(all.skip(0) == all);
    while i < store.len()
        invariant
            i <= store.len(),
            all == spec_store(store@),
            spec_stored_policy(all, path@) == spec_stored_policy(all.skip(i as int), path@),
        decreases store.len() - i,
    {
        assert(all.skip(i as int).drop_first() == all.skip(i + 1));
        assert(all.skip(i as int)[0] == store@[i as int]@);
        if str_eq(store[i].path.as_str(), path) {
            return Some(&store[i].policy);
        }
        i += 1;
    }
    assert(all.skip(i as int).len() == 0);
    None
}

/// Collects the sinks that the dependencies of a package hand on to it:
/// the caller-checked functions of their policies. Every dependency must
/// have a policy in the chain, and that policy must have been read.
pub fn collect_dependency_sinks(
    chain: &AuditChain,
    deps: &Vec<Dependency>,
    store: &Vec<StoredPolicy>,
) -> (r: Result<Vec<CanonicalPath>, ChainError>)
    requires
        chain@.wf(),
    ensures
        match r {
            Ok(sinks) => spec_collect_dependency_sinks(
                chain@,
                spec_store(store@),
                spec_dependencies(deps@),
            ) == Ok::<Seq<Seq<char>>, ChainErrorView>(spec_paths(sinks@)),
            Err(e) => spec_collect_dependency_sinks(
                chain@,
                spec_store(store@),
                spec_dependencies(deps@),
            ) == Err::<Seq<Seq<char>>, ChainErrorView>(e@),
        },
{
    let ghost all = spec_dependencies(deps@);
    let ghost stored = spec_store(store@);
    let mut sinks: Vec<CanonicalPath> = Vec::new();
    let mut i: usize = 0;
    proof {
        assert(all.take(0) =~= Seq::empty());
        assert(spec_paths(sinks@) =~= Seq::empty());
    }
    while i < deps.len()
        invariant
            i <= deps.len(),
            chain@.wf(),
            all == spec_dependencies(deps@),
            stored == spec_store(store@),
            spec_collect_dependency_sinks(chain@, stored, all.take(i as int)) == Ok::<
                Seq<Seq<char>>,
                ChainErrorView,
            >(spec_paths(sinks@)),
            spec_paths(sinks@) == spec_distinct(
                spec_all_dependency_sinks(chain@, stored, all.take(i as int)),
            ),
        decreases deps.len() - i,
    {
        let dep = &deps[i];
        let dep_key = dep.key();
        proof {
            assert(all.take(i + 1).drop_last() == all.take(i as int));
            assert(all.take(i + 1).last() == dep@);
        }
        let policy = match chain.policy_path(dep_key.as_str()) {
            Some(path) => stored_policy(store, path.as_str()),
            None => None,
        };
        match policy {
            None => {
                proof {
                    lemma_collect_fails_on(chain@, stored, all, i as int);
                }
                return Err(ChainError::DependencyPolicyUnreadable(dep_key));
            },
            Some(policy) => {
                let ghost before = spec_all_dependency_sinks(chain@, stored, all.take(i as int));
                let ghost added = policy@.pub_caller_checked;
                let mut j: usize = 0;
                assert(before + added.take(0) =~= before);
                while j < policy.pub_caller_checked.len()
                    invariant
                        j <= policy.pub_caller_checked.len(),
                        added == spec_paths(policy.pub_caller_checked@),
                        spec_paths(sinks@) == spec_distinct(before + added.take(j as int)),
                    decreases policy.pub_caller_checked.len() - j,
                {
                    proof {
                        let next = before + added.take(j + 1);
                        assert(next.drop_last() =~= before + added.take(j as int));
                        assert(next.last() == policy.pub_caller_checked@[j as int]@);
                    }
                    push_distinct(&mut sinks, policy.pub_caller_checked[j].clone());
                    j += 1;
                }
                assert(added.take(j as int) == added);
            },
        }
        i += 1;
    }
    assert(all.take(i as int) == all);
    Ok(sinks)
}

/// Where the policy of the dependency at `i` is missing and those of the
/// dependencies before it are there, collecting fails on that dependency,
/// however many follow.
proof fn lemma_collect_fails_on(
    chain: AuditChainView,
    store: Seq<StoredPolicyView>,
    deps: Seq<DependencyView>,
    i: int,
)
    requires
        0 <= i < deps.len(),
        spec_collect_dependency_sinks(chain, store, deps.take(i)) is Ok,
        spec_dependency_policy(chain, store, deps[i]) is None,
    ensures
        spec_collect_dependency_sinks(chain, store, deps) == Err::<
            Seq<Seq<char>>,
            ChainErrorView,
        >(ChainErrorView::DependencyPolicyUnreadable(deps[i].key())),
    decreases deps.len() - i,
{
    if i == deps.len() - 1 {
        assert(deps.drop_last() == deps.take(i));
    } else {
        assert(deps.drop_last().take(i) == deps.take(i));
        lemma_collect_fails_on(chain, store, deps.drop_last(), i);
    }
}

/// What is to be done for the policy of a package: where it is saved,
/// where the source comes from, and whether it is made, with the sinks of
/// the dependencies where it is. The path is checked first; the policies
/// of the dependencies are read only where a policy is made.
pub open spec fn spec_make_new_policy(
    chain: AuditChainView,
    package: PackageView,
    root_name: Seq<char>,
    args: CreateView,
    download_path: Seq<char>,
    store: Seq<StoredPolicyView>,
    state: PathState,
) -> Result<PolicyTaskView, ChainErrorView> {
    let is_root = package.key() == root_name;
    let policy_path = spec_policy_file_path(args.policy_path, package.name, package.version);
    let source = if is_root {
        PackageSourceView::Local(args.crate_path)
    } else {
        PackageSourceView::Fetch { name: package.name, version: package.version, download_path }
    };
    match spec_policy_plan(state, is_root, args.force_overwrite) {
        Err(e) => Err(e),
        Ok(PolicyPlan::Reuse) => Ok(
            PolicyTaskView { policy_path, source, plan: PolicyPlan::Reuse, sinks: Seq::empty() },
        ),
        Ok(plan) => match spec_collect_dependency_sinks(chain, store, package.dependencies) {
            Err(e) => Err(e),
            Ok(sinks) => Ok(PolicyTaskView { policy_path, source, plan, sinks }),
        },
    }
}

/// Decides what is to be done for the policy of a package, given what
/// stands at the path of the policy and the policies that were read.
pub fn make_new_policy(
    chain: &AuditChain,
    package: &Package,
    root_name: &str,
    args: &Create,
    crate_download_path: &str,
    store: &Vec<StoredPolicy>,
    state: PathState,
) -> (r: Result<PolicyTask, ChainError>)
    requires
        chain@.wf(),
    ensures
        match r {
            Ok(task) => spec_make_new_policy(
                chain@,
                package@,
                root_name@,
                args@,
                crate_download_path@,
                spec_store(store@),
                state,
            ) == Ok::<PolicyTaskView, ChainErrorView>(task@),
            Err(e) => spec_make_new_policy(
                chain@,
                package@,
                root_name@,
                args@,
                crate_download_path@,
                spec_store(store@),
                state,
            ) == Err::<PolicyTaskView, ChainErrorView>(e@),
        },
{
    let policy_path = policy_file_path(
        args.policy_path.as_str(),
        package.name.as_str(),
        package.version.as_str(),
    );
    let key = package.key();
    let is_root = str_eq(key.as_str(), root_name);
    let source = if is_root {
        PackageSource::Local(args.crate_path.clone())
    } else {
        PackageSource::Fetch {
            name: package.name.clone(),
            version: package.version.clone(),
            download_path: crate_download_path.to_owned(),
        }
    };
    let plan = match plan_policy(state, is_root, args.force_overwrite) {
        Ok(plan) => plan,
        Err(e) => {
            return Err(e);
        },
    };
    let sinks = match plan {
        PolicyPlan::Reuse => {
            let sinks: Vec<CanonicalPath> = Vec::new();
            assert(spec_paths(sinks@) =~= Seq::empty());
            sinks
        },
        _ => match collect_dependency_sinks(chain, &package.dependencies, store) {
            Ok(sinks) => sinks,
            Err(e) => {
                return Err(e);
            },
        },
    };
    Ok(PolicyTask { policy_path, source, plan, sinks })
}

/// The state of making a chain: the chain as far as it is made, the graph,
/// the order of the visit, and how many packages of it are done.
pub struct ChainRun {
    chain: AuditChain,
    graph: DependencyGraph,
    order: Vec<usize>,
    done: usize,
    root: usize,
}

/// What a [`ChainRun`] holds.
pub struct ChainRunView {
    pub chain: AuditChainView,
    pub graph: DependencyGraphView,
    pub order: Seq<int>,
    pub done: nat,
    pub root: int,
}

impl ChainRunView {
    /// The keys of the packages that are done, in the order of their
    /// visit.
    pub open spec fn done_keys(self) -> Seq<Seq<char>> {
        Seq::new(self.done, |i: int| self.graph.nodes[self.order[i]])
    }

    /// The order of the visit is the post-order of the graph from the
    /// root, and the chain holds a policy for exactly the packages that
    /// are done, in the order of their visit.
    pub open spec fn wf(self) -> bool {
        &&& self.chain.wf()
        &&& self.graph.wf()
        &&& 0 <= self.root < self.graph.nodes.len()
        &&& self.order == post_order(self.graph.nodes.len(), self.graph.edges, self.root)
        &&& spec_is_post_order(self.graph.nodes.len(), self.graph.edges, self.root, self.order)
        &&& self.done <= self.order.len()
        &&& spec_keys(self.chain.entries) == self.done_keys()
        &&& forall|i: int|
            0 <= i < self.done ==> self.chain.has_policy(self.graph.nodes[#[trigger] self.order[i]])
    }

    /// Whether every package has been visited.
    pub open spec fn finished(self) -> bool {
        self.done == self.order.len()
    }

    /// The node of the package whose turn it is.
    pub open spec fn current(self) -> int {
        self.order[self.done as int]
    }
}

impl View for ChainRun {
    type V = ChainRunView;

    closed spec fn view(&self) -> ChainRunView {
        ChainRunView {
            chain: self.chain@,
            graph: self.graph@,
            order: spec_node_seq(self.order@),
            done: self.done as nat,
            root: self.root as int,
        }
    }
}

/// Starts making the chain of a root package: builds the dependency graph
/// of the packages of the lockfile and fixes the order in which they are
/// visited. The root must be among the packages.
pub fn create_new_audit_chain(args: &Create, packages: &Vec<Package>, root_name: &str) -> (r:
    Result<ChainRun, ChainError>)
    ensures
        match r {
            Ok(run) => {
                &&& run.wf()
                &&& run@.graph == spec_dependency_graph(spec_packages(packages@))
                &&& run@.graph.nodes[run@.root] == root_name@
                &&& run@.done == 0
                &&& run@.chain == (AuditChainView {
                    manifest_path: args@.manifest_path,
                    crate_path: args@.crate_path,
                    entries: Seq::empty(),
                })
            },
            Err(e) => {
                &&& e@ == ChainErrorView::RootNotFound
                &&& !spec_dependency_graph(spec_packages(packages@)).nodes.contains(root_name@)
            },
        },
{
    let chain = AuditChain::new(args.manifest_path.clone(), args.crate_path.clone());
    let (graph, root) = make_dependency_graph(packages, root_name);
    match root {
        None => Err(ChainError::RootNotFound),
        Some(root) => {
            let order = graph.visit_order(root);
            let run = ChainRun { chain, graph, order, done: 0, root };
            proof {
                run.graph.lemma_wf_view();
                assert(spec_keys(run@.chain.entries) =~= run@.done_keys());
            }
            Ok(run)
        },
    }
}

impl ChainRun {
    /// The run is consistent.
    pub closed spec fn wf(&self) -> bool {
        &&& self.graph.wf()
        &&& self@.wf()
    }

    /// A consistent run has a well-formed view.
    pub proof fn lemma_wf_view(&self)
        requires
            self.wf(),
        ensures
            self@.wf(),
    {
    }

    /// The chain as far as it is made.
    pub fn chain(&self) -> (r: &AuditChain)
        ensures
            r@ == self@.chain,
    {
        &self.chain
    }

    /// The dependency graph that is visited.
    pub fn graph(&self) -> (r: &DependencyGraph)
        ensures
            r@ == self@.graph,
            self.wf() ==> r.wf(),
    {
        &self.graph
    }

    /// The nodes of the packages in the order of their visit.
    pub fn order(&self) -> (r: &Vec<usize>)
        ensures
            spec_node_seq(r@) == self@.order,
    {
        &self.order
    }

    /// Whether every package has been visited.
    pub fn is_finished(&self) -> (r: bool)
        requires
            self.wf(),
        ensures
            r == self@.finished(),
    {
        self.done >= self.order.len()
    }

    /// The package whose policy is to be made next; none when all are
    /// done. A package that the lockfile does not list stops the run.
    pub fn next_package(&self) -> (r: Result<Option<&Package>, ChainError>)
        requires
            self.wf(),
        ensures
            match r {
                Ok(None) => self@.finished(),
                Ok(Some(p)) => {
                    &&& !self@.finished()
                    &&& self@.graph.packages.dom().contains(self@.current())
                    &&& p@ == self@.graph.packages[self@.current()]
                    &&& p@.key() == self@.graph.nodes[self@.current()]
                },
                Err(e) => {
                    &&& !self@.finished()
                    &&& !self@.graph.packages.dom().contains(self@.current())
                    &&& e@ == ChainErrorView::MissingPackage(self@.graph.nodes[self@.current()])
                },
            },
    {
        if self.done >= self.order.len() {
            return Ok(None);
        }
        let node = self.order[self.done];
        assert(spec_node_seq(self.order@)[self.done as int] == node);
        match self.graph.package(node) {
            Some(p) => Ok(Some(p)),
            None => Err(ChainError::MissingPackage(self.graph.key(node).clone())),
        }
    }

    /// Records how making the policy of the current package ended. A
    /// policy that was saved, or kept, is registered in the chain under its
    /// path, and the run goes on to the next package. A failure ends the
    /// run and leaves it as it is; the error names the package and keeps
    /// the cause.
    pub fn record(&mut self, outcome: Result<String, String>) -> (r: Result<(), ChainError>)
        requires
            old(self).wf(),
            !old(self)@.finished(),
            old(self)@.graph.packages.dom().contains(old(self)@.current()),
        ensures
            final(self).wf(),
            match outcome {
                Ok(policy_path) => {
                    &&& r is Ok
                    &&& final(self)@ == (ChainRunView {
                        chain: AuditChainView {
                            entries: spec_register(
                                old(self)@.chain.entries,
                                ChainEntryView {
                                    name: old(self)@.graph.packages[old(self)@.current()].name,
                                    version: old(self)@.graph.packages[old(self)@.current()].version,
                                    policy_path: policy_path@,
                                },
                            ),
                            ..old(self)@.chain
                        },
                        done: old(self)@.done + 1,
                        ..old(self)@
                    })
                },
                Err(message) => {
                    &&& r matches Err(e) && e@ == ChainErrorView::CreationFailed(
                        old(self)@.graph.nodes[old(self)@.current()],
                        message@,
                    )
                    &&& final(self)@ == old(self)@
                },
            },
    {
        let len = self.order.len();
        assert(self.done < len);
        let node = self.order[self.done];
        assert(spec_node_seq(self.order@)[self.done as int] == node);
        proof {
            self.graph.lemma_wf_view();
        }
        match outcome {
            Err(message) => Err(ChainError::CreationFailed(self.graph.key(node).clone(), message)),
            Ok(policy_path) => {
                let next = self.done + 1;
                let ghost before = self@;
                let ghost key = before.graph.nodes[node as int];
                proof {
                    lemma_not_done(before);
                }
                match self.graph.package(node) {
                    Some(package) => {
                        self.chain.add_crate_policy(package, policy_path);
                    },
                    None => {},
                }
                self.done = next;
                proof {
                    assert(spec_keys(self@.chain.entries) =~= spec_keys(before.chain.entries).push(
                        key,
                    ));
                    assert(self@.done_keys() =~= before.done_keys().push(key));
                }
                Ok(())
            },
        }
    }

    /// The chain, when the run is over.
    pub fn into_chain(self) -> (r: AuditChain)
        ensures
            r@ == self@.chain,
    {
        self.chain
    }
}

/// The package whose turn it is has no policy in the chain yet.
pub proof fn lemma_not_done(run: ChainRunView)
    requires
        run.wf(),
        !run.finished(),
    ensures
        !run.chain.has_policy(run.graph.nodes[run.current()]),
{
    let keys = run.done_keys();
    let key = run.graph.nodes[run.current()];
    if keys.contains(key) {
        let i = choose|i: int| 0 <= i < keys.len() && keys[i] == key;
        assert(0 <= run.order[i] < run.graph.nodes.len());
        assert(0 <= run.order[run.done as int] < run.graph.nodes.len());
        assert(run.order[i] != run.order[run.done as int]);
    }
}

/// The chain holds a policy for a package exactly if the package is done.
pub proof fn lemma_policies_of_done(run: ChainRunView, key: Seq<char>)
    requires
        run.wf(),
    ensures
        run.chain.has_policy(key) <==> run.done_keys().contains(key),
{
}

/// Every package that is visited is reached from the root, and a package
/// that the root does not reach gets no policy.
pub proof fn lemma_only_reached_packages(run: ChainRunView, node: int)
    requires
        run.wf(),
        0 <= node < run.graph.nodes.len(),
        !spec_reaches(run.graph.edges, run.root, node),
    ensures
        !run.order.contains(node),
        !run.chain.has_policy(run.graph.nodes[node]),
{
    let keys = run.done_keys();
    let key = run.graph.nodes[node];
    if run.order.contains(node) {
        let i = choose|i: int| 0 <= i < run.order.len() && run.order[i] == node;
        assert(spec_reaches(run.graph.edges, run.root, run.order[i]));
    }
    if keys.contains(key) {
        let i = choose|i: int| 0 <= i < keys.len() && keys[i] == key;
        let other = run.order[i];
        assert(0 <= other < run.graph.nodes.len());
        assert(run.graph.nodes[other] == run.graph.nodes[node]);
        assert(other == node);
        assert(run.order.contains(node));
    }
}

/// Dependencies come first. In a graph without cycles, when it is the turn
/// of a package, the chain holds a policy for every package that it has an
/// edge to.
pub proof fn lemma_dependencies_first(run: ChainRunView, e: int)
    requires
        run.wf(),
        spec_acyclic(run.graph.edges),
        !run.finished(),
        0 <= e < run.graph.edges.len(),
        run.graph.edges[e].0 == run.current(),
    ensures
        run.chain.has_policy(run.graph.nodes[run.graph.edges[e].1]),
{
    let before = run.order.take(run.done as int);
    assert(run.order[run.done as int] == run.graph.edges[e].0);
    assert(before.contains(run.graph.edges[e].1));
    let j = choose|j: int| 0 <= j < before.len() && before[j] == run.graph.edges[e].1;
    assert(run.order[j] == run.graph.edges[e].1);
}

/// Dependencies come first, as the packages declare them. When it is the
/// turn of a package of the lockfile, and the lockfile holds no cycle, the
/// chain holds a policy for every dependency that the package declares.
pub proof fn lemma_declared_dependencies_first(
    run: ChainRunView,
    packages: Seq<PackageView>,
    k: int,
    j: int,
)
    requires
        run.wf(),
        run.graph == spec_dependency_graph(packages),
        spec_acyclic(run.graph.edges),
        !run.finished(),
        0 <= k < packages.len(),
        packages[k].key() == run.graph.nodes[run.current()],
        0 <= j < packages[k].dependencies.len(),
    ensures
        run.chain.has_policy(packages[k].dependencies[j].key()),
{
    let g = run.graph;
    let package = packages[k].key();
    let dependency = packages[k].dependencies[j].key();
    lemma_dependency_graph(packages);
    assert(g.nodes.contains(packages[k].dependencies[j].key()));
    assert(spec_has_edge(g, package, dependency));
    let e = choose|e: int|
        0 <= e < g.edges.len() && #[trigger] g.edges[e] == (
            g.nodes.index_of(package),
            g.nodes.index_of(dependency),
        );
    assert(0 <= run.order[run.done as int] < g.nodes.len());
    lemma_index_of_unique(g.nodes, run.current());
    lemma_dependencies_first(run, e);
    let at = g.nodes.index_of(dependency);
    assert(0 <= at < g.nodes.len() && g.nodes[at] == dependency);
}

/// No package is visited twice, however many packages depend on it, and
/// the root is visited last.
pub proof fn lemma_each_package_once(run: ChainRunView)
    requires
        run.wf(),
    ensures
        run.order.no_duplicates(),
        run.order.len() > 0,
        run.order.last() == run.root,
{
}

/// The lines that a review of a policy shows.
pub open spec fn spec_review_lines(policy: PolicyFileView, review_type: ReviewType) -> Seq<
    Seq<char>,
> {
    match review_type {
        ReviewType::All => Seq::empty(),
        ReviewType::PubFuns => seq!["Public functions marked caller-checked:"@]
            + policy.pub_caller_checked,
    }
}

/// The lines that a review of a policy shows: for the public functions, a
/// heading and then each caller-checked function.
pub fn review_policy(policy: &PolicyFile, review_type: ReviewType) -> (r: Vec<String>)
    ensures
        spec_strings(r@) == spec_review_lines(policy@, review_type),
{
    let mut r: Vec<String> = Vec::new();
    match review_type {
        ReviewType::All => {
            assert(spec_strings(r@) =~= Seq::empty());
        },
        ReviewType::PubFuns => {
            r.push(String::from_str("Public functions marked caller-checked:"));
            let ghost head = seq!["Public functions marked caller-checked:"@];
            let ghost paths = policy@.pub_caller_checked;
            let mut i: usize = 0;
            assert(spec_strings(r@) =~= head + paths.take(0));
            while i < policy.pub_caller_checked.len()
                invariant
                    i <= policy.pub_caller_checked.len(),
                    paths == spec_paths(policy.pub_caller_checked@),
                    spec_strings(r@) == head + paths.take(i as int),
                decreases policy.pub_caller_checked.len() - i,
            {
                let ghost before = spec_strings(r@);
                r.push(policy.pub_caller_checked[i].to_string());
                assert(spec_strings(r@) =~= before.push(paths[i as int]));
                i += 1;
                assert(head + paths.take(i as int) =~= (head + paths.take(i - 1)).push(
                    paths[i - 1],
                ));
            }
            assert(paths.take(i as int) == paths);
        },
    }
    r
}

/// Which policy a review by package name is about.
#[derive(Debug, PartialEq, Eq)]
pub enum ReviewSelection {
    /// No package of the chain has the name.
    NoMatch,
    /// More than one version of the package is in the chain.
    Ambiguous,
    /// The one version of the package that is in the chain.
    Single(ChainEntry),
}

/// Selects the policy that a review by package name is about, from the
/// entries of the chain with that name. More than one is not resolved.
pub fn select_policy(matches: &Vec<ChainEntry>) -> (r: ReviewSelection)
    ensures
        match r {
            ReviewSelection::NoMatch => matches@.len() == 0,
            ReviewSelection::Ambiguous => matches@.len() > 1,
            ReviewSelection::Single(entry) => matches@.len() == 1 && entry@ == matches@[0]@,
        },
{
    if matches.len() == 0 {
        ReviewSelection::NoMatch
    } else if matches.len() > 1 {
        ReviewSelection::Ambiguous
    } else {
        ReviewSelection::Single(matches[0].clone())
    }
}

} // verus!
