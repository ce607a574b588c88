use cargo_scan::audit_chain::AuditChain;
use cargo_scan::audit_chain::ChainEntry;
use cargo_scan::chain::collect_dependency_sinks;
use cargo_scan::chain::create_new_audit_chain;
use cargo_scan::chain::make_new_policy;
use cargo_scan::chain::plan_policy;
use cargo_scan::chain::policy_file_path;
use cargo_scan::chain::review_policy;
use cargo_scan::chain::select_policy;
use cargo_scan::chain::ChainError;
use cargo_scan::chain::Create;
use cargo_scan::chain::PackageSource;
use cargo_scan::chain::PathState;
use cargo_scan::chain::PolicyPlan;
use cargo_scan::chain::ReviewSelection;
use cargo_scan::chain::ReviewType;
use cargo_scan::chain::StoredPolicy;
use cargo_scan::effect::DeclaredVisibility;
use cargo_scan::effect::EffectBlock;
use cargo_scan::effect::EffectInstance;
use cargo_scan::ident::CanonicalPath;
use cargo_scan::ident::IdentPath;
use cargo_scan::package::Dependency;
use cargo_scan::package::Package;
use cargo_scan::policy::PolicyFile;
use cargo_scan::span::FilePath;
use cargo_scan::span::Span;

fn package(name: &str, deps: &[&str]) -> Package {
    Package::new(name, "0.1.0", deps.iter().map(|d| Dependency::new(d, "0.1.0")).collect())
}

fn args(force: bool) -> Create {
    Create {
        crate_path: String::from("pkgs/root"),
        manifest_path: String::from(".policy_test/root.manifest"),
        policy_path: String::from(".policy_test"),
        force_overwrite: force,
    }
}

fn paths(names: &[&str]) -> Vec<CanonicalPath> {
    names.iter().map(|n| CanonicalPath::new(n)).collect()
}

fn policy(functions: &[&str]) -> PolicyFile {
    PolicyFile { base_dir: String::from("x"), pub_caller_checked: paths(functions) }
}

fn stored(path: &str, functions: &[&str]) -> StoredPolicy {
    StoredPolicy { path: String::from(path), policy: policy(functions) }
}

#[test]
fn policy_file_path_exact() {
    assert_eq!(policy_file_path(".audit_policies", "serde", "1.0.2"), ".audit_policies/serde-1.0.2.policy");
    assert_eq!(policy_file_path("", "a", "b"), "/a-b.policy");
}

#[test]
fn plan_for_each_state() {
    assert_eq!(plan_policy(PathState::Missing, true, false), Ok(PolicyPlan::Create));
    assert_eq!(plan_policy(PathState::Missing, false, false), Ok(PolicyPlan::Create));
    assert_eq!(plan_policy(PathState::Missing, false, true), Ok(PolicyPlan::Create));
    assert_eq!(plan_policy(PathState::File, true, true), Ok(PolicyPlan::Overwrite));
    assert_eq!(plan_policy(PathState::File, false, true), Ok(PolicyPlan::Overwrite));
    assert_eq!(plan_policy(PathState::File, false, false), Ok(PolicyPlan::Reuse));
    assert_eq!(plan_policy(PathState::File, true, false), Err(ChainError::PolicyExists));
    assert_eq!(plan_policy(PathState::Directory, true, true), Err(ChainError::PolicyPathIsDirectory));
    assert_eq!(plan_policy(PathState::Directory, false, false), Err(ChainError::PolicyPathIsDirectory));
}

#[test]
fn error_messages_exact() {
    assert_eq!(ChainError::PolicyPathIsDirectory.to_string(), "Policy path is a directory");
    assert_eq!(ChainError::PolicyExists.to_string(), "Policy file already exists");
    assert_eq!(
        ChainError::DependencyPolicyUnreadable(String::from("a-1")).to_string(),
        "couldnt read dependency policy file (maybe created it out of order): a-1"
    );
    assert_eq!(
        ChainError::CreationFailed(String::from("a-1"), String::from("Policy file already exists")).to_string(),
        "Audit chain creation failed for a-1: Policy file already exists"
    );
    assert_eq!(ChainError::RootNotFound.to_string(), "Root package is not in the lockfile");
    assert_eq!(ChainError::MissingPackage(String::from("a-1")).to_string(), "Package is not in the lockfile: a-1");
}

#[test]
fn review_type_names() {
    assert_eq!(ReviewType::PubFuns.to_string(), "pub-funs");
    assert_eq!(ReviewType::All.to_string(), "all");
}

#[test]
fn sinks_are_the_union_of_the_dependency_policies() {
    let mut chain = AuditChain::new(String::from("m"), String::from("c"));
    chain.add_crate_policy(&package("a", &[]), String::from("p/a"));
    chain.add_crate_policy(&package("b", &[]), String::from("p/b"));
    let store = vec![stored("p/b", &["b::g", "a::f"]), stored("p/a", &["a::f", "a::h"]), stored("p/c", &["c::x"])];
    let deps = vec![Dependency::new("a", "0.1.0"), Dependency::new("b", "0.1.0")];
    let sinks = collect_dependency_sinks(&chain, &deps, &store);
    assert_eq!(sinks, Ok(paths(&["a::f", "a::h", "b::g"])));
    assert_eq!(collect_dependency_sinks(&chain, &Vec::new(), &store), Ok(Vec::new()));
}

#[test]
fn sinks_need_every_dependency_policy() {
    let mut chain = AuditChain::new(String::from("m"), String::from("c"));
    chain.add_crate_policy(&package("a", &[]), String::from("p/a"));
    chain.add_crate_policy(&package("c", &[]), String::from("p/c"));
    let store = vec![stored("p/a", &["a::f"])];
    let deps = vec![Dependency::new("a", "0.1.0"), Dependency::new("b", "0.1.0"), Dependency::new("c", "0.1.0")];
    assert_eq!(
        collect_dependency_sinks(&chain, &deps, &store),
        Err(ChainError::DependencyPolicyUnreadable(String::from("b-0.1.0")))
    );
    let deps = vec![Dependency::new("a", "0.1.0"), Dependency::new("c", "0.1.0")];
    assert_eq!(
        collect_dependency_sinks(&chain, &deps, &store),
        Err(ChainError::DependencyPolicyUnreadable(String::from("c-0.1.0")))
    );
}

#[test]
fn task_for_the_root_package() {
    let chain = AuditChain::new(String::from("m"), String::from("c"));
    let task = make_new_policy(&chain, &package("root", &[]), "root-0.1.0", &args(false), ".audit_crates", &Vec::new(), PathState::Missing).unwrap();
    assert_eq!(task.policy_path, ".policy_test/root-0.1.0.policy");
    assert_eq!(task.source, PackageSource::Local(String::from("pkgs/root")));
    assert_eq!(task.plan, PolicyPlan::Create);
    assert!(task.sinks.is_empty());
}

#[test]
fn task_for_a_dependency() {
    let chain = AuditChain::new(String::from("m"), String::from("c"));
    let task = make_new_policy(&chain, &package("dep", &[]), "root-0.1.0", &args(true), ".audit_crates", &Vec::new(), PathState::File).unwrap();
    assert_eq!(task.policy_path, ".policy_test/dep-0.1.0.policy");
    assert_eq!(
        task.source,
        PackageSource::Fetch {
            name: String::from("dep"),
            version: String::from("0.1.0"),
            download_path: String::from(".audit_crates"),
        }
    );
    assert_eq!(task.plan, PolicyPlan::Overwrite);
}

#[test]
fn task_errors() {
    let chain = AuditChain::new(String::from("m"), String::from("c"));
    let root = package("root", &["dep"]);
    let r = make_new_policy(&chain, &root, "root-0.1.0", &args(false), "d", &Vec::new(), PathState::Directory);
    assert_eq!(r.unwrap_err(), ChainError::PolicyPathIsDirectory);
    let r = make_new_policy(&chain, &root, "root-0.1.0", &args(false), "d", &Vec::new(), PathState::File);
    assert_eq!(r.unwrap_err(), ChainError::PolicyExists);
    let r = make_new_policy(&chain, &root, "root-0.1.0", &args(false), "d", &Vec::new(), PathState::Missing);
    assert_eq!(r.unwrap_err(), ChainError::DependencyPolicyUnreadable(String::from("dep-0.1.0")));
}

#[test]
fn existing_dependency_policy_is_reused_without_force() {
    let chain = AuditChain::new(String::from("m"), String::from("c"));
    let dep = package("dep", &["missing"]);
    let task = make_new_policy(&chain, &dep, "root-0.1.0", &args(false), "d", &Vec::new(), PathState::File).unwrap();
    assert_eq!(task.plan, PolicyPlan::Reuse);
    assert!(task.sinks.is_empty());
}

#[test]
fn chain_needs_its_root() {
    let packages = vec![package("a", &[])];
    match create_new_audit_chain(&args(false), &packages, "root-0.1.0") {
        Err(e) => assert_eq!(e, ChainError::RootNotFound),
        Ok(_) => panic!("a chain was made without its root"),
    }
}

#[test]
fn chain_visits_dependencies_before_dependents() {
    let packages = vec![
        package("root", &["b", "c"]),
        package("b", &["d"]),
        package("c", &["d"]),
        package("d", &[]),
    ];
    let mut run = create_new_audit_chain(&args(false), &packages, "root-0.1.0").unwrap();
    let mut visited: Vec<String> = Vec::new();
    loop {
        let (key, deps) = match run.next_package().unwrap() {
            None => break,
            Some(p) => (p.key(), p.dependencies.iter().map(|d| d.key()).collect::<Vec<_>>()),
        };
        for dep in &deps {
            assert!(run.chain().policy_path(dep).is_some());
            assert!(visited.contains(dep));
        }
        assert!(!visited.contains(&key));
        assert!(run.chain().policy_path(&key).is_none());
        let path = format!("p/{}.policy", key);
        assert_eq!(run.record(Ok(path)), Ok(()));
        assert!(run.chain().policy_path(&key).is_some());
        visited.push(key);
    }
    assert!(run.is_finished());
    assert_eq!(visited.len(), 4);
    assert_eq!(visited.last().unwrap(), "root-0.1.0");
    assert_eq!(visited[0], "d-0.1.0");
    let chain = run.into_chain();
    assert_eq!(chain.entries().len(), 4);
    assert_eq!(chain.manifest_path(), ".policy_test/root.manifest");
    assert_eq!(chain.crate_path(), "pkgs/root");
    assert_eq!(chain.policy_path("d-0.1.0"), Some(&String::from("p/d-0.1.0.policy")));
}

#[test]
fn chain_holds_exactly_the_packages_that_the_root_reaches() {
    let packages = vec![
        package("root", &["b"]),
        package("b", &[]),
        package("stranger", &["root"]),
        package("lonely", &[]),
    ];
    let mut run = create_new_audit_chain(&args(false), &packages, "root-0.1.0").unwrap();
    loop {
        let key = match run.next_package().unwrap() {
            None => break,
            Some(p) => p.key(),
        };
        run.record(Ok(format!("p/{}", key))).unwrap();
    }
    let chain = run.into_chain();
    let keys: Vec<String> = chain.entries().iter().map(|e| format!("{}-{}", e.name, e.version)).collect();
    assert_eq!(keys, vec!["b-0.1.0", "root-0.1.0"]);
    assert_eq!(chain.policy_path("stranger-0.1.0"), None);
    assert_eq!(chain.policy_path("lonely-0.1.0"), None);
}

#[test]
fn failure_ends_the_run_and_keeps_what_was_made() {
    let packages = vec![package("root", &["b"]), package("b", &[])];
    let mut run = create_new_audit_chain(&args(false), &packages, "root-0.1.0").unwrap();
    assert_eq!(run.next_package().unwrap().unwrap().key(), "b-0.1.0");
    assert_eq!(run.record(Ok(String::from("p/b"))), Ok(()));
    assert_eq!(run.next_package().unwrap().unwrap().key(), "root-0.1.0");
    assert_eq!(
        run.record(Err(String::from("Policy file already exists"))),
        Err(ChainError::CreationFailed(String::from("root-0.1.0"), String::from("Policy file already exists")))
    );
    assert!(!run.is_finished());
    assert_eq!(run.next_package().unwrap().unwrap().key(), "root-0.1.0");
    assert_eq!(run.chain().entries().len(), 1);
}

#[test]
fn dependency_outside_the_lockfile_stops_the_run() {
    let packages = vec![package("root", &["ghost"])];
    let run = create_new_audit_chain(&args(false), &packages, "root-0.1.0").unwrap();
    assert_eq!(run.next_package(), Err(ChainError::MissingPackage(String::from("ghost-0.1.0"))));
}

fn scan_with_sinks(fn_name: &str, callee: &str, sinks: &Vec<CanonicalPath>) -> Vec<EffectBlock> {
    let file = FilePath::new("pkg/src", "lib.rs");
    let patterns: Vec<IdentPath> = sinks.iter().map(|s| s.to_path()).chain(vec![IdentPath::new("std::fs")]).collect();
    let mut block = EffectBlock::new_fn(&file, &Span::new(1, 0, 4, 1), CanonicalPath::new(fn_name), &DeclaredVisibility::Public);
    let effect = EffectInstance::new_call(
        &file,
        CanonicalPath::new(fn_name),
        CanonicalPath::new(callee),
        &Span::new(2, 4, 2, 30),
        false,
        None,
        &patterns,
    );
    if let Some(e) = effect {
        block.push_effect(e);
    }
    vec![block]
}

fn run_create(root: &Package, packages: &Vec<Package>, disk: &mut Vec<StoredPolicy>, force: bool) -> Result<AuditChain, ChainError> {
    let a = args(force);
    let root_name = root.key();
    let mut run = create_new_audit_chain(&a, packages, &root_name)?;
    loop {
        let package = match run.next_package()? {
            None => break,
            Some(p) => p.clone(),
        };
        let path = policy_file_path(&a.policy_path, &package.name, &package.version);
        let state = if disk.iter().any(|s| s.path == path) { PathState::File } else { PathState::Missing };
        let outcome = match make_new_policy(run.chain(), &package, &root_name, &a, "dl", disk, state) {
            Err(e) => Err(e.to_string()),
            Ok(task) => {
                if task.plan != PolicyPlan::Reuse {
                    let callee = match package.dependencies.first() {
                        Some(d) => format!("{}::sink_fn", d.name),
                        None => String::from("std::fs::read"),
                    };
                    let blocks = scan_with_sinks(&format!("{}::sink_fn", package.name), &callee, &task.sinks);
                    let policy = PolicyFile::new_caller_checked_default(&package.name, &blocks);
                    disk.retain(|s| s.path != task.policy_path);
                    disk.push(StoredPolicy { path: task.policy_path.clone(), policy });
                }
                Ok(task.policy_path)
            }
        };
        run.record(outcome)?;
    }
    Ok(run.into_chain())
}

#[test]
fn cross_crate_effects() {
    let ex = package("dependency-ex", &[]);
    let parent = package("dependency-parent", &["dependency-ex"]);
    let mut disk: Vec<StoredPolicy> = Vec::new();

    let chain = run_create(&ex, &vec![ex.clone()], &mut disk, false).unwrap();
    assert_eq!(chain.entries().len(), 1);
    assert_eq!(disk.len(), 1);
    assert_eq!(disk[0].path, ".policy_test/dependency-ex-0.1.0.policy");
    assert_eq!(disk[0].policy.pub_caller_checked, paths(&["dependency-ex::sink_fn"]));
    let first = disk[0].policy.clone();

    let chain = run_create(&parent, &vec![parent.clone(), ex.clone()], &mut disk, false).unwrap();
    assert_eq!(chain.entries().len(), 2);
    assert_eq!(disk.len(), 2);
    assert_eq!(disk[0].policy, first);
    let sinks = collect_dependency_sinks(&chain, &parent.dependencies, &disk).unwrap();
    assert!(sinks.contains(&CanonicalPath::new("dependency-ex::sink_fn")));
    assert_eq!(disk[1].policy.pub_caller_checked, paths(&["dependency-parent::sink_fn"]));
}

#[test]
fn creating_twice_keeps_the_first_policies() {
    let ex = package("dependency-ex", &[]);
    let parent = package("dependency-parent", &["dependency-ex"]);
    let packages = vec![parent.clone(), ex.clone()];
    let mut disk: Vec<StoredPolicy> = Vec::new();
    run_create(&parent, &packages, &mut disk, false).unwrap();
    let before: Vec<PolicyFile> = disk.iter().map(|s| s.policy.clone()).collect();

    let again = run_create(&parent, &packages, &mut disk, false);
    assert_eq!(
        again,
        Err(ChainError::CreationFailed(
            String::from("dependency-parent-0.1.0"),
            String::from("Policy file already exists")
        ))
    );
    let after: Vec<PolicyFile> = disk.iter().map(|s| s.policy.clone()).collect();
    assert_eq!(before, after);

    let forced = run_create(&parent, &packages, &mut disk, true).unwrap();
    assert_eq!(forced.entries().len(), 2);
    assert_eq!(disk.len(), 2);
}

#[test]
fn review_lists_caller_checked_functions() {
    let p = policy(&["a::f", "a::g"]);
    assert_eq!(
        review_policy(&p, ReviewType::PubFuns),
        vec!["Public functions marked caller-checked:", "a::f", "a::g"]
    );
    assert!(review_policy(&p, ReviewType::All).is_empty());
    assert_eq!(review_policy(&policy(&[]), ReviewType::PubFuns), vec!["Public functions marked caller-checked:"]);
}

#[test]
fn review_selects_a_single_match() {
    let entry = |v: &str| ChainEntry { name: String::from("a"), version: String::from(v), policy_path: String::from("p") };
    assert_eq!(select_policy(&Vec::new()), ReviewSelection::NoMatch);
    assert_eq!(select_policy(&vec![entry("1"), entry("2")]), ReviewSelection::Ambiguous);
    assert_eq!(select_policy(&vec![entry("1")]), ReviewSelection::Single(entry("1")));
}
