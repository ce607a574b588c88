//! Packages as a lockfile lists them: a name, a version, and the packages
//! that each depends on.

use vstd::prelude::*;
use vstd::string::*;

use crate::text::push_char;

verus! {

/// The key under which a package version is known throughout an audit
/// chain: its name, a hyphen, and its version.
pub open spec fn spec_package_key(name: Seq<char>, version: Seq<char>) -> Seq<char> {
    name + seq!['-'] + version
}

/// The key of a package version.
pub fn package_key(name: &str, version: &str) -> (r: String)
    ensures
        r@ == spec_package_key(name@, version@),
{
    let mut r = name.to_owned();
    push_char(&mut r, '-');
    r.append(version);
    assert(r@ =~= spec_package_key(name@, version@));
    r
}

/// A package that another one depends on.
#[derive(Debug, PartialEq, Eq, Hash)]
pub struct Dependency {
    pub name: String,
    pub version: String,
}

/// What a [`Dependency`] holds.
pub struct DependencyView {
    pub name: Seq<char>,
    pub version: Seq<char>,
}

impl DependencyView {
    pub open spec fn key(self) -> Seq<char> {
        spec_package_key(self.name, self.version)
    }
}

impl View for Dependency {
    type V = DependencyView;

    open spec fn view(&self) -> DependencyView {
        DependencyView { name: self.name@, version: self.version@ }
    }
}

impl Dependency {
    pub fn new(name: &str, version: &str) -> (r: Dependency)
        ensures
            r@ == (DependencyView { name: name@, version: version@ }),
    {
        Dependency { name: name.to_owned(), version: version.to_owned() }
    }

    /// The key of the package that is depended on.
    pub fn key(&self) -> (r: String)
        ensures
            r@ == self@.key(),
    {
        package_key(self.name.as_str(), self.version.as_str())
    }
}

impl Clone for Dependency {
    fn clone(&self) -> (r: Self)
        ensures
            r@ == self@,
    {
        Dependency { name: self.name.clone(), version: self.version.clone() }
    }
}

/// A package of the lockfile.
#[derive(Debug, PartialEq, Eq, Hash)]
pub struct Package {
    pub name: String,
    pub version: String,
    pub dependencies: Vec<Dependency>,
}

/// What a [`Package`] holds.
pub struct PackageView {
    pub name: Seq<char>,
    pub version: Seq<char>,
    pub dependencies: Seq<DependencyView>,
}

impl PackageView {
    pub open spec fn key(self) -> Seq<char> {
        spec_package_key(self.name, self.version)
    }
}

/// The views of a sequence of dependencies.
pub open spec fn spec_dependencies(deps: Seq<Dependency>) -> Seq<DependencyView> {
    deps.map_values(|d: Dependency| d@)
}

/// The views of a sequence of packages.
pub open spec fn spec_packages(packages: Seq<Package>) -> Seq<PackageView> {
    packages.map_values(|p: Package| p@)
}

impl View for Package {
    type V = PackageView;

    open spec fn view(&self) -> PackageView {
        PackageView {
            name: self.name@,
            version: self.version@,
            dependencies: spec_dependencies(self.dependencies@),
        }
    }
}

impl Package {
    pub fn new(name: &str, version: &str, dependencies: Vec<Dependency>) -> (r: Package)
        ensures
            r@ == (PackageView {
                name: name@,
                version: version@,
                dependencies: spec_dependencies(dependencies@),
            }),
    {
        Package { name: name.to_owned(), version: version.to_owned(), dependencies }
    }

    /// The key of the package.
    pub fn key(&self) -> (r: String)
        ensures
            r@ == self@.key(),
    {
        package_key(self.name.as_str(), self.version.as_str())
    }
}

impl Clone for Package {
    fn clone(&self) -> (r: Self)
        ensures
            r@ == self@,
    {
        let mut dependencies: Vec<Dependency> = Vec::new();
        let mut i: usize = 0;
        while i < self.dependencies.len()
            invariant
                i <= self.dependencies.len(),
                dependencies@.len() == i,
                forall|j: int| 0 <= j < i ==> dependencies@[j]@ == self.dependencies@[j]@,
            decreases self.dependencies.len() - i,
        {
            dependencies.push(self.dependencies[i].clone());
            i += 1;
        }
        assert(spec_dependencies(dependencies@) =~= spec_dependencies(self.dependencies@));
        Package { name: self.name.clone(), version: self.version.clone(), dependencies }
    }
}

} // verus!
