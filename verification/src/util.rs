//! What the place of a source file says about its contents: the package it
//! belongs to and the module it defines.
//!
//! A file is given by the components of its path, outermost first, as in
//! `["my_crate", "src", "net", "tcp.rs"]`. The package is the directory that
//! holds `src`; the module path is what follows `src`.

use vstd::prelude::*;
use vstd::string::*;

use crate::ident::spec_join;
use crate::ident::spec_separator;
use crate::text::remove_all;
use crate::text::spec_remove;
use crate::text::spec_strings;
use crate::text::str_eq;

verus! {

/// How many components stand before the first one named `src`: all of them
/// where none is.
pub open spec fn spec_src_index(components: Seq<Seq<char>>) -> int
    decreases components.len(),
{
    if components.len() == 0 {
        0
    } else if components[0] == "src"@ {
        0
    } else {
        1 + spec_src_index(components.drop_first())
    }
}

/// The name of the package: the component just before `src`, and the empty
/// name where `src` comes first or there is no component at all.
pub open spec fn spec_infer_crate(components: Seq<Seq<char>>) -> Seq<char> {
    let k = spec_src_index(components);
    if k == 0 {
        Seq::empty()
    } else {
        components[k - 1]
    }
}

/// Whether a component after `src` names a module: the root files `main.rs`
/// and `lib.rs` do not.
pub open spec fn spec_names_module(component: Seq<char>) -> bool {
    component != "main.rs"@ && component != "lib.rs"@
}

/// The components after `src`, none where there is no `src`.
pub open spec fn spec_after_src(components: Seq<Seq<char>>) -> Seq<Seq<char>> {
    let k = spec_src_index(components);
    if k < components.len() {
        components.skip(k + 1)
    } else {
        Seq::empty()
    }
}

/// The module path of a file: the components after `src` that name a
/// module, each without `.rs`.
pub open spec fn spec_infer_module(components: Seq<Seq<char>>) -> Seq<Seq<char>> {
    spec_after_src(components).filter(|c: Seq<char>| spec_names_module(c)).map_values(
        |c: Seq<char>| spec_remove(c, ".rs"@),
    )
}

/// The qualified prefix of what a file declares: package and module path,
/// joined by `::`.
pub open spec fn spec_fully_qualified_prefix(components: Seq<Seq<char>>) -> Seq<char> {
    spec_join(seq![spec_infer_crate(components)] + spec_infer_module(components))
}

proof fn lemma_src_index_step(components: Seq<Seq<char>>, i: int)
    requires
        0 <= i < components.len(),
        spec_src_index(components) == i + spec_src_index(components.skip(i)),
        components[i] != "src"@,
    ensures
        spec_src_index(components) == i + 1 + spec_src_index(components.skip(i + 1)),
{
    assert(components.skip(i).drop_first() == components.skip(i + 1));
}

/// How many components stand before the first one named `src`.
fn src_index(filepath: &Vec<String>) -> (k: usize)
    ensures
        k == spec_src_index(spec_strings(filepath@)),
        k <= filepath.len(),
{
    let ghost components = spec_strings(filepath@);
    let mut i: usize = 0;
    assert(components.skip(0) == components);
    while i < filepath.len()
        invariant
            i <= filepath.len(),
            components == spec_strings(filepath@),
            spec_src_index(components) == i + spec_src_index(components.skip(i as int)),
        decreases filepath.len() - i,
    {
        if str_eq(filepath[i].as_str(), "src") {
            assert(components.skip(i as int)[0] == "src"@);
            return i;
        }
        proof {
            lemma_src_index_step(components, i as int);
        }
        i += 1;
    }
    assert(components.skip(i as int).len() == 0);
    i
}

/// The name of the package that a file belongs to.
pub fn infer_crate(filepath: &Vec<String>) -> (r: String)
    ensures
        r@ == spec_infer_crate(spec_strings(filepath@)),
{
    let k = src_index(filepath);
    if k == 0 {
        String::new()
    } else {
        filepath[k - 1].clone()
    }
}

/// The module path of a file, outermost module first.
pub fn infer_module(filepath: &Vec<String>) -> (r: Vec<String>)
    ensures
        spec_strings(r@) == spec_infer_module(spec_strings(filepath@)),
{
    let ghost components = spec_strings(filepath@);
    let ghost names = |c: Seq<char>| spec_names_module(c);
    let ghost strip = |c: Seq<char>| spec_remove(c, ".rs"@);
    let k = src_index(filepath);
    let mut r: Vec<String> = Vec::new();
    if k >= filepath.len() {
        proof {
            reveal(Seq::filter);
            assert(spec_after_src(components).filter(names) =~= Seq::empty());
            assert(spec_strings(r@) =~= spec_infer_module(components));
        }
        return r;
    }
    let mut i: usize = k + 1;
    let ghost after = spec_after_src(components);
    proof {
        reveal(Seq::filter);
        assert(after.take(0).filter(names) =~= Seq::empty());
        assert(spec_strings(r@) =~= after.take(0).filter(names).map_values(strip));
    }
    while i < filepath.len()
        invariant
            k < i <= filepath.len(),
            components == spec_strings(filepath@),
            after == components.skip(k + 1),
            names == |c: Seq<char>| spec_names_module(c),
            strip == |c: Seq<char>| spec_remove(c, ".rs"@),
            spec_strings(r@) == after.take(i - k - 1).filter(names).map_values(strip),
        decreases filepath.len() - i,
    {
        let x = filepath[i].as_str();
        proof {
            reveal(Seq::filter);
            assert(after.take(i - k).drop_last() == after.take(i - k - 1));
            assert(after.take(i - k).last() == x@);
        }
        if !str_eq(x, "main.rs") && !str_eq(x, "lib.rs") {
            let ghost before = r@;
            r.push(remove_all(x, ".rs"));
            assert(spec_strings(r@) =~= spec_strings(before).push(spec_remove(x@, ".rs"@)));
            assert(after.take(i - k).filter(names).map_values(strip) =~= after.take(
                i - k - 1,
            ).filter(names).map_values(strip).push(strip(x@)));
        }
        i += 1;
    }
    assert(after.take(i - k - 1) == after);
    r
}

/// The qualified prefix of what a file declares.
pub fn fully_qualified_prefix(filepath: &Vec<String>) -> (r: String)
    ensures
        r@ == spec_fully_qualified_prefix(spec_strings(filepath@)),
{
    let mut r = infer_crate(filepath);
    let mod_vec = infer_module(filepath);
    let ghost first = seq![spec_infer_crate(spec_strings(filepath@))];
    let ghost modules = spec_strings(mod_vec@);
    let mut i: usize = 0;
    assert(first + modules.take(0) =~= first);
    while i < mod_vec.len()
        invariant
            i <= mod_vec.len(),
            modules == spec_strings(mod_vec@),
            first.len() == 1,
            r@ == spec_join(first + modules.take(i as int)),
        decreases mod_vec.len() - i,
    {
        proof {
            reveal_strlit("::");
            assert("::"@ =~= spec_separator());
            let next = first + modules.take(i + 1);
            assert(next.drop_last() =~= first + modules.take(i as int));
            assert(next.last() == mod_vec@[i as int]@);
        }
        r.append("::");
        r.append(mod_vec[i].as_str());
        i += 1;
    }
    assert(modules.take(i as int) == modules);
    r
}

} // verus!
