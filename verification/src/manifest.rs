//! Package manifests, as the engine reads them: the dependency name lists
//! that decide whether a missing dependency was declared optional.

use vstd::prelude::*;

verus! {

/// The dependency declarations of one package manifest, nearest first in a
/// manifest chain. Only the names matter to the engine.
pub struct PackageManifest {
    /// Names under `dependencies`.
    pub dependencies: Vec<String>,
    /// Names under `optionalDependencies`.
    pub optional_dependencies: Vec<String>,
    /// Names under `peerDependencies`.
    pub peer_dependencies: Vec<String>,
    /// Names whose `peerDependenciesMeta` entry carries `"optional": true`.
    pub peer_dependencies_meta_optional: Vec<String>,
}

/// Whether some name in `v` is exactly `name`.
pub open spec fn contains_name(v: Seq<String>, name: Seq<char>) -> bool {
    exists|i: int| 0 <= i < v.len() && v[i]@ == name
}

/// The nearest-manifest-decides rule: walking the chain from the nearest
/// manifest outward, the first manifest that declares `name` optional (in
/// `optionalDependencies` or with optional peer metadata) makes it optional;
/// the first that declares it required (in `dependencies` or
/// `peerDependencies`) without declaring it optional makes it required;
/// a chain that never declares it leaves it required.
pub open spec fn spec_is_optional_dep(ms: Seq<PackageManifest>, name: Seq<char>) -> bool
    decreases ms.len(),
{
    if ms.len() == 0 {
        false
    } else {
        let m = ms[0];
        if contains_name(m.optional_dependencies@, name)
            || contains_name(m.peer_dependencies_meta_optional@, name) {
            true
        } else if contains_name(m.dependencies@, name)
            || contains_name(m.peer_dependencies@, name) {
            false
        } else {
            spec_is_optional_dep(ms.drop_first(), name)
        }
    }
}

fn names_contain(v: &Vec<String>, name: &String) -> (r: bool)
    ensures
        r == contains_name(v@, name@),
{
    let n = v.len();
    let mut i: usize = 0;
    while i < n
        invariant
            i <= n,
            n == v@.len(),
            forall|j: int| 0 <= j < i ==> v@[j]@ != name@,
        decreases n - i,
    {
        if *vstd::slice::slice_index_get(v.as_slice(), i) == *name {
            assert(contains_name(v@, name@));
            return true;
        }
        i = i + 1;
    }
    false
}

proof fn lemma_is_optional_step(ms: Seq<PackageManifest>, name: Seq<char>, i: int)
    requires
        0 <= i < ms.len(),
        !contains_name(ms[i].optional_dependencies@, name),
        !contains_name(ms[i].peer_dependencies_meta_optional@, name),
        !contains_name(ms[i].dependencies@, name),
        !contains_name(ms[i].peer_dependencies@, name),
    ensures
        spec_is_optional_dep(ms.skip(i), name) == spec_is_optional_dep(ms.skip(i + 1), name),
{
    assert(ms.skip(i)[0] == ms[i]);
    assert(ms.skip(i).drop_first() =~= ms.skip(i + 1));
}

/// Decides whether a dependency name is declared optional by the chain of
/// package manifests closest to the referrer, nearest first.
pub fn is_optional_npm_dep(manifests: &Vec<PackageManifest>, specifier: &String) -> (r: bool)
    ensures
        r == spec_is_optional_dep(manifests@, specifier@),
{
    let n = manifests.len();
    let mut i: usize = 0;
    assert(manifests@.skip(0) =~= manifests@);
    while i < n
        invariant
            i <= n,
            n == manifests@.len(),
            spec_is_optional_dep(manifests@, specifier@) == spec_is_optional_dep(
                manifests@.skip(i as int),
                specifier@,
            ),
        decreases n - i,
    {
        let m = vstd::slice::slice_index_get(manifests.as_slice(), i);
        proof {
            assert(manifests@.skip(i as int)[0] == manifests@[i as int]);
        }
        if names_contain(&m.optional_dependencies, specifier)
            || names_contain(&m.peer_dependencies_meta_optional, specifier) {
            return true;
        }
        if names_contain(&m.dependencies, specifier)
            || names_contain(&m.peer_dependencies, specifier) {
            return false;
        }
        proof {
            lemma_is_optional_step(manifests@, specifier@, i as int);
        }
        i = i + 1;
    }
    assert(manifests@.skip(n as int) =~= Seq::<PackageManifest>::empty());
    false
}

} // verus!
