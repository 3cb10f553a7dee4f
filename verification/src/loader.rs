//! The loader: the engine instance that owns the published module graph, the
//! parsed-source cache bookkeeping, and the working-root configuration the
//! resolution and load protocols read.

use vstd::prelude::*;
use crate::cell::ModuleGraphCell;
use crate::graph::ModuleGraph;

verus! {

/// Bookkeeping for the parsed-source cache: which locations currently hold a
/// cached parse. The parses themselves live with the host's parser; the
/// engine decides insertion and eviction.
pub struct ParsedSourceCache {
    entries: Vec<String>,
}

impl View for ParsedSourceCache {
    type V = Seq<Seq<char>>;

    closed spec fn view(&self) -> Seq<Seq<char>> {
        self.entries@.map_values(|s: String| s@)
    }
}

impl ParsedSourceCache {
    /// Whether a cached parse exists for `location`.
    pub open spec fn spec_contains(&self, location: Seq<char>) -> bool {
        self@.contains(location)
    }

    /// An empty cache.
    pub fn new() -> (c: ParsedSourceCache)
        ensures
            c@ =~= Seq::<Seq<char>>::empty(),
    {
        let c = ParsedSourceCache { entries: Vec::new() };
        proof {
            assert(c@ =~= Seq::<Seq<char>>::empty());
        }
        c
    }

    /// Whether a cached parse exists for `location`.
    pub fn contains(&self, location: &String) -> (r: bool)
        ensures
            r == self.spec_contains(location@),
    {
        let n = self.entries.len();
        let mut i: usize = 0;
        while i < n
            invariant
                i <= n,
                n == self.entries@.len(),
                forall|j: int| 0 <= j < i ==> self@[j] != location@,
            decreases n - i,
        {
            if *vstd::slice::slice_index_get(self.entries.as_slice(), i) == *location {
                assert(self@[i as int] == location@);
                return true;
            }
            i = i + 1;
        }
        false
    }

    /// Records that `location` now holds a cached parse.
    pub fn insert(&mut self, location: String)
        ensures
            final(self)@ == old(self)@.push(location@),
            final(self).spec_contains(location@),
            forall|t: Seq<char>|
                final(self).spec_contains(t) <==> old(self).spec_contains(t) || t == location@,
    {
        let ghost before = self@;
        self.entries.push(location);
        proof {
            assert(self@ =~= before.push(location@));
            assert(self@[self@.len() - 1] == location@);
            assert forall|t: Seq<char>|
                self.spec_contains(t) <==> before.contains(t) || t == location@ by {
                if self.spec_contains(t) {
                    let i = choose|i: int| 0 <= i < self@.len() && self@[i] == t;
                    if i < before.len() {
                        assert(before[i] == t);
                    }
                } else {
                    if before.contains(t) {
                        let i = choose|i: int| 0 <= i < before.len() && before[i] == t;
                        assert(self@[i] == t);
                    }
                }
            }
        }
    }

    /// Evicts any cached parse for `location`; every other entry stays.
    pub fn free(&mut self, location: &String)
        ensures
            !final(self).spec_contains(location@),
            forall|t: Seq<char>|
                final(self).spec_contains(t) <==> old(self).spec_contains(t) && t != location@,
    {
        let ghost old_entries = self.entries@;
        let n = self.entries.len();
        let mut kept: Vec<String> = Vec::new();
        let mut i: usize = 0;
        while i < n
            invariant
                i <= n,
                n == self.entries@.len(),
                self.entries@ == old_entries,
                forall|k: int|
                    0 <= k < kept@.len() ==> #[trigger] kept@[k]@ != location@
                        && old_entries.map_values(|s: String| s@).contains(kept@[k]@),
                forall|j: int|
                    0 <= j < i ==> (#[trigger] old_entries[j]@ == location@ || exists|k: int|
                        0 <= k < kept@.len() && #[trigger] kept@[k]@ == old_entries[j]@),
            decreases n - i,
        {
            let e = vstd::slice::slice_index_get(self.entries.as_slice(), i);
            if !(*e == *location) {
                let ghost kept_before = kept@;
                kept.push(e.clone());
                proof {
                    assert(kept@ =~= kept_before.push(*e));
                    assert(old_entries.map_values(|s: String| s@)[i as int] == e@);
                    assert forall|j: int| 0 <= j < i + 1 implies (#[trigger] old_entries[j]@
                        == location@ || exists|k: int|
                        0 <= k < kept@.len() && #[trigger] kept@[k]@ == old_entries[j]@) by {
                        if j < i {
                            if old_entries[j]@ != location@ {
                                let k = choose|k: int|
                                    0 <= k < kept_before.len() && #[trigger] kept_before[k]@
                                        == old_entries[j]@;
                                assert(kept@[k]@ == old_entries[j]@);
                            }
                        } else {
                            assert(kept@[kept@.len() - 1]@ == old_entries[j]@);
                        }
                    }
                }
            }
            i = i + 1;
        }
        self.entries = kept;
        proof {
            let old_view = old_entries.map_values(|s: String| s@);
            assert forall|t: Seq<char>|
                self.spec_contains(t) <==> old_view.contains(t) && t != location@ by {
                if self.spec_contains(t) {
                    let k = choose|k: int| 0 <= k < self@.len() && self@[k] == t;
                    assert(self@[k] == self.entries@[k]@);
                } else {
                    if old_view.contains(t) && t != location@ {
                        let j = choose|j: int| 0 <= j < old_view.len() && old_view[j] == t;
                        assert(old_entries[j]@ == t);
                        let k = choose|k: int|
                            0 <= k < self.entries@.len() && #[trigger] self.entries@[k]@
                                == old_entries[j]@;
                        assert(self@[k] == t);
                    }
                }
            }
            assert(!self.spec_contains(location@));
        }
    }
}

/// The loader/resolver engine: the published graph behind its copy-on-write
/// cell, the parsed-source cache bookkeeping, and the working root that
/// entrypoint resolution and transpile decisions read.
pub struct DenoLoader {
    /// The copy-on-write holder of the published module graph.
    pub graph: ModuleGraphCell,
    /// The directory URL of the working directory; the referrer for
    /// entrypoint resolution.
    pub root_dir_url: String,
    /// The working directory path.
    pub initial_cwd: String,
    /// Whether transpilation is disabled by configuration.
    pub no_transpile: bool,
    /// Which locations hold a cached parse.
    pub parsed_cache: ParsedSourceCache,
}

impl DenoLoader {
    /// The loader's invariant: the published graph is well-formed and
    /// internally consistent -- every statically resolved edge target is
    /// lookup-resolvable. Both are established at creation, preserved by
    /// every engine operation, and re-checked by every build before it
    /// publishes.
    pub open spec fn wf(&self) -> bool {
        &&& self.graph@.wf()
        &&& crate::graph::spec_static_edges_closed(self.graph@)
    }

    /// The currently published graph snapshot, for host introspection.
    pub fn get_graph(&self) -> (r: &ModuleGraph)
        ensures
            r@ == self.graph@,
    {
        self.graph.get()
    }
}

} // verus!
