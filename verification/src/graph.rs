//! The module graph: a directed graph of resolved modules and their
//! dependency edges, plus a root set. Node identity is the module's canonical
//! location; a well-formed graph holds at most one record per location.
//! Published graphs only ever grow: growth copies the graph, adds records,
//! and republishes the larger graph whole.

use vstd::prelude::*;
use crate::media::MediaKind;

verus! {

/// How one dependency edge resolved.
pub enum EdgeOutcome {
    /// The edge resolved to this canonical location.
    Resolved(String),
    /// The edge failed to resolve; the diagnostic text.
    Failed(String),
}

/// The ghost view of an edge outcome.
#[verifier::ext_equal]
pub enum EdgeOutcomeView {
    Resolved(Seq<char>),
    Failed(Seq<char>),
}

impl View for EdgeOutcome {
    type V = EdgeOutcomeView;

    open spec fn view(&self) -> EdgeOutcomeView {
        match self {
            EdgeOutcome::Resolved(t) => EdgeOutcomeView::Resolved(t@),
            EdgeOutcome::Failed(m) => EdgeOutcomeView::Failed(m@),
        }
    }
}

/// One dependency edge of a source module.
pub struct DepEdge {
    /// The raw specifier as written in the source.
    pub raw: String,
    /// How the specifier resolved.
    pub outcome: EdgeOutcome,
    /// Whether the import is dynamic (runtime-conditional).
    pub is_dynamic: bool,
}

/// The ghost view of a dependency edge.
#[verifier::ext_equal]
pub struct EdgeView {
    pub raw: Seq<char>,
    pub outcome: EdgeOutcomeView,
    pub is_dynamic: bool,
}

impl View for DepEdge {
    type V = EdgeView;

    open spec fn view(&self) -> EdgeView {
        EdgeView { raw: self.raw@, outcome: self.outcome@, is_dynamic: self.is_dynamic }
    }
}

/// One node of the module graph.
pub enum ModuleRecord {
    /// An analyzed source module with its content and dependency edges.
    Source {
        location: String,
        media: MediaKind,
        source: Vec<u8>,
        /// Whether analysis classified the module as a script (CommonJS)
        /// rather than an ECMAScript module, where known.
        is_script: Option<bool>,
        edges: Vec<DepEdge>,
    },
    /// A module backed by a registry coordinate not yet resolved to a
    /// concrete location.
    Registry { location: String, coordinate: String },
    /// An external asset: not statically analyzable, loaded verbatim on
    /// demand.
    External { location: String },
    /// A host-builtin reference; never loaded further.
    Builtin { location: String },
    /// A location whose load or analysis failed; the diagnostic text.
    Failed { location: String, message: String },
}

/// The ghost view of a module record.
#[verifier::ext_equal]
pub enum RecordView {
    Source {
        location: Seq<char>,
        media: MediaKind,
        source: Seq<u8>,
        is_script: Option<bool>,
        edges: Seq<EdgeView>,
    },
    Registry { location: Seq<char>, coordinate: Seq<char> },
    External { location: Seq<char> },
    Builtin { location: Seq<char> },
    Failed { location: Seq<char>, message: Seq<char> },
}

impl View for ModuleRecord {
    type V = RecordView;

    open spec fn view(&self) -> RecordView {
        match self {
            ModuleRecord::Source { location, media, source, is_script, edges } =>
                RecordView::Source {
                    location: location@,
                    media: *media,
                    source: source@,
                    is_script: *is_script,
                    edges: edges@.map_values(|e: DepEdge| e@),
                },
            ModuleRecord::Registry { location, coordinate } =>
                RecordView::Registry { location: location@, coordinate: coordinate@ },
            ModuleRecord::External { location } =>
                RecordView::External { location: location@ },
            ModuleRecord::Builtin { location } =>
                RecordView::Builtin { location: location@ },
            ModuleRecord::Failed { location, message } =>
                RecordView::Failed { location: location@, message: message@ },
        }
    }
}

impl RecordView {
    /// The node's identity: its canonical location.
    pub open spec fn location(self) -> Seq<char> {
        match self {
            RecordView::Source { location, .. } => location,
            RecordView::Registry { location, .. } => location,
            RecordView::External { location } => location,
            RecordView::Builtin { location } => location,
            RecordView::Failed { location, .. } => location,
        }
    }
}

/// The module graph: a root set and a set of module records keyed by
/// canonical location.
pub struct ModuleGraph {
    /// The caller-declared entry locations traversal begins from.
    pub roots: Vec<String>,
    /// The module records, at most one per location.
    pub modules: Vec<ModuleRecord>,
}

/// The ghost view of a module graph.
#[verifier::ext_equal]
pub struct GraphView {
    pub roots: Seq<Seq<char>>,
    pub modules: Seq<RecordView>,
}

impl View for ModuleGraph {
    type V = GraphView;

    open spec fn view(&self) -> GraphView {
        GraphView {
            roots: self.roots@.map_values(|s: String| s@),
            modules: self.modules@.map_values(|m: ModuleRecord| m@),
        }
    }
}

impl GraphView {
    /// Whether a record for `location` exists.
    pub open spec fn has_module(self, location: Seq<char>) -> bool {
        exists|i: int| 0 <= i < self.modules.len() && self.modules[i].location() == location
    }

    /// Whether `location` is a declared root.
    pub open spec fn has_root(self, location: Seq<char>) -> bool {
        self.roots.contains(location)
    }

    /// The record for `location`: the first with that location.
    pub open spec fn lookup(self, location: Seq<char>) -> Option<RecordView>
        decreases self.modules.len(),
    {
        if self.modules.len() == 0 {
            None
        } else if self.modules[0].location() == location {
            Some(self.modules[0])
        } else {
            GraphView {
                roots: self.roots,
                modules: self.modules.drop_first(),
            }.lookup(location)
        }
    }

    /// Well-formedness: at most one record per location.
    pub open spec fn wf(self) -> bool {
        forall|i: int, j: int|
            0 <= i < j < self.modules.len() ==> self.modules[i].location()
                != self.modules[j].location()
    }

    /// `self` is `base` grown monotonically: every record and every root of
    /// `base` is still present.
    pub open spec fn extends(self, base: GraphView) -> bool {
        &&& forall|i: int| 0 <= i < base.modules.len() ==> self.modules.contains(base.modules[i])
        &&& forall|i: int| 0 <= i < base.roots.len() ==> self.roots.contains(base.roots[i])
    }

    /// The empty graph.
    pub open spec fn empty() -> GraphView {
        GraphView { roots: Seq::empty(), modules: Seq::empty() }
    }
}

/// The dependency edges a record carries; only source records have any.
pub open spec fn record_edges(m: RecordView) -> Seq<EdgeView> {
    match m {
        RecordView::Source { edges, .. } => edges,
        _ => Seq::empty(),
    }
}

/// Internal consistency of a published graph: every statically resolved
/// dependency edge target of every source record is lookup-resolvable to a
/// record. Dynamic edges are followed only on request and may point outside
/// the graph; unresolved edges are recorded as failed outcomes, never
/// dropped.
pub open spec fn spec_static_edges_closed(g: GraphView) -> bool {
    forall|i: int, k: int|
        #![trigger record_edges(g.modules[i])[k]]
        0 <= i < g.modules.len() && 0 <= k < record_edges(g.modules[i]).len() && record_edges(
            g.modules[i],
        )[k].outcome is Resolved && !record_edges(g.modules[i])[k].is_dynamic
            ==> g.has_module(record_edges(g.modules[i])[k].outcome->Resolved_0)
}

/// Growth is transitive: a graph that extends a grown graph still holds
/// everything the original held.
pub proof fn lemma_extends_transitive(g2: GraphView, g1: GraphView, g0: GraphView)
    requires
        g2.extends(g1),
        g1.extends(g0),
    ensures
        g2.extends(g0),
{
    assert forall|i: int| 0 <= i < g0.modules.len() implies g2.modules.contains(
        g0.modules[i],
    ) by {
        assert(g1.modules.contains(g0.modules[i]));
        let j = choose|j: int| 0 <= j < g1.modules.len() && g1.modules[j] == g0.modules[i];
        assert(g2.modules.contains(g1.modules[j]));
    }
    assert forall|i: int| 0 <= i < g0.roots.len() implies g2.roots.contains(g0.roots[i]) by {
        assert(g1.roots.contains(g0.roots[i]));
        let j = choose|j: int| 0 <= j < g1.roots.len() && g1.roots[j] == g0.roots[i];
        assert(g2.roots.contains(g1.roots[j]));
    }
}

/// A present record stays present under lookup: in a well-formed graph, a
/// record that the graph contains is exactly what lookup finds at its
/// location.
pub proof fn lemma_lookup_finds_contained(g: GraphView, m: RecordView)
    requires
        g.wf(),
        g.modules.contains(m),
    ensures
        g.lookup(m.location()) == Some(m),
    decreases g.modules.len(),
{
    let i = choose|i: int| 0 <= i < g.modules.len() && g.modules[i] == m;
    if g.modules[0].location() == m.location() {
        assert(i == 0);
    } else {
        let rest = GraphView { roots: g.roots, modules: g.modules.drop_first() };
        assert(rest.modules[i - 1] == m);
        assert(rest.modules.contains(m));
        lemma_lookup_finds_contained(rest, m);
    }
}

/// A location with no record has no lookup result.
pub proof fn lemma_lookup_absent(g: GraphView, location: Seq<char>)
    requires
        !g.has_module(location),
    ensures
        g.lookup(location) is None,
    decreases g.modules.len(),
{
    if g.modules.len() > 0 {
        assert(g.modules[0].location() != location);
        let rest = GraphView { roots: g.roots, modules: g.modules.drop_first() };
        assert forall|i: int| 0 <= i < rest.modules.len() implies rest.modules[i].location()
            != location by {
            assert(g.modules[i + 1] == rest.modules[i]);
        }
        lemma_lookup_absent(rest, location);
    }
}

/// Pushing one record adds exactly its location to the graph's members.
pub proof fn lemma_has_module_push(before: GraphView, m: RecordView, after: GraphView)
    requires
        after.modules == before.modules.push(m),
    ensures
        forall|u: Seq<char>|
            #[trigger] after.has_module(u) <==> (before.has_module(u) || u == m.location()),
{
    assert forall|u: Seq<char>|
        #[trigger] after.has_module(u) <==> (before.has_module(u) || u == m.location()) by {
        if after.has_module(u) {
            let i = choose|i: int|
                0 <= i < after.modules.len() && after.modules[i].location() == u;
            if i < before.modules.len() {
                assert(before.modules[i].location() == u);
            }
        }
        if before.has_module(u) {
            let i = choose|i: int|
                0 <= i < before.modules.len() && before.modules[i].location() == u;
            assert(after.modules[i].location() == u);
        }
        if u == m.location() {
            assert(after.modules[after.modules.len() - 1].location() == u);
        }
    }
}

/// Borrows the location a record is keyed by.
pub fn record_location(m: &ModuleRecord) -> (r: &String)
    ensures
        r@ == m@.location(),
{
    match m {
        ModuleRecord::Source { location, .. } => location,
        ModuleRecord::Registry { location, .. } => location,
        ModuleRecord::External { location } => location,
        ModuleRecord::Builtin { location } => location,
        ModuleRecord::Failed { location, .. } => location,
    }
}

impl ModuleGraph {
    /// Creates the empty graph an engine starts from.
    pub fn new() -> (g: ModuleGraph)
        ensures
            g@ == GraphView::empty(),
            g@.wf(),
    {
        let g = ModuleGraph { roots: Vec::new(), modules: Vec::new() };
        proof {
            assert(g@.roots =~= Seq::<Seq<char>>::empty());
            assert(g@.modules =~= Seq::<RecordView>::empty());
        }
        g
    }

    /// Finds the record at `location`, if any.
    pub fn lookup<'a>(&'a self, location: &String) -> (r: Option<&'a ModuleRecord>)
        requires
            self@.wf(),
        ensures
            match r {
                Some(m) => self@.lookup(location@) == Some(m@),
                None => self@.lookup(location@) is None,
            },
    {
        let n = self.modules.len();
        let mut i: usize = 0;
        while i < n
            invariant
                i <= n,
                n == self.modules@.len(),
                self@.wf(),
                forall|j: int| 0 <= j < i ==> self@.modules[j].location() != location@,
            decreases n - i,
        {
            let m = vstd::slice::slice_index_get(self.modules.as_slice(), i);
            proof {
                assert(self@.modules[i as int] == m@);
            }
            if *record_location(m) == *location {
                proof {
                    assert(self@.modules.contains(m@));
                    lemma_lookup_finds_contained(self@, m@);
                }
                return Some(m);
            }
            i = i + 1;
        }
        proof {
            assert(!self@.has_module(location@));
            lemma_lookup_absent(self@, location@);
        }
        None
    }

    /// Whether the graph holds a record for `location`.
    pub fn has_module(&self, location: &String) -> (r: bool)
        requires
            self@.wf(),
        ensures
            r == self@.has_module(location@),
    {
        proof {
            if self@.has_module(location@) {
                let i = choose|i: int|
                    0 <= i < self@.modules.len() && self@.modules[i].location() == location@;
                lemma_lookup_finds_contained(self@, self@.modules[i]);
            } else {
                lemma_lookup_absent(self@, location@);
            }
        }
        match self.lookup(location) {
            Some(_) => true,
            None => false,
        }
    }

    /// Whether `location` is a declared root.
    pub fn has_root(&self, location: &String) -> (r: bool)
        ensures
            r == self@.has_root(location@),
    {
        let n = self.roots.len();
        let mut i: usize = 0;
        while i < n
            invariant
                i <= n,
                n == self.roots@.len(),
                forall|j: int| 0 <= j < i ==> self@.roots[j] != location@,
            decreases n - i,
        {
            if *vstd::slice::slice_index_get(self.roots.as_slice(), i) == *location {
                assert(self@.roots[i as int] == location@);
                return true;
            }
            i = i + 1;
        }
        false
    }

    /// Adds a record for a location not yet present; every existing record
    /// and root is kept.
    pub fn push_module(&mut self, m: ModuleRecord)
        requires
            old(self)@.wf(),
            !old(self)@.has_module(m@.location()),
        ensures
            final(self)@.modules == old(self)@.modules.push(m@),
            final(self)@.roots == old(self)@.roots,
            final(self)@.wf(),
            final(self)@.extends(old(self)@),
    {
        let ghost before = self@;
        self.modules.push(m);
        proof {
            let after = self@;
            assert(after.modules =~= before.modules.push(m@));
            assert(after.roots =~= before.roots);
            assert forall|i: int, j: int|
                0 <= i < j < after.modules.len() implies after.modules[i].location()
                != after.modules[j].location() by {
                if j == after.modules.len() - 1 {
                    assert(after.modules[i] == before.modules[i]);
                }
            }
            assert forall|i: int| 0 <= i < before.modules.len() implies after.modules.contains(
                before.modules[i],
            ) by {
                assert(after.modules[i] == before.modules[i]);
            }
            assert forall|i: int| 0 <= i < before.roots.len() implies after.roots.contains(
                before.roots[i],
            ) by {
                assert(after.roots[i] == before.roots[i]);
            }
        }
    }

    /// Declares a root; every existing record and root is kept.
    pub fn push_root(&mut self, location: String)
        ensures
            final(self)@.roots == old(self)@.roots.push(location@),
            final(self)@.modules == old(self)@.modules,
            final(self)@.extends(old(self)@),
            final(self)@.has_root(location@),
    {
        let ghost before = self@;
        self.roots.push(location);
        proof {
            let after = self@;
            assert(after.roots =~= before.roots.push(location@));
            assert(after.modules =~= before.modules);
            assert forall|i: int| 0 <= i < before.modules.len() implies after.modules.contains(
                before.modules[i],
            ) by {
                assert(after.modules[i] == before.modules[i]);
            }
            assert forall|i: int| 0 <= i < before.roots.len() implies after.roots.contains(
                before.roots[i],
            ) by {
                assert(after.roots[i] == before.roots[i]);
            }
            assert(after.roots[after.roots.len() - 1] == location@);
        }
    }
}

} // verus!
