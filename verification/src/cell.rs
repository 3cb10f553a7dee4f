//! The copy-on-write graph holder. Reads hand out the currently published
//! graph with no coordination cost; a writer takes a private deep copy, grows
//! it, and republishes it whole. Readers never observe a partially built
//! graph: they see the old published graph until `set` replaces it.

use vstd::prelude::*;
use crate::graph::{
    DepEdge, EdgeOutcome, GraphView, ModuleGraph, ModuleRecord,
};

verus! {

fn copy_strings(v: &Vec<String>) -> (r: Vec<String>)
    ensures
        r@ == v@,
{
    let n = v.len();
    let mut r: Vec<String> = Vec::new();
    let mut i: usize = 0;
    while i < n
        invariant
            i <= n,
            n == v@.len(),
            r@.len() == i,
            forall|j: int| 0 <= j < i ==> r@[j] == v@[j],
        decreases n - i,
    {
        r.push(vstd::slice::slice_index_get(v.as_slice(), i).clone());
        i = i + 1;
    }
    assert(r@ =~= v@);
    r
}

pub(crate) fn copy_bytes(v: &Vec<u8>) -> (r: Vec<u8>)
    ensures
        r@ == v@,
{
    let n = v.len();
    let mut r: Vec<u8> = Vec::new();
    let mut i: usize = 0;
    while i < n
        invariant
            i <= n,
            n == v@.len(),
            r@.len() == i,
            forall|j: int| 0 <= j < i ==> r@[j] == v@[j],
        decreases n - i,
    {
        r.push(*vstd::slice::slice_index_get(v.as_slice(), i));
        i = i + 1;
    }
    assert(r@ =~= v@);
    r
}

fn copy_edge(e: &DepEdge) -> (r: DepEdge)
    ensures
        r@ == e@,
{
    let outcome = match &e.outcome {
        EdgeOutcome::Resolved(t) => EdgeOutcome::Resolved(t.clone()),
        EdgeOutcome::Failed(m) => EdgeOutcome::Failed(m.clone()),
    };
    let r = DepEdge { raw: e.raw.clone(), outcome, is_dynamic: e.is_dynamic };
    assert(r@ =~= e@);
    r
}

fn copy_edges(v: &Vec<DepEdge>) -> (r: Vec<DepEdge>)
    ensures
        r@.map_values(|e: DepEdge| e@) == v@.map_values(|e: DepEdge| e@),
{
    let n = v.len();
    let mut r: Vec<DepEdge> = Vec::new();
    let mut i: usize = 0;
    while i < n
        invariant
            i <= n,
            n == v@.len(),
            r@.len() == i,
            forall|j: int| 0 <= j < i ==> #[trigger] r@[j]@ == v@[j]@,
        decreases n - i,
    {
        r.push(copy_edge(vstd::slice::slice_index_get(v.as_slice(), i)));
        i = i + 1;
    }
    assert(r@.map_values(|e: DepEdge| e@) =~= v@.map_values(|e: DepEdge| e@));
    r
}

fn copy_record(m: &ModuleRecord) -> (r: ModuleRecord)
    ensures
        r@ == m@,
{
    match m {
        ModuleRecord::Source { location, media, source, is_script, edges } => {
            let r = ModuleRecord::Source {
                location: location.clone(),
                media: *media,
                source: copy_bytes(source),
                is_script: *is_script,
                edges: copy_edges(edges),
            };
            assert(r@ =~= m@);
            r
        },
        ModuleRecord::Registry { location, coordinate } => ModuleRecord::Registry {
            location: location.clone(),
            coordinate: coordinate.clone(),
        },
        ModuleRecord::External { location } => ModuleRecord::External {
            location: location.clone(),
        },
        ModuleRecord::Builtin { location } => ModuleRecord::Builtin {
            location: location.clone(),
        },
        ModuleRecord::Failed { location, message } => ModuleRecord::Failed {
            location: location.clone(),
            message: message.clone(),
        },
    }
}

impl ModuleGraph {
    /// A private deep copy with the very same view: the writable copy a
    /// mutation works on.
    pub fn duplicate(&self) -> (r: ModuleGraph)
        ensures
            r@ == self@,
    {
        let roots = copy_strings(&self.roots);
        let n = self.modules.len();
        let mut modules: Vec<ModuleRecord> = Vec::new();
        let mut i: usize = 0;
        while i < n
            invariant
                i <= n,
                n == self.modules@.len(),
                modules@.len() == i,
                forall|j: int| 0 <= j < i ==> #[trigger] modules@[j]@ == self.modules@[j]@,
            decreases n - i,
        {
            modules.push(copy_record(vstd::slice::slice_index_get(self.modules.as_slice(), i)));
            i = i + 1;
        }
        let r = ModuleGraph { roots, modules };
        proof {
            assert(r@.roots =~= self@.roots);
            assert(r@.modules =~= self@.modules);
            assert(r@ =~= self@);
        }
        r
    }
}

/// The holder of the currently published graph snapshot.
pub struct ModuleGraphCell {
    graph: ModuleGraph,
}

impl View for ModuleGraphCell {
    type V = GraphView;

    closed spec fn view(&self) -> GraphView {
        self.graph@
    }
}

impl ModuleGraphCell {
    /// Publishes an initial graph.
    pub fn new(graph: ModuleGraph) -> (c: ModuleGraphCell)
        ensures
            c@ == graph@,
    {
        ModuleGraphCell { graph }
    }

    /// The currently published snapshot; never blocks, never observes a
    /// partially built graph.
    pub fn get(&self) -> (r: &ModuleGraph)
        ensures
            r@ == self@,
    {
        &self.graph
    }

    /// A private writable copy of the published graph, for the exclusive use
    /// of one in-flight mutation.
    pub fn deep_clone(&self) -> (r: ModuleGraph)
        ensures
            r@ == self@,
    {
        self.graph.duplicate()
    }

    /// Atomically replaces the published snapshot.
    pub fn set(&mut self, graph: ModuleGraph)
        ensures
            final(self)@ == graph@,
    {
        self.graph = graph;
    }
}

} // verus!
