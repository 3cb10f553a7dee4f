//! Graph growth: a build session is the single in-flight mutation of the
//! module graph. It works on a private copy of the published graph, walks a
//! worklist of locations, asks the host to fetch and analyze each one, adds
//! the resulting record, enqueues newly discovered edge targets, and finally
//! republishes the grown graph whole. Serialization discipline: a session
//! commits only against the same published graph it began from, so two
//! mutations never race and neither loses the other's additions.

use vstd::prelude::*;
use crate::graph::{
    DepEdge, EdgeOutcome, EdgeOutcomeView, EdgeView, GraphView, ModuleGraph, ModuleRecord,
    RecordView, record_edges, spec_static_edges_closed, lemma_extends_transitive,
    lemma_has_module_push,
};
use crate::loader::DenoLoader;
use crate::media::MediaKind;

verus! {

/// What the host's fetch-and-analyze step reports for one location.
pub enum FetchOutcome {
    /// An analyzable source module: its media kind, raw bytes, script
    /// classification where analysis determined one, and dependency edges as
    /// the resolver view resolved them.
    Source {
        media: MediaKind,
        source: Vec<u8>,
        is_script: Option<bool>,
        edges: Vec<DepEdge>,
    },
    /// An external asset, not statically analyzable.
    External,
    /// A host-builtin reference.
    Builtin,
    /// A registry coordinate resolved no further yet.
    Registry { coordinate: String },
    /// The fetch or the analysis failed; the diagnostic text.
    Failed { message: String },
}

/// The ghost view of a fetch outcome.
#[verifier::ext_equal]
pub enum FetchOutcomeView {
    Source {
        media: MediaKind,
        source: Seq<u8>,
        is_script: Option<bool>,
        edges: Seq<EdgeView>,
    },
    External,
    Builtin,
    Registry { coordinate: Seq<char> },
    Failed { message: Seq<char> },
}

impl View for FetchOutcome {
    type V = FetchOutcomeView;

    open spec fn view(&self) -> FetchOutcomeView {
        match self {
            FetchOutcome::Source { media, source, is_script, edges } => FetchOutcomeView::Source {
                media: *media,
                source: source@,
                is_script: *is_script,
                edges: edges@.map_values(|e: DepEdge| e@),
            },
            FetchOutcome::External => FetchOutcomeView::External,
            FetchOutcome::Builtin => FetchOutcomeView::Builtin,
            FetchOutcome::Registry { coordinate } => FetchOutcomeView::Registry {
                coordinate: coordinate@,
            },
            FetchOutcome::Failed { message } => FetchOutcomeView::Failed { message: message@ },
        }
    }
}

/// The record a fetch outcome becomes at its location.
pub open spec fn spec_record_of(location: Seq<char>, o: FetchOutcomeView) -> RecordView {
    match o {
        FetchOutcomeView::Source { media, source, is_script, edges } => RecordView::Source {
            location,
            media,
            source,
            is_script,
            edges,
        },
        FetchOutcomeView::External => RecordView::External { location },
        FetchOutcomeView::Builtin => RecordView::Builtin { location },
        FetchOutcomeView::Registry { coordinate } => RecordView::Registry {
            location,
            coordinate,
        },
        FetchOutcomeView::Failed { message } => RecordView::Failed { location, message },
    }
}

/// The dependency edges of a source outcome; no other outcome has any.
pub open spec fn spec_source_edges(o: FetchOutcomeView) -> Seq<EdgeView> {
    match o {
        FetchOutcomeView::Source { edges, .. } => edges,
        _ => Seq::empty(),
    }
}

/// Whether the build follows an edge to `t`: static edges always, dynamic
/// edges only when the session was asked to follow them.
pub open spec fn spec_followed_target(
    o: FetchOutcomeView,
    follow_dynamic: bool,
    t: Seq<char>,
) -> bool {
    exists|k: int|
        0 <= k < spec_source_edges(o).len() && (#[trigger] spec_source_edges(o)[k]).outcome
            == EdgeOutcomeView::Resolved(t) && (follow_dynamic || !spec_source_edges(
            o,
        )[k].is_dynamic)
}

/// The views of a list of owned strings.
pub open spec fn views_of(p: Seq<String>) -> Seq<Seq<char>> {
    p.map_values(|s: String| s@)
}

/// Whether a sequence of character sequences holds `t`.
pub open spec fn seq_has(p: Seq<Seq<char>>, t: Seq<char>) -> bool {
    exists|k: int| 0 <= k < p.len() && p[k] == t
}

/// The worklist after offering it the targets from index `i` on: a target
/// joins unless the graph already has it or the worklist already holds it.
pub open spec fn spec_enqueue(
    p: Seq<Seq<char>>,
    g: GraphView,
    ts: Seq<Seq<char>>,
    i: int,
) -> Seq<Seq<char>>
    decreases ts.len() - i,
{
    if i < 0 || i >= ts.len() {
        p
    } else {
        let t = ts[i];
        let p2 = if g.has_module(t) || seq_has(p, t) {
            p
        } else {
            p.push(t)
        };
        spec_enqueue(p2, g, ts, i + 1)
    }
}

proof fn lemma_push_has(p: Seq<Seq<char>>, t: Seq<char>, u: Seq<char>)
    ensures
        seq_has(p.push(t), u) <==> (seq_has(p, u) || u == t),
{
    if seq_has(p.push(t), u) {
        let k = choose|k: int| 0 <= k < p.push(t).len() && p.push(t)[k] == u;
        if k < p.len() {
            assert(p[k] == u);
        }
    }
    if seq_has(p, u) {
        let k = choose|k: int| 0 <= k < p.len() && p[k] == u;
        assert(p.push(t)[k] == u);
    }
    if u == t {
        assert(p.push(t)[p.len() as int] == u);
    }
}

/// Membership in the offered worklist: exactly the old worklist plus the
/// fresh targets the graph does not yet hold.
proof fn lemma_enqueue_membership(
    p: Seq<Seq<char>>,
    g: GraphView,
    ts: Seq<Seq<char>>,
    i: int,
    u: Seq<char>,
)
    requires
        0 <= i <= ts.len(),
    ensures
        seq_has(spec_enqueue(p, g, ts, i), u) <==> (seq_has(p, u) || exists|k: int|
            i <= k < ts.len() && #[trigger] ts[k] == u && !g.has_module(u)),
    decreases ts.len() - i,
{
    if i < ts.len() {
        let t = ts[i];
        let p2 = if g.has_module(t) || seq_has(p, t) {
            p
        } else {
            p.push(t)
        };
        lemma_enqueue_membership(p2, g, ts, i + 1, u);
        lemma_push_has(p, t, u);
        if seq_has(spec_enqueue(p, g, ts, i), u) {
            if !seq_has(p, u) {
                if seq_has(p2, u) {
                    assert(u == t && !g.has_module(u));
                    assert(ts[i] == u);
                } else {
                    let k = choose|k: int|
                        i + 1 <= k < ts.len() && #[trigger] ts[k] == u && !g.has_module(u);
                    assert(ts[k] == u);
                }
            }
        }
        if seq_has(p, u) {
            assert(seq_has(p2, u));
        }
        if exists|k: int| i <= k < ts.len() && #[trigger] ts[k] == u && !g.has_module(u) {
            let k = choose|k: int|
                i <= k < ts.len() && #[trigger] ts[k] == u && !g.has_module(u);
            if k == i {
                if seq_has(p, t) {
                    assert(seq_has(p2, u));
                } else {
                    assert(seq_has(p2, u));
                }
            } else {
                assert(i + 1 <= k < ts.len() && ts[k] == u && !g.has_module(u));
            }
        }
    }
}

/// One in-flight graph mutation: a private copy of the graph it began from,
/// and the worklist of locations still to fetch.
pub struct BuildSession {
    /// The private working copy of the graph.
    pub graph: ModuleGraph,
    /// Locations awaiting fetch-and-analyze, in discovery order.
    pub pending: Vec<String>,
    /// Whether dynamic edges are followed.
    pub follow_dynamic: bool,
    /// How many records the graph held when the session began: records from
    /// this index on were added by this session, and only their diagnostics
    /// are this build's.
    pub base_len: usize,
    /// The published graph this session began from.
    pub base: Ghost<GraphView>,
}

impl BuildSession {
    /// Whether `t` awaits fetching.
    pub open spec fn in_pending(self, t: Seq<char>) -> bool {
        exists|k: int| 0 <= k < self.pending@.len() && (#[trigger] self.pending@[k])@ == t
    }

    /// Edge-target closure during a build: every statically resolved edge
    /// target of every source record either has a record already or awaits
    /// fetching. With the worklist empty this is the published graph's
    /// internal-consistency check.
    pub open spec fn edges_closed_or_pending(self) -> bool {
        forall|i: int, k: int|
            #![trigger record_edges(self.graph@.modules[i])[k]]
            0 <= i < self.graph@.modules.len() && 0 <= k < record_edges(
                self.graph@.modules[i],
            ).len() && record_edges(self.graph@.modules[i])[k].outcome is Resolved
                && !record_edges(self.graph@.modules[i])[k].is_dynamic ==> (
            self.graph@.has_module(record_edges(self.graph@.modules[i])[k].outcome->Resolved_0)
                || self.in_pending(
                record_edges(self.graph@.modules[i])[k].outcome->Resolved_0,
            ))
    }

    /// Session invariant: the working graph is well-formed, extends the
    /// base, and keeps its statically resolved edge targets present or
    /// queued; pending locations are distinct and not yet in the graph; the
    /// base-length marker separates this session's records from the base's.
    pub open spec fn wf(self) -> bool {
        &&& self.graph@.wf()
        &&& self.graph@.extends(self.base@)
        &&& self.edges_closed_or_pending()
        &&& self.base_len == self.base@.modules.len()
        &&& self.base_len <= self.graph@.modules.len()
        &&& forall|i: int, j: int|
            0 <= i < j < self.pending@.len() ==> (#[trigger] self.pending@[i])@
                != (#[trigger] self.pending@[j])@
        &&& forall|i: int|
            0 <= i < self.pending@.len() ==> !self.graph@.has_module(
                (#[trigger] self.pending@[i])@,
            )
    }

    /// Whether the worklist is exhausted.
    pub fn is_done(&self) -> (r: bool)
        ensures
            r == (self.pending@.len() == 0),
    {
        self.pending.len() == 0
    }

    /// The next location to fetch and analyze, if any.
    pub fn next_location(&self) -> (r: Option<String>)
        ensures
            r is Some <==> self.pending@.len() > 0,
            r matches Some(l) ==> l@ == self.pending@[0]@,
    {
        if self.pending.len() == 0 {
            None
        } else {
            Some(vstd::slice::slice_index_get(self.pending.as_slice(), 0).clone())
        }
    }

    /// Records the host's fetch-and-analyze outcome for the worklist's next
    /// location: the record joins the graph, the location leaves the
    /// worklist, and every followed edge target not yet in the graph joins
    /// the worklist exactly once.
    pub fn module_loaded(&mut self, location: String, outcome: FetchOutcome)
        requires
            old(self).wf(),
            old(self).pending@.len() > 0,
            location@ == old(self).pending@[0]@,
        ensures
            final(self).wf(),
            final(self).base == old(self).base,
            final(self).base_len == old(self).base_len,
            final(self).follow_dynamic == old(self).follow_dynamic,
            final(self).graph@.modules == old(self).graph@.modules.push(
                spec_record_of(location@, outcome@),
            ),
            final(self).graph@.roots == old(self).graph@.roots,
            final(self).graph@.extends(old(self).graph@),
            forall|t: Seq<char>|
                final(self).in_pending(t) <==> ((exists|k: int|
                    1 <= k < old(self).pending@.len() && (#[trigger] old(self).pending@[k])@ == t)
                    || (spec_followed_target(outcome@, old(self).follow_dynamic, t)
                        && !final(self).graph@.has_module(t))),
    {
        let ghost old_pending = self.pending@;
        let ghost old_graph = self.graph@;
        let ghost base0 = self.base@;
        let ghost fd0 = self.follow_dynamic;
        let ghost bl0 = self.base_len;

        // Collect the edge targets the build follows, before the outcome
        // moves into its record.
        let mut targets: Vec<String> = Vec::new();
        match &outcome {
            FetchOutcome::Source { edges, .. } => {
                proof {
                    assert(spec_source_edges(outcome@) == edges@.map_values(|e: DepEdge| e@));
                }
                let n = edges.len();
                let mut i: usize = 0;
                while i < n
                    invariant
                        i <= n,
                        n == edges@.len(),
                        spec_source_edges(outcome@) == edges@.map_values(|e: DepEdge| e@),
                        forall|k: int|
                            0 <= k < targets@.len() ==> spec_followed_target(
                                outcome@,
                                fd0,
                                (#[trigger] targets@[k])@,
                            ),
                        forall|j: int|
                            #![auto]
                            0 <= j < i && spec_source_edges(outcome@)[j].outcome is Resolved && (
                            fd0 || !spec_source_edges(outcome@)[j].is_dynamic) ==> exists|k: int|
                                0 <= k < targets@.len() && (#[trigger] targets@[k])@
                                    == spec_source_edges(outcome@)[j].outcome->Resolved_0,
                        self.follow_dynamic == fd0,
                    decreases n - i,
                {
                    let ghost ev = spec_source_edges(outcome@);
                    let e = vstd::slice::slice_index_get(edges.as_slice(), i);
                    proof {
                        assert(ev[i as int] == e@);
                    }
                    match &e.outcome {
                        EdgeOutcome::Resolved(t) => {
                            if self.follow_dynamic || !e.is_dynamic {
                                let ghost targets_before = targets@;
                                targets.push(t.clone());
                                proof {
                                    assert(targets@ =~= targets_before.push(*t));
                                    assert(ev[i as int].outcome == EdgeOutcomeView::Resolved(t@));
                                    assert(spec_followed_target(outcome@, fd0, t@));
                                    assert forall|j: int|
                                        #![auto]
                                        0 <= j < i + 1 && ev[j].outcome is Resolved && (fd0
                                            || !ev[j].is_dynamic) implies exists|k: int|
                                        0 <= k < targets@.len() && (#[trigger] targets@[k])@
                                            == ev[j].outcome->Resolved_0 by {
                                        if j < i {
                                            let k = choose|k: int|
                                                0 <= k < targets_before.len() && (
                                                #[trigger] targets_before[k])@
                                                    == ev[j].outcome->Resolved_0;
                                            assert(targets@[k]@ == ev[j].outcome->Resolved_0);
                                        } else {
                                            assert(targets@[targets@.len() - 1]@ == t@);
                                        }
                                    }
                                }
                            }
                        },
                        EdgeOutcome::Failed(_) => {},
                    }
                    i = i + 1;
                }
            },
            _ => {},
        }
        proof {
            let ev = spec_source_edges(outcome@);
            assert forall|u: Seq<char>|
                seq_has(views_of(targets@), u) <==> spec_followed_target(outcome@, fd0, u) by {
                if seq_has(views_of(targets@), u) {
                    let k = choose|k: int|
                        0 <= k < views_of(targets@).len() && views_of(targets@)[k] == u;
                    assert(targets@[k]@ == u);
                    assert(spec_followed_target(outcome@, fd0, u));
                }
                if spec_followed_target(outcome@, fd0, u) {
                    let j = choose|j: int|
                        0 <= j < ev.len() && (#[trigger] ev[j]).outcome
                            == EdgeOutcomeView::Resolved(u) && (fd0 || !ev[j].is_dynamic);
                    assert(ev[j].outcome is Resolved && ev[j].outcome->Resolved_0 == u);
                    let k = choose|k: int|
                        0 <= k < targets@.len() && (#[trigger] targets@[k])@
                            == ev[j].outcome->Resolved_0;
                    assert(views_of(targets@)[k] == u);
                }
            }
        }
        let ghost target_views = views_of(targets@);

        // The fetched location leaves the worklist and its record joins the
        // graph.
        let _first = self.pending.remove(0);
        proof {
            assert(self.pending@ =~= old_pending.subrange(1, old_pending.len() as int));
        }
        let ghost tail_views = views_of(self.pending@);
        let record = make_record(location, outcome);
        proof {
            assert(!self.graph@.has_module(record@.location()));
        }
        self.graph.push_module(record);
        let ghost mid_graph = self.graph@;
        proof {
            lemma_has_module_push(old_graph, spec_record_of(location@, outcome@), mid_graph);
        }

        // Newly discovered targets join the worklist unless already present
        // in the graph or already enqueued.
        let m = targets.len();
        let mut i: usize = 0;
        proof {
            assert(views_of(self.pending@) == tail_views);
        }
        while i < m
            invariant
                i <= m,
                m == targets@.len(),
                self.graph@ == mid_graph,
                self.base@ == base0,
                self.base_len == bl0,
                self.follow_dynamic == fd0,
                mid_graph.wf(),
                spec_enqueue(views_of(self.pending@), mid_graph, views_of(targets@), i as int)
                    == spec_enqueue(tail_views, mid_graph, views_of(targets@), 0),
                forall|a: int, b: int|
                    0 <= a < b < self.pending@.len() ==> (#[trigger] self.pending@[a])@
                        != (#[trigger] self.pending@[b])@,
                forall|a: int|
                    0 <= a < self.pending@.len() ==> !mid_graph.has_module(
                        (#[trigger] self.pending@[a])@,
                    ),
            decreases m - i,
        {
            let t = vstd::slice::slice_index_get(targets.as_slice(), i).clone();
            let already_in_graph = self.graph.has_module(&t);
            let mut already_pending = false;
            let p = self.pending.len();
            let mut j: usize = 0;
            while j < p
                invariant
                    j <= p,
                    p == self.pending@.len(),
                    already_pending == exists|k: int|
                        0 <= k < j && (#[trigger] self.pending@[k])@ == t@,
                decreases p - j,
            {
                if *vstd::slice::slice_index_get(self.pending.as_slice(), j) == t {
                    assert(self.pending@[j as int]@ == t@);
                    already_pending = true;
                }
                j = j + 1;
            }
            proof {
                assert(already_pending == seq_has(views_of(self.pending@), t@)) by {
                    if already_pending {
                        let k = choose|k: int|
                            0 <= k < self.pending@.len() && (#[trigger] self.pending@[k])@ == t@;
                        assert(views_of(self.pending@)[k] == t@);
                    }
                    if seq_has(views_of(self.pending@), t@) {
                        let k = choose|k: int|
                            0 <= k < views_of(self.pending@).len() && views_of(
                                self.pending@,
                            )[k] == t@;
                        assert(self.pending@[k]@ == t@);
                    }
                }
                assert(views_of(targets@)[i as int] == t@);
            }
            let ghost pending_before = self.pending@;
            if !already_in_graph && !already_pending {
                self.pending.push(t);
                proof {
                    assert(self.pending@ =~= pending_before.push(t));
                    assert(views_of(self.pending@) =~= views_of(pending_before).push(t@));
                    assert forall|a: int, b: int|
                        0 <= a < b < self.pending@.len() implies (#[trigger] self.pending@[a])@
                        != (#[trigger] self.pending@[b])@ by {
                        if b == self.pending@.len() - 1 {
                            assert(!seq_has(views_of(pending_before), t@));
                            assert(views_of(pending_before)[a] == pending_before[a]@);
                        } else {
                            assert(pending_before[a]@ != pending_before[b]@);
                        }
                    }
                    assert forall|a: int|
                        0 <= a < self.pending@.len() implies !mid_graph.has_module(
                        (#[trigger] self.pending@[a])@,
                    ) by {
                        if a < pending_before.len() {
                            assert(!mid_graph.has_module(pending_before[a]@));
                        }
                    }
                }
            }
            proof {
                let cur = views_of(pending_before);
                let nxt = views_of(self.pending@);
                assert(views_of(targets@)[i as int] == t@);
                assert(spec_enqueue(cur, mid_graph, views_of(targets@), i as int)
                    == spec_enqueue(nxt, mid_graph, views_of(targets@), i as int + 1));
            }
            i = i + 1;
        }
        proof {
            assert(views_of(targets@) == target_views);
            // The worklist's fold is complete: its membership is exactly the
            // tail plus the fresh followed targets.
            assert(spec_enqueue(views_of(self.pending@), mid_graph, target_views, m as int)
                == spec_enqueue(tail_views, mid_graph, target_views, 0));
            assert(spec_enqueue(views_of(self.pending@), mid_graph, target_views, m as int)
                == views_of(self.pending@));
            lemma_extends_transitive(self.graph@, old_graph, base0);
            assert forall|t: Seq<char>|
                self.in_pending(t) <==> ((exists|k: int|
                    1 <= k < old(self).pending@.len() && (#[trigger] old(self).pending@[k])@ == t)
                    || (spec_followed_target(outcome@, old(self).follow_dynamic, t)
                        && !self.graph@.has_module(t))) by {
                lemma_enqueue_membership(tail_views, mid_graph, target_views, 0, t);
                assert(seq_has(views_of(targets@), t) <==> spec_followed_target(
                    outcome@,
                    fd0,
                    t,
                ));
                assert((exists|k: int|
                    0 <= k < target_views.len() && #[trigger] target_views[k] == t
                        && !mid_graph.has_module(t)) <==> (seq_has(target_views, t)
                    && !mid_graph.has_module(t))) by {
                    if seq_has(target_views, t) && !mid_graph.has_module(t) {
                        let k = choose|k: int|
                            0 <= k < target_views.len() && target_views[k] == t;
                        assert(0 <= k < target_views.len() && target_views[k] == t
                            && !mid_graph.has_module(t));
                    }
                }
                assert(self.in_pending(t) == seq_has(views_of(self.pending@), t)) by {
                    if self.in_pending(t) {
                        let k = choose|k: int|
                            0 <= k < self.pending@.len() && (#[trigger] self.pending@[k])@ == t;
                        assert(views_of(self.pending@)[k] == t);
                    }
                    if seq_has(views_of(self.pending@), t) {
                        let k = choose|k: int|
                            0 <= k < views_of(self.pending@).len() && views_of(
                                self.pending@,
                            )[k] == t;
                        assert(self.pending@[k]@ == t);
                    }
                }
                assert(seq_has(tail_views, t) == (exists|k: int|
                    1 <= k < old(self).pending@.len() && (#[trigger] old(self).pending@[k])@
                        == t)) by {
                    if seq_has(tail_views, t) {
                        let k = choose|k: int| 0 <= k < tail_views.len() && tail_views[k] == t;
                        assert(old_pending[k + 1]@ == t);
                        assert(old(self).pending@[k + 1]@ == t);
                    }
                    if exists|k: int|
                        1 <= k < old(self).pending@.len() && (#[trigger] old(self).pending@[k])@
                            == t {
                        let k = choose|k: int|
                            1 <= k < old(self).pending@.len() && (
                            #[trigger] old(self).pending@[k])@ == t;
                        assert(tail_views[k - 1] == t);
                    }
                }
            }
            assert(final(self).graph@.modules =~= old_graph.modules.push(
                spec_record_of(location@, outcome@),
            ));
            // Edge-target closure is preserved: an old record's target stays
            // present or queued; the new record's static targets were just
            // queued unless already present.
            assert forall|i: int, k: int|
                #![trigger record_edges(self.graph@.modules[i])[k]]
                0 <= i < self.graph@.modules.len() && 0 <= k < record_edges(
                    self.graph@.modules[i],
                ).len() && record_edges(self.graph@.modules[i])[k].outcome is Resolved
                    && !record_edges(self.graph@.modules[i])[k].is_dynamic implies (
            self.graph@.has_module(record_edges(self.graph@.modules[i])[k].outcome->Resolved_0)
                || self.in_pending(
                record_edges(self.graph@.modules[i])[k].outcome->Resolved_0,
            )) by {
                let t = record_edges(self.graph@.modules[i])[k].outcome->Resolved_0;
                assert(self.in_pending(t) <==> ((exists|kk: int|
                    1 <= kk < old_pending.len() && (#[trigger] old_pending[kk])@ == t) || (
                spec_followed_target(outcome@, fd0, t) && !mid_graph.has_module(t))));
                if i < old_graph.modules.len() {
                    assert(self.graph@.modules[i] == old_graph.modules[i]);
                    assert(record_edges(old(self).graph@.modules[i])[k].outcome is Resolved
                        && !record_edges(old(self).graph@.modules[i])[k].is_dynamic);
                    if old_graph.has_module(t) {
                        assert(self.graph@.has_module(t));
                    } else {
                        assert(old(self).in_pending(t));
                        let k0 = choose|k0: int|
                            0 <= k0 < old_pending.len() && (#[trigger] old_pending[k0])@ == t;
                        if k0 == 0 {
                            assert(t == location@);
                            assert(self.graph@.has_module(t));
                        } else {
                            assert(1 <= k0 < old_pending.len() && old_pending[k0]@ == t);
                            assert(self.in_pending(t));
                        }
                    }
                } else {
                    assert(self.graph@.modules[i] == spec_record_of(location@, outcome@));
                    assert(record_edges(spec_record_of(location@, outcome@))
                        == spec_source_edges(outcome@));
                    let ev = spec_source_edges(outcome@);
                    assert(ev[k].outcome == EdgeOutcomeView::Resolved(t));
                    assert(spec_followed_target(outcome@, fd0, t));
                    if !self.graph@.has_module(t) {
                        assert(self.in_pending(t));
                    }
                }
            }
        }
    }
}

/// Declares one root on a working graph: the root is recorded, and joins the
/// worklist when the graph has no record for it and the worklist does not
/// hold it yet.
fn seed_root(graph: &mut ModuleGraph, pending: &mut Vec<String>, root: String)
    requires
        old(graph)@.wf(),
        forall|a: int, b: int|
            0 <= a < b < old(pending)@.len() ==> (#[trigger] old(pending)@[a])@
                != (#[trigger] old(pending)@[b])@,
        forall|a: int|
            0 <= a < old(pending)@.len() ==> !old(graph)@.has_module(
                (#[trigger] old(pending)@[a])@,
            ),
    ensures
        final(graph)@.wf(),
        final(graph)@.modules == old(graph)@.modules,
        final(graph)@.roots == old(graph)@.roots.push(root@),
        final(graph)@.extends(old(graph)@),
        final(graph)@.has_root(root@),
        forall|a: int, b: int|
            0 <= a < b < final(pending)@.len() ==> (#[trigger] final(pending)@[a])@
                != (#[trigger] final(pending)@[b])@,
        forall|a: int|
            0 <= a < final(pending)@.len() ==> !final(graph)@.has_module(
                (#[trigger] final(pending)@[a])@,
            ),
        forall|t: Seq<char>|
            seq_has(views_of(final(pending)@), t) <==> (seq_has(views_of(old(pending)@), t) || (t
                == root@ && !old(graph)@.has_module(t))),
{
    let ghost old_pending = pending@;
    let ghost old_graph = graph@;
    let in_graph = graph.has_module(&root);
    let mut already = false;
    let p = pending.len();
    let mut j: usize = 0;
    while j < p
        invariant
            j <= p,
            p == pending@.len(),
            pending@ == old_pending,
            already == exists|k: int| 0 <= k < j && (#[trigger] pending@[k])@ == root@,
        decreases p - j,
    {
        if *vstd::slice::slice_index_get(pending.as_slice(), j) == root {
            assert(pending@[j as int]@ == root@);
            already = true;
        }
        j = j + 1;
    }
    proof {
        assert(already == seq_has(views_of(old_pending), root@)) by {
            if already {
                let k = choose|k: int|
                    0 <= k < old_pending.len() && (#[trigger] old_pending[k])@ == root@;
                assert(views_of(old_pending)[k] == root@);
            }
            if seq_has(views_of(old_pending), root@) {
                let k = choose|k: int|
                    0 <= k < views_of(old_pending).len() && views_of(old_pending)[k] == root@;
                assert(old_pending[k]@ == root@);
            }
        }
    }
    if !in_graph && !already {
        pending.push(root.clone());
        proof {
            assert(pending@ =~= old_pending.push(root));
            assert(views_of(pending@) =~= views_of(old_pending).push(root@));
            lemma_push_has(views_of(old_pending), root@, root@);
            assert forall|t: Seq<char>|
                seq_has(views_of(pending@), t) <==> (seq_has(views_of(old_pending), t) || (t
                    == root@ && !old_graph.has_module(t))) by {
                lemma_push_has(views_of(old_pending), root@, t);
            }
            assert forall|a: int, b: int|
                0 <= a < b < pending@.len() implies (#[trigger] pending@[a])@
                != (#[trigger] pending@[b])@ by {
                if b == pending@.len() - 1 {
                    assert(!seq_has(views_of(old_pending), root@));
                    assert(views_of(old_pending)[a] == old_pending[a]@);
                } else {
                    assert(old_pending[a]@ != old_pending[b]@);
                }
            }
            assert forall|a: int|
                0 <= a < pending@.len() implies !old_graph.has_module(
                (#[trigger] pending@[a])@,
            ) by {
                if a < old_pending.len() {
                    assert(!old_graph.has_module(old_pending[a]@));
                }
            }
        }
        graph.push_root(root);
    } else {
        proof {
            assert forall|t: Seq<char>|
                seq_has(views_of(pending@), t) <==> (seq_has(views_of(old_pending), t) || (t
                    == root@ && !old_graph.has_module(t))) by {
                if already {
                    if t == root@ {
                        assert(seq_has(views_of(old_pending), root@));
                    }
                }
            }
        }
        graph.push_root(root);
    }
}

/// The diagnostics of the dependency edges of one record, in order: the
/// message of every edge that failed to resolve.
pub open spec fn spec_edge_diags(edges: Seq<EdgeView>, j: int) -> Seq<Seq<char>>
    decreases edges.len() - j,
{
    if j < 0 || j >= edges.len() {
        Seq::empty()
    } else {
        let rest = spec_edge_diags(edges, j + 1);
        match edges[j].outcome {
            EdgeOutcomeView::Failed(m) => seq![m] + rest,
            EdgeOutcomeView::Resolved(_) => rest,
        }
    }
}

/// The diagnostics one record contributes: its own failure message, or its
/// failed edges' messages.
pub open spec fn spec_record_diags(m: RecordView) -> Seq<Seq<char>> {
    match m {
        RecordView::Failed { message, .. } => seq![message],
        RecordView::Source { edges, .. } => spec_edge_diags(edges, 0),
        _ => Seq::empty(),
    }
}

/// The structural diagnostics of a graph: every record's, in record order.
pub open spec fn spec_diagnostics(ms: Seq<RecordView>, i: int) -> Seq<Seq<char>>
    decreases ms.len() - i,
{
    if i < 0 || i >= ms.len() {
        Seq::empty()
    } else {
        spec_record_diags(ms[i]) + spec_diagnostics(ms, i + 1)
    }
}

/// Collects a graph's structural diagnostics from record index `start` on:
/// load failures and unresolved edges, as messages, in graph order. The
/// build attaches them to a successful result rather than aborting, and
/// scopes them to the records it added by starting at its base length.
pub fn collect_diagnostics(graph: &ModuleGraph, start: usize) -> (r: Vec<String>)
    requires
        start <= graph.modules@.len(),
    ensures
        views_of(r@) == spec_diagnostics(graph@.modules, start as int),
{
    let mut out: Vec<String> = Vec::new();
    let n = graph.modules.len();
    let mut i: usize = start;
    proof {
        assert(views_of(out@) =~= Seq::<Seq<char>>::empty());
    }
    while i < n
        invariant
            i <= n,
            n == graph.modules@.len(),
            spec_diagnostics(graph@.modules, start as int) == views_of(out@)
                + spec_diagnostics(graph@.modules, i as int),
        decreases n - i,
    {
        let ghost before = views_of(out@);
        let m = vstd::slice::slice_index_get(graph.modules.as_slice(), i);
        proof {
            assert(graph@.modules[i as int] == m@);
        }
        match m {
            ModuleRecord::Failed { message, .. } => {
                out.push(message.clone());
                proof {
                    assert(views_of(out@) =~= before.push(message@));
                    assert(spec_record_diags(m@) =~= seq![message@]);
                    assert(before + spec_record_diags(m@) =~= views_of(out@));
                }
            },
            ModuleRecord::Source { edges, .. } => {
                let ghost ev = match m@ {
                    RecordView::Source { edges: e, .. } => e,
                    _ => Seq::empty(),
                };
                proof {
                    assert(ev == edges@.map_values(|e: DepEdge| e@));
                    assert(spec_record_diags(m@) == spec_edge_diags(ev, 0));
                }
                let en = edges.len();
                let mut j: usize = 0;
                while j < en
                    invariant
                        j <= en,
                        en == edges@.len(),
                        ev == edges@.map_values(|e: DepEdge| e@),
                        before + spec_edge_diags(ev, 0) == views_of(out@) + spec_edge_diags(
                            ev,
                            j as int,
                        ),
                    decreases en - j,
                {
                    let e = vstd::slice::slice_index_get(edges.as_slice(), j);
                    proof {
                        assert(ev[j as int] == e@);
                    }
                    let ghost mid = views_of(out@);
                    match &e.outcome {
                        EdgeOutcome::Failed(msg) => {
                            out.push(msg.clone());
                            proof {
                                assert(views_of(out@) =~= mid.push(msg@));
                                assert(spec_edge_diags(ev, j as int) == seq![msg@]
                                    + spec_edge_diags(ev, j as int + 1));
                                assert(before + spec_edge_diags(ev, 0) =~= views_of(out@)
                                    + spec_edge_diags(ev, j as int + 1));
                            }
                        },
                        EdgeOutcome::Resolved(_) => {
                            proof {
                                assert(spec_edge_diags(ev, j as int) == spec_edge_diags(
                                    ev,
                                    j as int + 1,
                                ));
                            }
                        },
                    }
                    j = j + 1;
                }
                proof {
                    assert(spec_edge_diags(ev, en as int) =~= Seq::<Seq<char>>::empty());
                    assert(before + spec_record_diags(m@) =~= views_of(out@));
                }
            },
            _ => {
                proof {
                    assert(spec_record_diags(m@) =~= Seq::<Seq<char>>::empty());
                    assert(before + spec_record_diags(m@) =~= views_of(out@));
                }
            },
        }
        proof {
            assert(spec_diagnostics(graph@.modules, i as int) == spec_record_diags(
                graph@.modules[i as int],
            ) + spec_diagnostics(graph@.modules, i as int + 1));
            assert(before + (spec_record_diags(m@) + spec_diagnostics(
                graph@.modules,
                i as int + 1,
            )) =~= (before + spec_record_diags(m@)) + spec_diagnostics(
                graph@.modules,
                i as int + 1,
            ));
        }
        i = i + 1;
    }
    proof {
        assert(spec_diagnostics(graph@.modules, i as int) =~= Seq::<Seq<char>>::empty());
        assert(views_of(out@) + spec_diagnostics(graph@.modules, i as int) =~= views_of(out@));
    }
    out
}

impl DenoLoader {
    /// Begins one graph mutation: takes a private copy of the published
    /// graph, declares the requested roots (preceded, on the very first
    /// build, by the lock file's pinned roots), and queues every root the
    /// graph does not hold yet. Only one begun session may commit against a
    /// given published graph: that is the single-writer discipline.
    pub fn begin_build(
        &self,
        roots: Vec<String>,
        lock_roots: Vec<String>,
        follow_dynamic: bool,
    ) -> (s: BuildSession)
        requires
            self.wf(),
        ensures
            s.wf(),
            s.base@ == self.graph@,
            s.follow_dynamic == follow_dynamic,
            s.graph@.extends(self.graph@),
            s.graph@.modules == self.graph@.modules,
            forall|k: int|
                0 <= k < roots@.len() ==> s.graph@.has_root((#[trigger] roots@[k])@),
            forall|k: int|
                0 <= k < roots@.len() ==> s.graph@.has_module((#[trigger] roots@[k])@)
                    || s.in_pending((#[trigger] roots@[k])@),
            self.graph@.roots.len() == 0 ==> forall|k: int|
                0 <= k < lock_roots@.len() ==> s.graph@.has_root((#[trigger] lock_roots@[k])@),
            self.graph@.roots.len() == 0 ==> forall|k: int|
                0 <= k < lock_roots@.len() ==> s.graph@.has_module((#[trigger] lock_roots@[k])@)
                    || s.in_pending((#[trigger] lock_roots@[k])@),
            s.graph@.roots == self.graph@.roots + (if self.graph@.roots.len() == 0 {
                views_of(lock_roots@)
            } else {
                Seq::<Seq<char>>::empty()
            }) + views_of(roots@),
            forall|t: Seq<char>|
                s.in_pending(t) <==> (((self.graph@.roots.len() == 0 && seq_has(
                    views_of(lock_roots@),
                    t,
                )) || seq_has(views_of(roots@), t)) && !s.graph@.has_module(t)),
    {
        let mut graph = self.graph.deep_clone();
        let mut pending: Vec<String> = Vec::new();
        let ghost base = self.graph@;
        let base_len = graph.modules.len();
        let use_lock = graph.roots.len() == 0;
        proof {
            assert(base.roots.len() == graph.roots@.len());
            assert(base_len == base.modules.len());
        }
        if use_lock {
            let ln = lock_roots.len();
            let mut i: usize = 0;
            while i < ln
                invariant
                    i <= ln,
                    ln == lock_roots@.len(),
                    graph@.wf(),
                    graph@.extends(base),
                    graph@.modules == base.modules,
                    forall|a: int, b: int|
                        0 <= a < b < pending@.len() ==> (#[trigger] pending@[a])@
                            != (#[trigger] pending@[b])@,
                    forall|a: int|
                        0 <= a < pending@.len() ==> !graph@.has_module((#[trigger] pending@[a])@),
                    forall|k: int|
                        0 <= k < i ==> graph@.has_root((#[trigger] lock_roots@[k])@),
                    forall|k: int|
                        0 <= k < i ==> graph@.has_module((#[trigger] lock_roots@[k])@) || seq_has(
                            views_of(pending@),
                            (#[trigger] lock_roots@[k])@,
                        ),
                    graph@.roots == base.roots + views_of(lock_roots@).take(i as int),
                    forall|t: Seq<char>|
                        #![trigger seq_has(views_of(pending@), t)]
                        seq_has(views_of(pending@), t) <==> ((exists|k: int|
                            0 <= k < i && (#[trigger] lock_roots@[k])@ == t)
                            && !base.has_module(t)),
                decreases ln - i,
            {
                let ghost g_before = graph@;
                let root = vstd::slice::slice_index_get(lock_roots.as_slice(), i).clone();
                proof {
                    assert(root@ == lock_roots@[i as int]@);
                }
                let ghost p_before = pending@;
                seed_root(&mut graph, &mut pending, root);
                proof {
                    lemma_extends_transitive(graph@, g_before, base);
                    assert forall|k: int|
                        0 <= k < i + 1 implies graph@.has_root(
                        (#[trigger] lock_roots@[k])@,
                    ) by {
                        if k < i {
                            assert(g_before.has_root(lock_roots@[k]@));
                            let x = choose|x: int|
                                0 <= x < g_before.roots.len() && g_before.roots[x]
                                    == lock_roots@[k]@;
                            assert(graph@.roots[x] == lock_roots@[k]@);
                        }
                    }
                    assert forall|k: int|
                        0 <= k < i + 1 implies graph@.has_module((#[trigger] lock_roots@[k])@)
                        || seq_has(views_of(pending@), (#[trigger] lock_roots@[k])@) by {
                        if k == i {
                            if !g_before.has_module(lock_roots@[k]@) {
                                assert(seq_has(views_of(pending@), lock_roots@[k]@));
                            }
                        } else {
                            if !graph@.has_module(lock_roots@[k]@) {
                                assert(seq_has(views_of(p_before), lock_roots@[k]@));
                            }
                        }
                    }
                    assert(graph@.roots =~= base.roots + views_of(lock_roots@).take(
                        i as int + 1,
                    ));
                    assert(graph@.has_module(root@) == base.has_module(root@));
                    assert forall|t: Seq<char>|
                        #![trigger seq_has(views_of(pending@), t)]
                        seq_has(views_of(pending@), t) <==> ((exists|k: int|
                            0 <= k < i + 1 && (#[trigger] lock_roots@[k])@ == t)
                            && !base.has_module(t)) by {
                        assert(g_before.has_module(t) == base.has_module(t)) by {
                            if g_before.has_module(t) {
                                let x = choose|x: int|
                                    0 <= x < g_before.modules.len()
                                        && g_before.modules[x].location() == t;
                                assert(base.modules[x].location() == t);
                            }
                            if base.has_module(t) {
                                let x = choose|x: int|
                                    0 <= x < base.modules.len() && base.modules[x].location()
                                        == t;
                                assert(g_before.modules[x].location() == t);
                            }
                        }
                        assert(seq_has(views_of(p_before), t) <==> ((exists|k: int|
                            0 <= k < i && (#[trigger] lock_roots@[k])@ == t)
                            && !base.has_module(t)));
                        if seq_has(views_of(pending@), t) {
                            if seq_has(views_of(p_before), t) {
                                let k = choose|k: int|
                                    0 <= k < i && (#[trigger] lock_roots@[k])@ == t;
                                assert(lock_roots@[k]@ == t);
                            } else {
                                assert(t == root@);
                                assert(lock_roots@[i as int]@ == t);
                            }
                        } else {
                            if (exists|k: int| 0 <= k < i + 1 && (#[trigger] lock_roots@[k])@
                                == t) && !base.has_module(t) {
                                let k = choose|k: int|
                                    0 <= k < i + 1 && (#[trigger] lock_roots@[k])@ == t;
                                if k < i {
                                    assert(seq_has(views_of(p_before), t));
                                    assert(seq_has(views_of(pending@), t));
                                } else {
                                    assert(t == root@);
                                    assert(seq_has(views_of(pending@), t));
                                }
                            }
                        }
                    }
                }
                i = i + 1;
            }
        }
        proof {
            if base.roots.len() == 0 {
                assert(views_of(lock_roots@).take(lock_roots@.len() as int) =~= views_of(
                    lock_roots@,
                ));
                assert(graph@.roots =~= base.roots + views_of(lock_roots@)
                    + views_of(roots@).take(0));
                assert forall|t: Seq<char>|
                    #![trigger seq_has(views_of(pending@), t)]
                    seq_has(views_of(pending@), t) <==> (((base.roots.len() == 0 && seq_has(
                        views_of(lock_roots@),
                        t,
                    )) || exists|k: int| 0 <= k < 0 && (#[trigger] roots@[k])@ == t)
                        && !base.has_module(t)) by {
                    assert((exists|k: int|
                        0 <= k < lock_roots@.len() && (#[trigger] lock_roots@[k])@ == t)
                        == seq_has(views_of(lock_roots@), t)) by {
                        if exists|k: int|
                            0 <= k < lock_roots@.len() && (#[trigger] lock_roots@[k])@ == t {
                            let k = choose|k: int|
                                0 <= k < lock_roots@.len() && (#[trigger] lock_roots@[k])@ == t;
                            assert(views_of(lock_roots@)[k] == t);
                        }
                        if seq_has(views_of(lock_roots@), t) {
                            let k = choose|k: int|
                                0 <= k < views_of(lock_roots@).len() && views_of(
                                    lock_roots@,
                                )[k] == t;
                            assert(lock_roots@[k]@ == t);
                        }
                    }
                }
            } else {
                assert(graph@.roots =~= base.roots + Seq::<Seq<char>>::empty()
                    + views_of(roots@).take(0));
                assert(views_of(pending@) =~= Seq::<Seq<char>>::empty());
            }
        }
        let rn = roots.len();
        let mut i: usize = 0;
        while i < rn
            invariant
                i <= rn,
                rn == roots@.len(),
                graph@.wf(),
                graph@.extends(base),
                graph@.modules == base.modules,
                forall|a: int, b: int|
                    0 <= a < b < pending@.len() ==> (#[trigger] pending@[a])@
                        != (#[trigger] pending@[b])@,
                forall|a: int|
                    0 <= a < pending@.len() ==> !graph@.has_module((#[trigger] pending@[a])@),
                forall|k: int|
                    0 <= k < i ==> graph@.has_root((#[trigger] roots@[k])@),
                forall|k: int|
                    0 <= k < i ==> graph@.has_module((#[trigger] roots@[k])@) || seq_has(
                        views_of(pending@),
                        (#[trigger] roots@[k])@,
                    ),
                base.roots.len() == 0 ==> forall|k: int|
                    0 <= k < lock_roots@.len() ==> graph@.has_root(
                        (#[trigger] lock_roots@[k])@,
                    ),
                base.roots.len() == 0 ==> forall|k: int|
                    0 <= k < lock_roots@.len() ==> graph@.has_module(
                        (#[trigger] lock_roots@[k])@,
                    ) || seq_has(views_of(pending@), (#[trigger] lock_roots@[k])@),
                graph@.roots == base.roots + (if base.roots.len() == 0 {
                    views_of(lock_roots@)
                } else {
                    Seq::<Seq<char>>::empty()
                }) + views_of(roots@).take(i as int),
                forall|t: Seq<char>|
                    #![trigger seq_has(views_of(pending@), t)]
                    seq_has(views_of(pending@), t) <==> (((base.roots.len() == 0 && seq_has(
                        views_of(lock_roots@),
                        t,
                    )) || exists|k: int| 0 <= k < i && (#[trigger] roots@[k])@ == t)
                        && !base.has_module(t)),
            decreases rn - i,
        {
            let ghost g_before = graph@;
            let ghost p_before = pending@;
            let root = vstd::slice::slice_index_get(roots.as_slice(), i).clone();
            proof {
                assert(root@ == roots@[i as int]@);
            }
            seed_root(&mut graph, &mut pending, root);
            proof {
                lemma_extends_transitive(graph@, g_before, base);
                assert forall|k: int|
                    0 <= k < i + 1 implies graph@.has_root((#[trigger] roots@[k])@) by {
                    if k < i {
                        assert(g_before.has_root(roots@[k]@));
                        let x = choose|x: int|
                            0 <= x < g_before.roots.len() && g_before.roots[x] == roots@[k]@;
                        assert(graph@.roots[x] == roots@[k]@);
                    }
                }
                assert forall|k: int|
                    0 <= k < i + 1 implies graph@.has_module((#[trigger] roots@[k])@) || seq_has(
                    views_of(pending@),
                    (#[trigger] roots@[k])@,
                ) by {
                    if k == i {
                        if !g_before.has_module(roots@[k]@) {
                            assert(seq_has(views_of(pending@), roots@[k]@));
                        }
                    } else {
                        if !graph@.has_module(roots@[k]@) {
                            assert(seq_has(views_of(p_before), roots@[k]@));
                        }
                    }
                }
                assert(base.roots.len() == 0 ==> forall|k: int|
                    0 <= k < lock_roots@.len() ==> graph@.has_root(
                        (#[trigger] lock_roots@[k])@,
                    )) by {
                    if base.roots.len() == 0 {
                        assert forall|k: int|
                            0 <= k < lock_roots@.len() implies graph@.has_root(
                            (#[trigger] lock_roots@[k])@,
                        ) by {
                            assert(g_before.has_root(lock_roots@[k]@));
                            let x = choose|x: int|
                                0 <= x < g_before.roots.len() && g_before.roots[x]
                                    == lock_roots@[k]@;
                            assert(graph@.roots[x] == lock_roots@[k]@);
                        }
                    }
                }
                assert(base.roots.len() == 0 ==> forall|k: int|
                    0 <= k < lock_roots@.len() ==> graph@.has_module(
                        (#[trigger] lock_roots@[k])@,
                    ) || seq_has(views_of(pending@), (#[trigger] lock_roots@[k])@)) by {
                    if base.roots.len() == 0 {
                        assert forall|k: int|
                            0 <= k < lock_roots@.len() implies graph@.has_module(
                            (#[trigger] lock_roots@[k])@,
                        ) || seq_has(views_of(pending@), (#[trigger] lock_roots@[k])@) by {
                            if !graph@.has_module(lock_roots@[k]@) {
                                assert(!g_before.has_module(lock_roots@[k]@));
                                assert(seq_has(views_of(p_before), lock_roots@[k]@));
                            }
                        }
                    }
                }
                assert(graph@.roots =~= base.roots + (if base.roots.len() == 0 {
                    views_of(lock_roots@)
                } else {
                    Seq::<Seq<char>>::empty()
                }) + views_of(roots@).take(i as int + 1));
                assert forall|t: Seq<char>|
                    #![trigger seq_has(views_of(pending@), t)]
                    seq_has(views_of(pending@), t) <==> (((base.roots.len() == 0 && seq_has(
                        views_of(lock_roots@),
                        t,
                    )) || exists|k: int| 0 <= k < i + 1 && (#[trigger] roots@[k])@ == t)
                        && !base.has_module(t)) by {
                    assert(g_before.has_module(t) == base.has_module(t)) by {
                        if g_before.has_module(t) {
                            let x = choose|x: int|
                                0 <= x < g_before.modules.len() && g_before.modules[x].location()
                                    == t;
                            assert(base.modules[x].location() == t);
                        }
                        if base.has_module(t) {
                            let x = choose|x: int|
                                0 <= x < base.modules.len() && base.modules[x].location() == t;
                            assert(g_before.modules[x].location() == t);
                        }
                    }
                    if seq_has(views_of(pending@), t) {
                        if seq_has(views_of(p_before), t) {
                            if !(base.roots.len() == 0 && seq_has(views_of(lock_roots@), t)) {
                                let k = choose|k: int|
                                    0 <= k < i && (#[trigger] roots@[k])@ == t;
                                assert(roots@[k]@ == t);
                            }
                        } else {
                            assert(t == root@);
                            assert(roots@[i as int]@ == t);
                        }
                    } else {
                        if ((base.roots.len() == 0 && seq_has(views_of(lock_roots@), t))
                            || exists|k: int| 0 <= k < i + 1 && (#[trigger] roots@[k])@ == t)
                            && !base.has_module(t) {
                            if base.roots.len() == 0 && seq_has(views_of(lock_roots@), t) {
                                assert(seq_has(views_of(p_before), t));
                                assert(seq_has(views_of(pending@), t));
                            } else {
                                let k = choose|k: int|
                                    0 <= k < i + 1 && (#[trigger] roots@[k])@ == t;
                                if k < i {
                                    assert(seq_has(views_of(p_before), t));
                                    assert(seq_has(views_of(pending@), t));
                                } else {
                                    assert(t == root@);
                                    assert(seq_has(views_of(pending@), t));
                                }
                            }
                        }
                    }
                }
            }
            i = i + 1;
        }
        let s = BuildSession { graph, pending, follow_dynamic, base_len, base: Ghost(base) };
        proof {
            // The base graph's closure carries over unchanged: the session
            // starts with the very same records.
            assert forall|i: int, k: int|
                #![trigger record_edges(s.graph@.modules[i])[k]]
                0 <= i < s.graph@.modules.len() && 0 <= k < record_edges(
                    s.graph@.modules[i],
                ).len() && record_edges(s.graph@.modules[i])[k].outcome is Resolved
                    && !record_edges(s.graph@.modules[i])[k].is_dynamic implies (
            s.graph@.has_module(record_edges(s.graph@.modules[i])[k].outcome->Resolved_0)
                || s.in_pending(record_edges(s.graph@.modules[i])[k].outcome->Resolved_0)) by {
                assert(s.graph@.modules[i] == base.modules[i]);
                assert(record_edges(base.modules[i])[k].outcome is Resolved
                    && !record_edges(base.modules[i])[k].is_dynamic);
                let t = record_edges(s.graph@.modules[i])[k].outcome->Resolved_0;
                assert(base.has_module(t));
                let x = choose|x: int|
                    0 <= x < base.modules.len() && base.modules[x].location() == t;
                assert(s.graph@.modules[x].location() == t);
            }
            assert forall|k: int|
                0 <= k < roots@.len() implies s.graph@.has_module((#[trigger] roots@[k])@)
                || s.in_pending((#[trigger] roots@[k])@) by {
                if !s.graph@.has_module(roots@[k]@) {
                    assert(seq_has(views_of(s.pending@), roots@[k]@));
                    let x = choose|x: int|
                        0 <= x < views_of(s.pending@).len() && views_of(s.pending@)[x]
                            == roots@[k]@;
                    assert(s.pending@[x]@ == roots@[k]@);
                }
            }
            if base.roots.len() == 0 {
                assert forall|k: int|
                    0 <= k < lock_roots@.len() implies s.graph@.has_module(
                    (#[trigger] lock_roots@[k])@,
                ) || s.in_pending((#[trigger] lock_roots@[k])@) by {
                    if !s.graph@.has_module(lock_roots@[k]@) {
                        assert(seq_has(views_of(s.pending@), lock_roots@[k]@));
                        let x = choose|x: int|
                            0 <= x < views_of(s.pending@).len() && views_of(s.pending@)[x]
                                == lock_roots@[k]@;
                        assert(s.pending@[x]@ == lock_roots@[k]@);
                    }
                }
            }
            assert(views_of(roots@).take(roots@.len() as int) =~= views_of(roots@));
            assert(s.graph@.roots =~= base.roots + (if base.roots.len() == 0 {
                views_of(lock_roots@)
            } else {
                Seq::<Seq<char>>::empty()
            }) + views_of(roots@));
            assert forall|t: Seq<char>|
                s.in_pending(t) <==> (((base.roots.len() == 0 && seq_has(
                    views_of(lock_roots@),
                    t,
                )) || seq_has(views_of(roots@), t)) && !s.graph@.has_module(t)) by {
                assert(s.graph@.has_module(t) == base.has_module(t)) by {
                    if s.graph@.has_module(t) {
                        let x = choose|x: int|
                            0 <= x < s.graph@.modules.len() && s.graph@.modules[x].location()
                                == t;
                        assert(base.modules[x].location() == t);
                    }
                    if base.has_module(t) {
                        let x = choose|x: int|
                            0 <= x < base.modules.len() && base.modules[x].location() == t;
                        assert(s.graph@.modules[x].location() == t);
                    }
                }
                assert(s.in_pending(t) == seq_has(views_of(s.pending@), t)) by {
                    if s.in_pending(t) {
                        let k = choose|k: int|
                            0 <= k < s.pending@.len() && (#[trigger] s.pending@[k])@ == t;
                        assert(views_of(s.pending@)[k] == t);
                    }
                    if seq_has(views_of(s.pending@), t) {
                        let k = choose|k: int|
                            0 <= k < views_of(s.pending@).len() && views_of(s.pending@)[k] == t;
                        assert(s.pending@[k]@ == t);
                    }
                }
                assert((exists|k: int| 0 <= k < roots@.len() && (#[trigger] roots@[k])@ == t)
                    == seq_has(views_of(roots@), t)) by {
                    if exists|k: int| 0 <= k < roots@.len() && (#[trigger] roots@[k])@ == t {
                        let k = choose|k: int|
                            0 <= k < roots@.len() && (#[trigger] roots@[k])@ == t;
                        assert(views_of(roots@)[k] == t);
                    }
                    if seq_has(views_of(roots@), t) {
                        let k = choose|k: int|
                            0 <= k < views_of(roots@).len() && views_of(roots@)[k] == t;
                        assert(roots@[k]@ == t);
                    }
                }
            }
        }
        s
    }

    /// Publishes a finished session's graph whole and reports the
    /// structural diagnostics of the records this session added -- earlier
    /// builds' diagnostics are not re-reported. The session must have begun
    /// from the currently published graph: mutations are serialized, and a
    /// session begun before another mutation published cannot commit over
    /// it. With the worklist empty, the session's edge-target closure makes
    /// the published graph internally consistent, which `final(self).wf()`
    /// states.
    pub fn commit_build(&mut self, session: BuildSession) -> (diagnostics: Vec<String>)
        requires
            session.wf(),
            old(self).wf(),
            session.pending@.len() == 0,
            session.base@ == old(self).graph@,
        ensures
            final(self).wf(),
            final(self).graph@ == session.graph@,
            final(self).graph@.extends(old(self).graph@),
            final(self).graph@.wf(),
            spec_static_edges_closed(final(self).graph@),
            final(self).root_dir_url == old(self).root_dir_url,
            final(self).initial_cwd == old(self).initial_cwd,
            final(self).no_transpile == old(self).no_transpile,
            final(self).parsed_cache == old(self).parsed_cache,
            views_of(diagnostics@) == spec_diagnostics(
                session.graph@.modules,
                session.base_len as int,
            ),
    {
        proof {
            // An empty worklist turns the session's closure into the
            // published graph's internal consistency.
            assert forall|i: int, k: int|
                #![trigger record_edges(session.graph@.modules[i])[k]]
                0 <= i < session.graph@.modules.len() && 0 <= k < record_edges(
                    session.graph@.modules[i],
                ).len() && record_edges(session.graph@.modules[i])[k].outcome is Resolved
                    && !record_edges(session.graph@.modules[i])[k].is_dynamic
                implies session.graph@.has_module(
                record_edges(session.graph@.modules[i])[k].outcome->Resolved_0,
            ) by {
                let t = record_edges(session.graph@.modules[i])[k].outcome->Resolved_0;
                if session.in_pending(t) {
                    let kk = choose|kk: int|
                        0 <= kk < session.pending@.len() && (#[trigger] session.pending@[kk])@
                            == t;
                }
            }
            assert(spec_static_edges_closed(session.graph@));
        }
        let diagnostics = collect_diagnostics(&session.graph, session.base_len);
        self.graph.set(session.graph);
        diagnostics
    }
}

/// Law: serialized graph growth loses no update. When one build grows the
/// published graph from one snapshot to the next, and a second build begun on
/// that next snapshot publishes a third, the final graph still holds every
/// module and every root of both earlier snapshots: modules either build
/// added are present together.
pub proof fn lemma_no_lost_update(g0: GraphView, g1: GraphView, g2: GraphView, location: Seq<char>)
    requires
        g1.extends(g0),
        g2.extends(g1),
    ensures
        g2.extends(g0),
        g0.has_module(location) ==> g2.has_module(location),
        g1.has_module(location) ==> g2.has_module(location),
{
    lemma_extends_transitive(g2, g1, g0);
    if g0.has_module(location) {
        let i = choose|i: int|
            0 <= i < g0.modules.len() && g0.modules[i].location() == location;
        assert(g2.modules.contains(g0.modules[i]));
        let j = choose|j: int| 0 <= j < g2.modules.len() && g2.modules[j] == g0.modules[i];
        assert(g2.modules[j].location() == location);
    }
    if g1.has_module(location) {
        let i = choose|i: int|
            0 <= i < g1.modules.len() && g1.modules[i].location() == location;
        assert(g2.modules.contains(g1.modules[i]));
        let j = choose|j: int| 0 <= j < g2.modules.len() && g2.modules[j] == g1.modules[i];
        assert(g2.modules[j].location() == location);
    }
}

fn make_record(location: String, outcome: FetchOutcome) -> (r: ModuleRecord)
    ensures
        r@ == spec_record_of(location@, outcome@),
{
    let ghost loc_view = location@;
    let ghost outcome_view = outcome@;
    match outcome {
        FetchOutcome::Source { media, source, is_script, edges } => {
            let r = ModuleRecord::Source { location, media, source, is_script, edges };
            assert(r@ =~= spec_record_of(loc_view, outcome_view));
            r
        },
        FetchOutcome::External => ModuleRecord::External { location },
        FetchOutcome::Builtin => ModuleRecord::Builtin { location },
        FetchOutcome::Registry { coordinate } => ModuleRecord::Registry { location, coordinate },
        FetchOutcome::Failed { message } => ModuleRecord::Failed { location, message },
    }
}

} // verus!
