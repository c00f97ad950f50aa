//! Mesh bookkeeping: a polygon arena whose quads name their corner vertices
//! by stable index — an index stays valid however the vertex store grows —
//! and the bounded search that cylinder generation uses to find a reference
//! vector that is not degenerate with respect to the cylinder axis.
//!
//! The coordinate arithmetic itself (vector sums, cross products, the ring
//! trigonometry) is floating-point work done by the outer layer; this module
//! holds the structure and the decisions that arithmetic feeds.

use vstd::prelude::*;

verus! {

/// Number of angular segments each generated ring is divided into.
pub const CYLINDER_DIVS: i32 = 15;

/// One quad, naming its four corner vertices by index into the owning
/// arena's vertex store.
#[derive(Clone, Copy, Debug, PartialEq, Eq, Structural)]
pub struct Quad {
    pub vert1: usize,
    pub vert2: usize,
    pub vert3: usize,
    pub vert4: usize,
}

/// A growing store of vertices and the quads built over them. Quads refer
/// to corners by index, never by address, so growing the store never
/// invalidates a quad.
pub struct Polygons<V> {
    vertices: Vec<V>,
    quads: Vec<Quad>,
}

impl<V> Polygons<V> {
    /// The vertices stored so far, in insertion order.
    pub closed spec fn spec_vertices(self) -> Seq<V> {
        self.vertices@
    }

    /// The quads recorded so far, in insertion order.
    pub closed spec fn spec_quads(self) -> Seq<Quad> {
        self.quads@
    }

    /// Every quad's corner indices point at stored vertices.
    pub closed spec fn wf(self) -> bool {
        forall|i: int|
            0 <= i < self.quads@.len() ==> ((#[trigger] self.quads@[i]).vert1
                < self.vertices@.len() && self.quads@[i].vert2 < self.vertices@.len()
                && self.quads@[i].vert3 < self.vertices@.len() && self.quads@[i].vert4
                < self.vertices@.len())
    }

    pub fn new() -> (r: Polygons<V>)
        ensures
            r.spec_vertices() == Seq::<V>::empty(),
            r.spec_quads() == Seq::<Quad>::empty(),
            r.wf(),
    {
        Polygons { vertices: Vec::new(), quads: Vec::new() }
    }

    pub fn vertex_count(&self) -> (n: usize)
        ensures
            n == self.spec_vertices().len(),
    {
        self.vertices.len()
    }

    pub fn quad_count(&self) -> (n: usize)
        ensures
            n == self.spec_quads().len(),
    {
        self.quads.len()
    }

    /// Store one vertex and hand back its stable index.
    pub fn new_vertex(&mut self, v: V) -> (idx: usize)
        ensures
            final(self).spec_vertices() == old(self).spec_vertices().push(v),
            final(self).spec_quads() == old(self).spec_quads(),
            idx == old(self).spec_vertices().len(),
            old(self).wf() ==> final(self).wf(),
    {
        let idx: usize = self.vertices.len();
        self.vertices.push(v);
        idx
    }

    /// Record a quad over four already-stored vertices, named by index.
    pub fn new_quad(&mut self, vert1: usize, vert2: usize, vert3: usize, vert4: usize)
        requires
            old(self).wf(),
            vert1 < old(self).spec_vertices().len(),
            vert2 < old(self).spec_vertices().len(),
            vert3 < old(self).spec_vertices().len(),
            vert4 < old(self).spec_vertices().len(),
        ensures
            final(self).spec_vertices() == old(self).spec_vertices(),
            final(self).spec_quads() == old(self).spec_quads().push(
                Quad { vert1, vert2, vert3, vert4 },
            ),
            final(self).wf(),
    {
        self.quads.push(Quad { vert1, vert2, vert3, vert4 });
    }

    /// The vertex at a stable index.
    pub fn vertex(&self, idx: usize) -> (v: &V)
        requires
            idx < self.spec_vertices().len(),
        ensures
            *v == self.spec_vertices()[idx as int],
    {
        &self.vertices[idx]
    }

    /// The quad at an index; its corners are valid vertex indices.
    pub fn quad(&self, idx: usize) -> (q: Quad)
        requires
            self.wf(),
            idx < self.spec_quads().len(),
        ensures
            q == self.spec_quads()[idx as int],
            q.vert1 < self.spec_vertices().len(),
            q.vert2 < self.spec_vertices().len(),
            q.vert3 < self.spec_vertices().len(),
            q.vert4 < self.spec_vertices().len(),
    {
        self.quads[idx]
    }
}

/// Cap on how often the reference-vector search may nudge its candidate
/// before giving up. The axis may be degenerate (the two cylinder centers
/// coincident), in which case no candidate ever passes; the cap keeps the
/// search finite even then.
pub const MAX_REF_SEARCH_STEPS: u32 = 64;

/// The verdict of one reference-vector search step.
#[derive(Clone, Copy, Debug, PartialEq, Eq, Structural)]
pub enum SearchStep {
    /// The candidate is usable; the search is over.
    Accept,
    /// The candidate is degenerate; nudge it and test again.
    Nudge,
    /// The candidate is degenerate and the step budget is spent; fail.
    GiveUp,
}

/// The search for a reference vector that is neither parallel to nor
/// coincident with the cylinder axis. Testing a candidate and nudging it are
/// floating-point work done by the caller; this state machine decides, from
/// each test's verdict, whether to accept the candidate, try once more, or
/// give up.
#[derive(Clone, Copy, Debug, PartialEq, Eq, Structural)]
pub struct RefVectorSearch {
    pub steps: u32,
}

/// Nudge budget still unspent in a search state.
pub open spec fn spec_budget(s: RefVectorSearch) -> int {
    MAX_REF_SEARCH_STEPS - s.steps
}

/// The search's transition: what one degeneracy verdict does to the state.
pub open spec fn spec_next(s: RefVectorSearch, degenerate: bool) -> (RefVectorSearch, SearchStep) {
    if !degenerate {
        (s, SearchStep::Accept)
    } else if s.steps < MAX_REF_SEARCH_STEPS {
        (RefVectorSearch { steps: (s.steps + 1) as u32 }, SearchStep::Nudge)
    } else {
        (s, SearchStep::GiveUp)
    }
}

impl RefVectorSearch {
    pub fn new() -> (s: RefVectorSearch)
        ensures
            s.steps == 0,
    {
        RefVectorSearch { steps: 0 }
    }

    /// Judge one candidate: `degenerate` is the caller's test of the current
    /// candidate against the axis.
    pub fn next(&mut self, degenerate: bool) -> (r: SearchStep)
        ensures
            (*final(self), r) == spec_next(*old(self), degenerate),
    {
        if !degenerate {
            SearchStep::Accept
        } else if self.steps < MAX_REF_SEARCH_STEPS {
            self.steps = self.steps + 1;
            SearchStep::Nudge
        } else {
            SearchStep::GiveUp
        }
    }
}

/// The search always terminates, whatever verdicts the geometry produces:
/// only `Nudge` continues it, every `Nudge` strictly shrinks the remaining
/// budget, and a state with no budget left never answers `Nudge` again.
pub proof fn lemma_search_terminates(s: RefVectorSearch, degenerate: bool)
    ensures
        spec_next(s, degenerate).1 == SearchStep::Nudge ==> spec_budget(spec_next(s, degenerate).0)
            < spec_budget(s),
        spec_budget(s) <= 0 ==> spec_next(s, degenerate).1 != SearchStep::Nudge,
{
}

} // verus!
