use vstd::prelude::*;

verus! {

use crate::modulation::ModTarget;

/// The structural description of the live signal graph: `voice_count`
/// serial four-operator chains (deepest modulator feeding the next, the
/// audible operator last), a summing node over all voices, and one
/// replaceable LFO slot.  `lfo_target` names the parameter the LFO node
/// writes into; `None` is the inactive pass-through slot.
#[derive(Clone, Copy, Debug, PartialEq, Eq, Structural)]
pub struct SignalGraph {
    pub voice_count: u8,
    pub lfo_target: Option<ModTarget>,
}

impl SignalGraph {
    pub open spec fn wf(self) -> bool {
        &&& 0 < self.voice_count
        &&& (self.lfo_target matches Some(t) ==> t.wf())
    }

    /// The graph as wired at startup: all voices into the mixer, LFO slot
    /// empty.
    pub open spec fn spec_new(voice_count: u8) -> SignalGraph {
        SignalGraph { voice_count, lfo_target: None }
    }

    /// The same topology with the LFO slot rewired to `t`.
    pub open spec fn spec_with_lfo(self, t: ModTarget) -> SignalGraph {
        SignalGraph { lfo_target: Some(t), ..self }
    }
}

/// The engine that lets the control thread rewire the graph while the
/// render thread keeps pulling samples: the control side edits a private
/// description, and `commit` publishes the whole edited value in a single
/// snapshot swap.  The render side only ever reads the published snapshot,
/// so a half-finished edit is invisible to it.
#[derive(Clone, Copy, Debug, PartialEq, Eq, Structural)]
pub struct GraphEngine {
    pub edited: SignalGraph,
    pub published: SignalGraph,
}

impl GraphEngine {
    pub open spec fn inv(self) -> bool {
        &&& self.edited.wf()
        &&& self.published.wf()
    }

    /// The engine after an LFO rewire: only the private edit moves.
    pub open spec fn spec_replace_lfo(self, t: ModTarget) -> GraphEngine {
        GraphEngine { edited: self.edited.spec_with_lfo(t), ..self }
    }

    /// The engine after a commit: the edited description, whole, becomes
    /// the published snapshot.
    pub open spec fn spec_commit(self) -> GraphEngine {
        GraphEngine { published: self.edited, ..self }
    }

    /// What the render side observes: always the published snapshot.
    pub open spec fn spec_observe(self) -> SignalGraph {
        self.published
    }

    /// A fresh engine: edit state and published snapshot both hold the
    /// startup wiring.
    pub fn new(voice_count: u8) -> (r: GraphEngine)
        requires
            0 < voice_count,
        ensures
            r.inv(),
            r.edited == SignalGraph::spec_new(voice_count),
            r.published == SignalGraph::spec_new(voice_count),
    {
        let g = SignalGraph { voice_count, lfo_target: None };
        GraphEngine { edited: g, published: g }
    }

    /// Rewires the LFO slot in the edit state; the published snapshot --
    /// and with it everything the render side can see -- is untouched.
    pub fn replace_lfo(&mut self, t: ModTarget)
        requires
            old(self).inv(),
            t.wf(),
        ensures
            final(self).inv(),
            *final(self) == old(self).spec_replace_lfo(t),
            final(self).spec_observe() == old(self).spec_observe(),
    {
        self.edited = SignalGraph { voice_count: self.edited.voice_count, lfo_target: Some(t) };
    }

    /// Publishes the edited description as one atomic snapshot; the render
    /// side adopts it at its next block boundary.
    pub fn commit(&mut self)
        requires
            old(self).inv(),
        ensures
            final(self).inv(),
            *final(self) == old(self).spec_commit(),
            final(self).spec_observe() == old(self).edited,
    {
        self.published = self.edited;
    }

    /// The render side's read: the latest published snapshot.
    pub fn observe(&self) -> (r: SignalGraph)
        requires
            self.inv(),
        ensures
            r == self.spec_observe(),
            r.wf(),
    {
        self.published
    }
}

/// The snapshot handoff is atomic: while the control side rewires the LFO
/// slot, every observation yields the pre-edit topology, and from the
/// commit on it yields the complete post-edit topology -- never a mixture,
/// and always a well-formed graph.
pub proof fn lemma_snapshot_handoff(e: GraphEngine, t: ModTarget)
    requires
        e.inv(),
        t.wf(),
    ensures
        e.spec_replace_lfo(t).spec_observe() == e.spec_observe(),
        e.spec_replace_lfo(t).spec_commit().spec_observe() == e.edited.spec_with_lfo(t),
        e.spec_replace_lfo(t).inv(),
        e.spec_replace_lfo(t).spec_commit().inv(),
{
}

} // verus!
