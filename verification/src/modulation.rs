use vstd::prelude::*;

verus! {

use crate::units::in_limit;
use crate::synth_params::{OpParams, SynthParams};

/// Which parameter of which operator the LFO writes into.
#[derive(Clone, Copy, Debug, PartialEq, Eq, Structural)]
pub enum ModTarget {
    OpVolume(u8),
    OpRatio(u8),
}

impl ModTarget {
    pub open spec fn spec_op_index(self) -> int {
        match self {
            ModTarget::OpVolume(i) => i as int,
            ModTarget::OpRatio(i) => i as int,
        }
    }

    /// The target names one of the four operators.
    pub open spec fn wf(self) -> bool {
        self.spec_op_index() < 4
    }
}

/// A named modulation destination offered to the user.
#[derive(Debug, PartialEq, Eq)]
pub struct ModDestination {
    pub name: String,
    pub dest: ModTarget,
}

impl Clone for ModDestination {
    fn clone(&self) -> (r: Self)
        ensures
            r == *self,
    {
        ModDestination { name: self.name.clone(), dest: self.dest }
    }
}

pub type ModDestinations = Vec<(usize, ModDestination)>;

/// The destination list is indexed by its own positions and every entry
/// names a real operator.
pub open spec fn mod_dests_wf(dests: ModDestinations) -> bool {
    &&& dests.len() > 0
    &&& dests.len() <= 1000
    &&& forall|i: int| 0 <= i < dests.len()
        ==> #[trigger] dests[i].0 == i && dests[i].1.dest.wf()
}

/// The fixed destination list: operator 2's volume and ratio.
pub fn create_modulation_list() -> (r: ModDestinations)
    ensures
        mod_dests_wf(r),
        r.len() == 2,
        r[0].1.name@ == "Vol"@,
        r[0].1.dest == ModTarget::OpVolume(1),
        r[1].1.name@ == "Ratio"@,
        r[1].1.dest == ModTarget::OpRatio(1),
{
    let mut r: ModDestinations = Vec::new();
    r.push((0, ModDestination { name: String::from_str("Vol"), dest: ModTarget::OpVolume(1) }));
    r.push((1, ModDestination { name: String::from_str("Ratio"), dest: ModTarget::OpRatio(1) }));
    r
}

/// The operator parameters after an LFO write of `sample` into `target`.
pub open spec fn spec_lfo_written(op: OpParams, target: ModTarget, sample: int) -> OpParams {
    match target {
        ModTarget::OpVolume(_) => OpParams { volume: op.volume.spec_set_modulation(sample), ..op },
        ModTarget::OpRatio(_) => OpParams { ratio: op.ratio.spec_set_modulation(sample), ..op },
    }
}

/// One render-block LFO write: overwrites the modulation overlay of the
/// targeted parameter with `sample`; nothing else changes.
pub fn apply_lfo(params: &mut SynthParams, target: ModTarget, sample: i64)
    requires
        old(params).inv(),
        target.wf(),
        in_limit(sample as int),
    ensures
        final(params).inv(),
        final(params).voice_params == old(params).voice_params,
        final(params).ops@ == old(params).ops@.update(
            target.spec_op_index(),
            spec_lfo_written(old(params).ops[target.spec_op_index()], target, sample as int),
        ),
{
    let idx: usize = match target {
        ModTarget::OpVolume(i) => i as usize,
        ModTarget::OpRatio(i) => i as usize,
    };
    proof {
        assert(old(params).ops[idx as int].inv());
    }
    let mut op = params.ops[idx];
    match target {
        ModTarget::OpVolume(_) => op.volume.set_modulation(sample),
        ModTarget::OpRatio(_) => op.ratio.set_modulation(sample),
    }
    params.ops.set(idx, op);
}

/// One render block's LFO work against the published graph snapshot: an
/// active LFO slot writes the block's waveform sample into its target's
/// overlay; an empty slot is a no-op pass-through.
pub fn render_block_lfo(params: &mut SynthParams, graph: &crate::graph::SignalGraph, sample: i64)
    requires
        old(params).inv(),
        graph.wf(),
        in_limit(sample as int),
    ensures
        final(params).inv(),
        final(params).voice_params == old(params).voice_params,
        final(params).ops@ == match graph.lfo_target {
            Some(t) => old(params).ops@.update(
                t.spec_op_index(),
                spec_lfo_written(old(params).ops[t.spec_op_index()], t, sample as int),
            ),
            None => old(params).ops@,
        },
{
    match graph.lfo_target {
        Some(t) => apply_lfo(params, t, sample),
        None => {},
    }
}

} // verus!
