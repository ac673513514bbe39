use vstd::prelude::*;

verus! {

use crate::units::{UNIT, VAL_LIMIT, spec_clamp, in_limit, clamp_value};

/// One synthesizer control: a base value written by the control side, a
/// modulation overlay written by the render side, and a clamp range.  The
/// externally visible value is always `clamp(base + overlay)`.
#[derive(Clone, Copy, Debug, PartialEq, Eq, Structural)]
pub struct Param {
    pub value: i64,
    pub clamp_min: i64,
    pub clamp_max: i64,
    pub modulation: i64,
}

impl Param {
    /// Range and contents stay inside the storage bound, the base value
    /// inside the clamp range.
    pub open spec fn inv(self) -> bool {
        &&& -VAL_LIMIT <= self.clamp_min <= self.clamp_max <= VAL_LIMIT
        &&& self.clamp_min <= self.value <= self.clamp_max
        &&& in_limit(self.modulation as int)
    }

    pub open spec fn spec_min(self) -> int {
        self.clamp_min as int
    }

    pub open spec fn spec_max(self) -> int {
        self.clamp_max as int
    }

    /// The stored base value, without the overlay.
    pub open spec fn spec_unmodulated(self) -> int {
        self.value as int
    }

    /// The stored modulation overlay.
    pub open spec fn spec_modulation(self) -> int {
        self.modulation as int
    }

    /// The externally visible value: `clamp(base + overlay)`.
    pub open spec fn spec_value(self) -> int {
        spec_clamp(self.spec_min(), self.spec_max(), self.value + self.modulation)
    }

    /// The parameter after a base write of `v`: the base is clamped at once,
    /// range and overlay are untouched.
    pub open spec fn spec_set_value(self, v: int) -> Param {
        Param { value: spec_clamp(self.spec_min(), self.spec_max(), v) as i64, ..self }
    }

    /// The parameter after an overlay write of `m`: the overlay is
    /// overwritten, base and range are untouched.
    pub open spec fn spec_set_modulation(self, m: int) -> Param {
        Param { modulation: m as i64, ..self }
    }

    pub fn new(value: i64, clamp: (i64, i64)) -> (r: Param)
        requires
            -VAL_LIMIT <= clamp.0 <= clamp.1 <= VAL_LIMIT,
        ensures
            r.inv(),
            r.spec_min() == clamp.0,
            r.spec_max() == clamp.1,
            r.spec_unmodulated() == spec_clamp(clamp.0 as int, clamp.1 as int, value as int),
            r.spec_modulation() == 0,
    {
        Param { value: clamp_value(clamp.0, clamp.1, value), clamp_min: clamp.0, clamp_max: clamp.1, modulation: 0 }
    }

    /// Writes the base value, clamping it immediately; out-of-range input is
    /// never an error.
    pub fn set_value(&mut self, value: i64)
        requires
            old(self).inv(),
        ensures
            final(self).inv(),
            *final(self) == old(self).spec_set_value(value as int),
    {
        self.value = clamp_value(self.clamp_min, self.clamp_max, value);
    }

    /// The base value alone, unaffected by the modulation overlay.
    pub fn unmodulated_value(&self) -> (r: i64)
        ensures
            r == self.spec_unmodulated(),
    {
        self.value
    }

    /// Overwrites the modulation overlay (the render side does this once per
    /// block); the base value is untouched.
    pub fn set_modulation(&mut self, value: i64)
        requires
            old(self).inv(),
            in_limit(value as int),
        ensures
            final(self).inv(),
            *final(self) == old(self).spec_set_modulation(value as int),
    {
        self.modulation = value;
    }

    /// The externally visible value, `clamp(base + overlay)`; always inside
    /// the clamp range.
    pub fn value(&self) -> (r: i64)
        requires
            self.inv(),
        ensures
            r == self.spec_value(),
            self.spec_min() <= r <= self.spec_max(),
    {
        proof {
            assert(-2 * VAL_LIMIT <= self.value + self.modulation <= 2 * VAL_LIMIT);
        }
        clamp_value(self.clamp_min, self.clamp_max, self.value + self.modulation)
    }
}

/// A base write followed by a read with no overlay yields exactly the
/// clamped input, for every input and exactly at the boundaries.
pub proof fn lemma_set_value_then_value(p: Param, x: int)
    requires
        p.inv(),
        p.spec_modulation() == 0,
    ensures
        p.spec_set_value(x).spec_value() == spec_clamp(p.spec_min(), p.spec_max(), x),
{
}

/// The visible value is `clamp(base + overlay)`, and an overlay write never
/// perturbs the unmodulated value.
pub proof fn lemma_overlay_preserves_unmodulated(p: Param, m: int)
    requires
        p.inv(),
    ensures
        p.spec_set_modulation(m).spec_unmodulated() == p.spec_unmodulated(),
        p.spec_value() == spec_clamp(p.spec_min(), p.spec_max(),
            p.spec_unmodulated() + p.spec_modulation()),
{
}

} // verus!
