use vstd::prelude::*;

verus! {

use crate::units::{UNIT, in_limit};
use crate::param::Param;

/// Envelope segment times (micro-seconds) and sustain level (micro-units)
/// for one operator; mutable at control rate, unclamped.
#[derive(Clone, Copy, Debug, PartialEq, Eq, Structural)]
pub struct AdsrParams {
    pub a: i64,
    pub d: i64,
    pub s: i64,
    pub r: i64,
}

impl AdsrParams {
    pub open spec fn inv(self) -> bool {
        &&& in_limit(self.a as int)
        &&& in_limit(self.d as int)
        &&& in_limit(self.s as int)
        &&& in_limit(self.r as int)
    }

    /// A 10 ms attack straight to a full-level sustain.
    pub open spec fn spec_default() -> AdsrParams {
        AdsrParams { a: 10_000, d: 0, s: UNIT, r: 0 }
    }
}

impl Default for AdsrParams {
    fn default() -> (r: AdsrParams)
        ensures
            r == AdsrParams::spec_default(),
            r.inv(),
    {
        AdsrParams { a: 10_000, d: 0, s: UNIT, r: 0 }
    }
}

/// One FM operator's controls, shared by every voice: frequency ratio,
/// output volume, and the envelope times.
#[derive(Clone, Copy, Debug, PartialEq, Eq, Structural)]
pub struct OpParams {
    pub ratio: Param,
    pub volume: Param,
    pub adsr_params: AdsrParams,
}

impl OpParams {
    pub open spec fn inv(self) -> bool {
        &&& self.ratio.inv()
        &&& self.volume.inv()
        &&& self.adsr_params.inv()
    }

    /// Ratio 1 in `[1, 999]`, volume 0.05 in `[0, 1]`, default envelope.
    pub open spec fn spec_default() -> OpParams {
        OpParams {
            ratio: Param { value: UNIT, clamp_min: UNIT, clamp_max: 999_000_000, modulation: 0 },
            volume: Param { value: 50_000, clamp_min: 0, clamp_max: UNIT, modulation: 0 },
            adsr_params: AdsrParams::spec_default(),
        }
    }
}

impl Default for OpParams {
    fn default() -> (r: OpParams)
        ensures
            r == OpParams::spec_default(),
            r.inv(),
    {
        OpParams {
            ratio: Param::new(UNIT, (UNIT, 999 * UNIT)),
            volume: Param::new(50_000, (0, UNIT)),
            adsr_params: AdsrParams::default(),
        }
    }
}

/// Per-voice state read by the render path: pitch (micro-hertz), volume,
/// pitch-bend multiplier, and a gate level (positive while the note is held).
#[derive(Clone, Copy, Debug, PartialEq, Eq, Structural)]
pub struct VoiceParams {
    pub pitch: i64,
    pub volume: i64,
    pub pitch_bend: i64,
    pub control: i64,
}

impl VoiceParams {
    pub open spec fn inv(self) -> bool {
        &&& in_limit(self.pitch as int)
        &&& in_limit(self.volume as int)
        &&& in_limit(self.pitch_bend as int)
        &&& in_limit(self.control as int)
    }

    /// Silent and released until the first note-on claims the voice.
    pub open spec fn spec_default() -> VoiceParams {
        VoiceParams { pitch: 0, volume: 0, pitch_bend: 0, control: 0 }
    }
}

impl Default for VoiceParams {
    fn default() -> (r: VoiceParams)
        ensures
            r == VoiceParams::spec_default(),
            r.inv(),
    {
        VoiceParams { pitch: 0, volume: 0, pitch_bend: 0, control: 0 }
    }
}

/// The whole control surface of the synthesizer: one `VoiceParams` per
/// voice and the four global operators.
#[derive(Clone, Debug, PartialEq, Eq)]
pub struct SynthParams {
    pub voice_params: Vec<VoiceParams>,
    pub ops: Vec<OpParams>,
}

impl SynthParams {
    pub open spec fn inv(self) -> bool {
        &&& self.ops.len() == 4
        &&& forall|i: int| 0 <= i < self.ops.len() ==> #[trigger] self.ops[i].inv()
        &&& forall|i: int| 0 <= i < self.voice_params.len()
            ==> #[trigger] self.voice_params[i].inv()
    }

    /// Builds the store with `voice_count` voices and the four default
    /// operators.
    pub fn new(voice_count: u8) -> (r: SynthParams)
        ensures
            r.inv(),
            r.voice_params.len() == voice_count,
            r.ops.len() == 4,
            forall|i: int| 0 <= i < voice_count
                ==> #[trigger] r.voice_params[i] == VoiceParams::spec_default(),
            forall|i: int| 0 <= i < 4 ==> #[trigger] r.ops[i] == OpParams::spec_default(),
    {
        let mut voice_params: Vec<VoiceParams> = Vec::new();
        let mut i: usize = 0;
        while i < voice_count as usize
            invariant
                i <= voice_count as usize,
                voice_params.len() == i,
                forall|j: int| 0 <= j < i
                    ==> #[trigger] voice_params[j] == VoiceParams::spec_default(),
            decreases voice_count as usize - i,
        {
            voice_params.push(VoiceParams::default());
            i = i + 1;
        }
        let mut ops: Vec<OpParams> = Vec::new();
        let mut k: usize = 0;
        while k < 4
            invariant
                k <= 4,
                ops.len() == k,
                forall|j: int| 0 <= j < k ==> #[trigger] ops[j] == OpParams::spec_default(),
            decreases 4 - k,
        {
            ops.push(OpParams::default());
            k = k + 1;
        }
        SynthParams { voice_params, ops }
    }
}

impl Default for SynthParams {
    /// The default store: eight voices.
    fn default() -> (r: SynthParams)
        ensures
            r.inv(),
            r.voice_params.len() == 8,
            r.ops.len() == 4,
            forall|i: int| 0 <= i < 8
                ==> #[trigger] r.voice_params[i] == VoiceParams::spec_default(),
            forall|i: int| 0 <= i < 4 ==> #[trigger] r.ops[i] == OpParams::spec_default(),
    {
        SynthParams::new(8)
    }
}

} // verus!
