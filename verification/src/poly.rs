use vstd::prelude::*;

verus! {

use crate::units::{UNIT, VAL_LIMIT};
use crate::synth_params::VoiceParams;

pub type VoiceIndex = u8;

/// Bookkeeping for one polyphony slot: the note it last played and its slot
/// index.
#[derive(Clone, Copy, Debug, PartialEq, Eq, Structural)]
pub struct Voice {
    pub note: u8,
    pub voice_index: VoiceIndex,
}

#[derive(Clone, Copy, Debug, PartialEq, Eq, Structural)]
pub enum VoiceMode {
    OpenPoly,
}

/// The polyphonic voice allocator: a fixed-size slot array with a
/// round-robin cursor.  Note-on always succeeds, silently overwriting a
/// still-held voice.
#[derive(Clone, Debug, PartialEq, Eq)]
pub struct MonoPoly {
    pub voice_size: VoiceIndex,
    pub voice_mode: VoiceMode,
    pub voices: Vec<Voice>,
    pub last_voice_index: VoiceIndex,
}

/// Equal-tempered semitone ratio `2^(s/12)` in micro-units, for
/// `0 <= s < 12`.
pub open spec fn spec_semitone_ratio(s: int) -> int {
    if s == 0 {
        1_000_000
    } else if s == 1 {
        1_059_463
    } else if s == 2 {
        1_122_462
    } else if s == 3 {
        1_189_207
    } else if s == 4 {
        1_259_921
    } else if s == 5 {
        1_334_840
    } else if s == 6 {
        1_414_214
    } else if s == 7 {
        1_498_307
    } else if s == 8 {
        1_587_401
    } else if s == 9 {
        1_681_793
    } else if s == 10 {
        1_781_797
    } else {
        1_887_749
    }
}

pub open spec fn spec_pow2(k: nat) -> int
    decreases k,
{
    if k == 0 {
        1
    } else {
        2 * spec_pow2((k - 1) as nat)
    }
}

/// Pitch of a MIDI note in micro-hertz: 440 Hz at note 69, doubling every
/// 12 semitones, equal-tempered ratios within the octave (octaves below 440
/// divide with truncation).
pub open spec fn spec_note_pitch(note: int) -> int {
    if note >= 69 {
        let d = note - 69;
        (440 * spec_semitone_ratio(d % 12)) * spec_pow2((d / 12) as nat)
    } else {
        let u = 69 - note;
        let s = (12 - (u % 12)) % 12;
        (440 * spec_semitone_ratio(s)) / spec_pow2(((u + s) / 12) as nat)
    }
}

fn semitone_ratio(s: i64) -> (r: i64)
    requires
        0 <= s < 12,
    ensures
        r == spec_semitone_ratio(s as int),
        1_000_000 <= r <= 1_887_749,
{
    if s == 0 {
        1_000_000
    } else if s == 1 {
        1_059_463
    } else if s == 2 {
        1_122_462
    } else if s == 3 {
        1_189_207
    } else if s == 4 {
        1_259_921
    } else if s == 5 {
        1_334_840
    } else if s == 6 {
        1_414_214
    } else if s == 7 {
        1_498_307
    } else if s == 8 {
        1_587_401
    } else if s == 9 {
        1_681_793
    } else if s == 10 {
        1_781_797
    } else {
        1_887_749
    }
}

fn pow2_small(k: i64) -> (r: i64)
    requires
        0 <= k <= 6,
    ensures
        r == spec_pow2(k as nat),
        1 <= r <= 64,
{
    proof {
        reveal_with_fuel(spec_pow2, 8);
    }
    if k == 0 {
        1
    } else if k == 1 {
        2
    } else if k == 2 {
        4
    } else if k == 3 {
        8
    } else if k == 4 {
        16
    } else if k == 5 {
        32
    } else {
        64
    }
}

/// Pitch of a MIDI note in micro-hertz.
pub fn note_pitch(note: u8) -> (r: i64)
    requires
        note <= 127,
    ensures
        r == spec_note_pitch(note as int),
        0 < r <= VAL_LIMIT,
{
    let n = note as i64;
    if n >= 69 {
        let d = n - 69;
        let base = 440 * semitone_ratio(d % 12);
        let p = pow2_small(d / 12);
        proof {
            assert(base * p <= 830_609_560 * 64) by (nonlinear_arith)
                requires 0 < base <= 830_609_560 && 0 < p <= 64;
            assert(0 < base * p) by (nonlinear_arith)
                requires 0 < base && 0 < p;
        }
        base * p
    } else {
        let u = 69 - n;
        let s = (12 - (u % 12)) % 12;
        let base = 440 * semitone_ratio(s);
        let p = pow2_small((u + s) / 12);
        proof {
            assert((u + s) / 12 <= 6) by (nonlinear_arith)
                requires 0 <= u + s <= 80;
            assert(0 < base / p) by (nonlinear_arith)
                requires 440_000_000 <= base && 0 < p <= 64;
            assert(base / p <= base) by (nonlinear_arith)
                requires 0 < base && 0 < p;
        }
        base / p
    }
}

impl MonoPoly {
    pub open spec fn inv(self) -> bool {
        &&& 0 < self.voice_size
        &&& self.voices.len() == self.voice_size
        &&& self.last_voice_index < self.voice_size
    }

    /// A fresh pool of `voice_size` slots with the cursor at slot 0.
    pub fn new(voice_size: u8) -> (r: MonoPoly)
        requires
            0 < voice_size,
        ensures
            r.inv(),
            r.voice_size == voice_size,
            r.last_voice_index == 0,
            r.voice_mode == VoiceMode::OpenPoly,
            forall|i: int| 0 <= i < voice_size
                ==> #[trigger] r.voices[i] == (Voice { note: 64, voice_index: 1 }),
    {
        let mut voices: Vec<Voice> = Vec::new();
        let mut i: usize = 0;
        while i < voice_size as usize
            invariant
                i <= voice_size as usize,
                voices.len() == i,
                forall|j: int| 0 <= j < i
                    ==> #[trigger] voices[j] == (Voice { note: 64, voice_index: 1 }),
            decreases voice_size as usize - i,
        {
            voices.push(Voice { note: 64, voice_index: 1 });
            i = i + 1;
        }
        MonoPoly { voice_size, voice_mode: VoiceMode::OpenPoly, voices, last_voice_index: 0 }
    }

    /// Claims the slot under the cursor for `note`, unconditionally
    /// overwriting whatever was sounding there, and advances the cursor by
    /// one modulo the pool size.
    pub fn on_voice_on(&mut self, note: u8, velocity: u8, voice_params: &mut Vec<VoiceParams>)
        requires
            old(self).inv(),
            note <= 127,
            old(voice_params).len() == old(self).voice_size,
        ensures
            final(self).inv(),
            final(self).voice_size == old(self).voice_size,
            final(self).voice_mode == old(self).voice_mode,
            final(self).last_voice_index
                == (old(self).last_voice_index + 1) % (old(self).voice_size as int),
            final(self).voices@ == old(self).voices@.update(
                old(self).last_voice_index as int,
                Voice { note, voice_index: old(self).last_voice_index },
            ),
            final(voice_params)@ == old(voice_params)@.update(
                old(self).last_voice_index as int,
                VoiceParams {
                    pitch: spec_note_pitch(note as int) as i64,
                    volume: ((velocity * UNIT) / 127) as i64,
                    pitch_bend: UNIT,
                    control: UNIT,
                },
            ),
            final(voice_params)[old(self).last_voice_index as int].inv(),
    {
        let curr_index = self.last_voice_index as usize;
        self.voices.set(curr_index, Voice { note, voice_index: self.last_voice_index });
        let pitch = note_pitch(note);
        let volume = (velocity as i64 * UNIT) / 127;
        proof {
            assert(0 <= (velocity * UNIT) / 127 <= velocity * UNIT) by (nonlinear_arith)
                requires 0 <= velocity * UNIT;
            assert(velocity * UNIT <= 255 * 1_000_000) by (nonlinear_arith)
                requires 0 <= velocity <= 255 && UNIT == 1_000_000;
        }
        voice_params.set(
            curr_index,
            VoiceParams { pitch, volume, pitch_bend: UNIT, control: UNIT },
        );
        self.last_voice_index = (self.last_voice_index + 1) % self.voice_size;
    }

    /// Releases (gate to -1) every voice whose pitch equals the pitch of
    /// `note` -- duplicates from earlier retriggers included; every other
    /// voice is untouched.
    pub fn on_voice_off(&self, note: u8, voice_params: &mut Vec<VoiceParams>)
        requires
            note <= 127,
        ensures
            final(voice_params).len() == old(voice_params).len(),
            forall|i: int| 0 <= i < old(voice_params).len()
                ==> #[trigger] final(voice_params)[i] == (
                    if old(voice_params)[i].pitch == spec_note_pitch(note as int) {
                        VoiceParams { control: (-UNIT) as i64, ..old(voice_params)[i] }
                    } else {
                        old(voice_params)[i]
                    }),
    {
        let pitch = note_pitch(note);
        let mut i: usize = 0;
        while i < voice_params.len()
            invariant
                i <= voice_params.len(),
                voice_params.len() == old(voice_params).len(),
                pitch == spec_note_pitch(note as int),
                forall|j: int| 0 <= j < i
                    ==> #[trigger] voice_params[j] == (
                        if old(voice_params)[j].pitch == spec_note_pitch(note as int) {
                            VoiceParams { control: (-UNIT) as i64, ..old(voice_params)[j] }
                        } else {
                            old(voice_params)[j]
                        }),
                forall|j: int| i <= j < voice_params.len()
                    ==> #[trigger] voice_params[j] == old(voice_params)[j],
            decreases voice_params.len() - i,
        {
            if voice_params[i].pitch == pitch {
                let v = voice_params[i];
                voice_params.set(i, VoiceParams { control: -UNIT, ..v });
            }
            i = i + 1;
        }
    }
}

/// The cursor after `k` note-on calls, starting from a fresh pool of `n`
/// slots.
pub open spec fn spec_cursor_after(k: nat, n: int) -> int
    decreases k,
{
    if k == 0 {
        0
    } else {
        (spec_cursor_after((k - 1) as nat, n) + 1) % n
    }
}

/// Sequential note-on calls fill the slots round-robin: the `k`-th call
/// (counting from 0 on a fresh pool) lands in slot `k % n`, whatever notes
/// are played.
pub proof fn lemma_round_robin_slots(k: nat, n: int)
    requires
        0 < n,
    ensures
        spec_cursor_after(k, n) == (k as int) % n,
    decreases k,
{
    if k == 0 {
        assert(0int % n == 0) by (nonlinear_arith)
            requires 0 < n;
    } else {
        lemma_round_robin_slots((k - 1) as nat, n);
        assert(((((k - 1) as int) % n) + 1) % n == (k as int) % n) by (nonlinear_arith)
            requires 0 < n && k >= 1;
    }
}

} // verus!
