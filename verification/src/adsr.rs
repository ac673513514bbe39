use vstd::prelude::*;

verus! {

use crate::units::{UNIT, VAL_LIMIT, spec_clamp, spec_lerp, in_limit, clamp_value, lerp};

/// Per-(voice, operator) envelope state: the timestamp of the most recent
/// attack or release edge.  At most one of the two is active at a time.
#[derive(Clone, Copy, Debug, PartialEq, Eq)]
pub struct EnvState {
    pub attack_start: Option<i64>,
    pub release_start: Option<i64>,
}

impl EnvState {
    /// Well-formed at time `t`: recorded edges lie in `[0, t]`, and the two
    /// phases are never active together.
    pub open spec fn wf(self, t: int) -> bool {
        &&& (self.attack_start matches Some(s) ==> 0 <= s <= t)
        &&& (self.release_start matches Some(s) ==> 0 <= s <= t)
        &&& !(self.attack_start is Some && self.release_start is Some)
    }

    /// One of the two phases is active (true after every evaluation).
    pub open spec fn active(self) -> bool {
        self.attack_start is Some || self.release_start is Some
    }

    /// A fresh state: no edge seen yet, so the first evaluation enters a
    /// phase picked by whatever gate level it sees.
    pub fn new() -> (r: EnvState)
        ensures
            r.attack_start is None,
            r.release_start is None,
            forall|t: int| r.wf(t),
    {
        EnvState { attack_start: None, release_start: None }
    }
}

/// Attack-decay-sustain level at `tau` micro-seconds after the attack edge:
/// a ramp from 0 to `UNIT` over `attack`, then a ramp from `UNIT` to
/// `sustain` over `decay`, then the `sustain` plateau.  A non-positive
/// segment time acts as an instantaneous jump to the segment's target.
pub open spec fn spec_ads(attack: int, decay: int, sustain: int, tau: int) -> int {
    if tau < attack {
        (tau * UNIT) / attack
    } else if tau - attack < decay {
        spec_lerp(UNIT as int, sustain, ((tau - attack) * UNIT) / decay)
    } else {
        sustain
    }
}

/// Release level at `tau` micro-seconds after the release edge: a ramp from
/// `sustain` down to 0 over `release`, then 0.  A non-positive release time
/// jumps straight to 0.
pub open spec fn spec_releasing(sustain: int, release: int, tau: int) -> int {
    if release <= 0 {
        0
    } else if tau > release {
        0
    } else {
        spec_lerp(sustain, 0int, (tau * UNIT) / release)
    }
}

/// The edge-triggered state transition: a positive gate outside the attack
/// phase enters attack at `t`; a non-positive gate outside the release phase
/// enters release at `t`; otherwise the state is unchanged.
pub open spec fn spec_env_step(s: EnvState, gate: int, t: int) -> EnvState {
    if s.attack_start is None && gate > 0 {
        EnvState { attack_start: Some(t as i64), release_start: None }
    } else if s.release_start is None && gate <= 0 {
        EnvState { attack_start: None, release_start: Some(t as i64) }
    } else {
        s
    }
}

/// The level at time `t` for a state with an active phase, clamped to
/// `[0, UNIT]`.
pub open spec fn spec_env_output(
    s: EnvState,
    attack: int,
    decay: int,
    sustain: int,
    release: int,
    t: int,
) -> int {
    spec_clamp(0, UNIT as int, match s.release_start {
        Some(start) => spec_releasing(sustain, release, t - start),
        None => spec_ads(attack, decay, sustain, t - (s.attack_start->0)),
    })
}

proof fn lemma_ramp_frac(num: int, den: int)
    requires
        0 <= num <= den,
        0 < den <= 2 * VAL_LIMIT,
    ensures
        0 <= (num * UNIT) / den <= UNIT,
        num * UNIT <= 2 * VAL_LIMIT * UNIT,
{
    assert(0 <= num * UNIT) by (nonlinear_arith)
        requires 0 <= num;
    assert(num * UNIT <= den * UNIT) by (nonlinear_arith)
        requires num <= den && 0 < UNIT;
    assert(den * UNIT <= 2 * VAL_LIMIT * UNIT) by (nonlinear_arith)
        requires den <= 2 * VAL_LIMIT && 0 < UNIT;
    assert(0 <= (num * UNIT) / den) by (nonlinear_arith)
        requires 0 <= num * UNIT && 0 < den;
    assert((num * UNIT) / den <= (den * UNIT) / den) by (nonlinear_arith)
        requires num * UNIT <= den * UNIT && 0 < den;
    assert((den * UNIT) / den == UNIT) by (nonlinear_arith)
        requires 0 < den;
}

/// Attack-decay-sustain section of the envelope, `time` micro-seconds after
/// the attack edge.
pub fn ads(attack: i64, decay: i64, sustain: i64, time: i64) -> (r: i64)
    requires
        0 <= time <= 2 * VAL_LIMIT,
        in_limit(attack as int),
        in_limit(decay as int),
        in_limit(sustain as int),
    ensures
        r == spec_ads(attack as int, decay as int, sustain as int, time as int),
        -VAL_LIMIT <= r <= VAL_LIMIT,
{
    if time < attack {
        proof {
            lemma_ramp_frac(time as int, attack as int);
        }
        (time * UNIT) / attack
    } else {
        let decay_time = time - attack;
        if decay_time < decay {
            proof {
                lemma_ramp_frac(decay_time as int, decay as int);
            }
            let frac = (decay_time * UNIT) / decay;
            lerp(UNIT, sustain, frac)
        } else {
            sustain
        }
    }
}

/// Release section of the envelope, `release_time` micro-seconds after the
/// release edge.
pub fn releasing(sustain: i64, release: i64, release_time: i64) -> (r: i64)
    requires
        0 <= release_time <= 2 * VAL_LIMIT,
        in_limit(sustain as int),
        in_limit(release as int),
    ensures
        r == spec_releasing(sustain as int, release as int, release_time as int),
        -VAL_LIMIT <= r <= VAL_LIMIT,
{
    if release <= 0 {
        0
    } else if release_time > release {
        0
    } else {
        proof {
            lemma_ramp_frac(release_time as int, release as int);
        }
        let frac = (release_time * UNIT) / release;
        lerp(sustain, 0, frac)
    }
}

/// One evaluation of the envelope: applies the edge-triggered transition for
/// the current gate, then returns the level for the elapsed time since the
/// active edge, clamped to `[0, UNIT]`.
pub fn adsr(
    state: &mut EnvState,
    attack: i64,
    decay: i64,
    sustain: i64,
    release: i64,
    gate: i64,
    time: i64,
) -> (level: i64)
    requires
        old(state).wf(time as int),
        0 <= time <= VAL_LIMIT,
        in_limit(attack as int),
        in_limit(decay as int),
        in_limit(sustain as int),
        in_limit(release as int),
    ensures
        *final(state) == spec_env_step(*old(state), gate as int, time as int),
        final(state).wf(time as int),
        final(state).active(),
        level == spec_env_output(*final(state), attack as int, decay as int, sustain as int,
            release as int, time as int),
        0 <= level <= UNIT,
{
    if state.attack_start.is_none() && gate > 0 {
        state.attack_start = Some(time);
        state.release_start = None;
    } else if state.release_start.is_none() && gate <= 0 {
        state.release_start = Some(time);
        state.attack_start = None;
    }
    let raw = match state.release_start {
        Some(start) => releasing(sustain, release, time - start),
        None => {
            let start = match state.attack_start {
                Some(start) => start,
                None => 0,
            };
            ads(attack, decay, sustain, time - start)
        },
    };
    clamp_value(0, UNIT, raw)
}

/// A retrigger during release restarts the attack ramp from level 0 at the
/// retrigger instant, computed purely from the elapsed time since the new
/// edge -- never from the instantaneous level the release had reached.
pub proof fn lemma_retrigger_restarts_attack(
    s: EnvState,
    attack: int,
    decay: int,
    sustain: int,
    release: int,
    gate: int,
    t: int,
)
    requires
        s.wf(t),
        s.release_start is Some,
        gate > 0,
        0 < attack <= VAL_LIMIT,
        in_limit(decay),
        in_limit(sustain),
        in_limit(release),
        0 <= t <= VAL_LIMIT,
    ensures
        spec_env_step(s, gate, t).attack_start == Some(t as i64),
        spec_env_step(s, gate, t).release_start is None,
        spec_env_output(spec_env_step(s, gate, t), attack, decay, sustain, release, t) == 0,
{
    let s2 = spec_env_step(s, gate, t);
    assert(s2.attack_start == Some(t as i64));
    assert((0 * UNIT) / attack == 0) by (nonlinear_arith)
        requires 0 < attack;
}

} // verus!
