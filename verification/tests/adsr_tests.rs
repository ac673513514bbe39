use octocore::adsr::{adsr, ads, releasing, EnvState};
use octocore::units::UNIT;

// The scenario of the specification: attack 0.1 s, decay 0.2 s,
// sustain 0.5, release 0.2 s, in micro-units.
const A: i64 = 100_000;
const D: i64 = 200_000;
const S: i64 = 500_000;
const R: i64 = 200_000;

#[test]
fn attack_decay_sustain_curve() {
    let mut st = EnvState::new();
    // gate rises at t = 0
    assert_eq!(adsr(&mut st, A, D, S, R, UNIT, 0), 0);
    // end of the attack ramp: full level
    assert_eq!(adsr(&mut st, A, D, S, R, UNIT, 100_000), UNIT);
    // end of the decay ramp: the sustain level
    assert_eq!(adsr(&mut st, A, D, S, R, UNIT, 300_000), S);
    // plateau just after
    assert_eq!(adsr(&mut st, A, D, S, R, UNIT, 300_001), S);
}

#[test]
fn attack_midpoints_ramp_linearly() {
    let mut st = EnvState::new();
    assert_eq!(adsr(&mut st, A, D, S, R, UNIT, 0), 0);
    assert_eq!(adsr(&mut st, A, D, S, R, UNIT, 50_000), UNIT / 2);
    assert_eq!(adsr(&mut st, A, D, S, R, UNIT, 200_000), 750_000);
}

#[test]
fn release_curve_reaches_zero_and_stays_there() {
    let mut st = EnvState::new();
    assert_eq!(adsr(&mut st, A, D, S, R, UNIT, 0), 0);
    assert_eq!(adsr(&mut st, A, D, S, R, UNIT, 300_000), S);
    // gate falls at t0 = 400_000: the release starts at the sustain level
    assert_eq!(adsr(&mut st, A, D, S, R, -UNIT, 400_000), S);
    // half the release time later: half the sustain level
    assert_eq!(adsr(&mut st, A, D, S, R, -UNIT, 500_000), S / 2);
    // a full release time later: exactly zero
    assert_eq!(adsr(&mut st, A, D, S, R, -UNIT, 600_000), 0);
    // and it never goes negative afterwards
    assert_eq!(adsr(&mut st, A, D, S, R, -UNIT, 700_000), 0);
}

#[test]
fn retrigger_during_release_restarts_attack_from_zero() {
    let mut st = EnvState::new();
    assert_eq!(adsr(&mut st, A, D, S, R, UNIT, 0), 0);
    assert_eq!(adsr(&mut st, A, D, S, R, UNIT, 300_000), S);
    // release from the sustain level
    assert_eq!(adsr(&mut st, A, D, S, R, -UNIT, 400_000), S);
    // halfway down the release ramp the instantaneous level is 0.25
    assert_eq!(adsr(&mut st, A, D, S, R, -UNIT, 500_000), S / 2);
    // the retrigger restarts the attack ramp at zero, not at 0.25
    assert_eq!(adsr(&mut st, A, D, S, R, UNIT, 500_000), 0);
    assert_eq!(st.attack_start, Some(500_000));
    assert_eq!(st.release_start, None);
    // and it ramps to full level over one attack time from the retrigger
    assert_eq!(adsr(&mut st, A, D, S, R, UNIT, 600_000), UNIT);
}

#[test]
fn zero_segment_times_jump_to_targets() {
    // a zero attack jumps straight through the ramp
    assert_eq!(ads(0, 0, S, 0), S);
    // a zero release jumps straight to silence
    assert_eq!(releasing(S, 0, 0), 0);
}

#[test]
fn first_evaluation_with_low_gate_enters_release() {
    let mut st = EnvState::new();
    assert_eq!(adsr(&mut st, A, D, S, R, 0, 0), S);
    assert_eq!(st.release_start, Some(0));
    assert_eq!(st.attack_start, None);
}

#[test]
fn output_is_clamped_to_unit_interval() {
    // a sustain far above 1.0 is clamped at the plateau
    let mut st = EnvState::new();
    assert_eq!(adsr(&mut st, A, 0, 3 * UNIT, R, UNIT, 0), 0);
    assert_eq!(adsr(&mut st, A, 0, 3 * UNIT, R, UNIT, 200_000), UNIT);
    // a negative sustain is clamped at zero
    let mut st2 = EnvState::new();
    assert_eq!(adsr(&mut st2, A, 0, -UNIT, R, UNIT, 0), 0);
    assert_eq!(adsr(&mut st2, A, 0, -UNIT, R, UNIT, 200_000), 0);
}
