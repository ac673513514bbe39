use octocore::poly::{note_pitch, MonoPoly};
use octocore::synth_params::{SynthParams, VoiceParams};
use octocore::units::UNIT;

fn fresh(voices: u8) -> (MonoPoly, Vec<VoiceParams>) {
    let pool = MonoPoly::new(voices);
    let params = SynthParams::new(voices);
    (pool, params.voice_params)
}

#[test]
fn freq_of_note_69_is_440_hz() {
    assert_eq!(note_pitch(69), 440_000_000);
}

#[test]
fn freq_of_note_81_is_880_hz() {
    assert_eq!(note_pitch(81), 880_000_000);
}

#[test]
fn freq_halves_an_octave_down() {
    assert_eq!(note_pitch(57), 220_000_000);
    assert_eq!(note_pitch(45), 110_000_000);
}

#[test]
fn sequential_note_ons_fill_slots_round_robin() {
    let (mut pool, mut vp) = fresh(8);
    let notes = [60u8, 72, 60, 64, 99, 13, 60, 127, 21, 33];
    for (k, &n) in notes.iter().enumerate() {
        assert_eq!(pool.last_voice_index as usize, k % 8);
        pool.on_voice_on(n, 100, &mut vp);
    }
    // the first eight notes landed in slots 0..7, then it wrapped
    for k in 0..8 {
        let expect = if k < 2 { notes[k + 8] } else { notes[k] };
        assert_eq!(pool.voices[k].note, expect);
    }
    assert_eq!(pool.last_voice_index, 2);
}

#[test]
fn note_on_writes_voice_params() {
    let (mut pool, mut vp) = fresh(8);
    pool.on_voice_on(69, 127, &mut vp);
    assert_eq!(vp[0].pitch, 440_000_000);
    assert_eq!(vp[0].volume, UNIT);
    assert_eq!(vp[0].pitch_bend, UNIT);
    assert_eq!(vp[0].control, UNIT);
    // the other slots are untouched
    for i in 1..8 {
        assert_eq!(vp[i].control, 0);
    }
}

#[test]
fn note_off_releases_every_voice_with_that_pitch() {
    let (mut pool, mut vp) = fresh(8);
    pool.on_voice_on(60, 100, &mut vp);
    pool.on_voice_on(64, 100, &mut vp);
    pool.on_voice_on(60, 90, &mut vp);
    pool.on_voice_off(60, &mut vp);
    // both slots holding note 60 are released, including the duplicate
    assert_eq!(vp[0].control, -UNIT);
    assert_eq!(vp[2].control, -UNIT);
    // the voice holding note 64 is still gated on
    assert_eq!(vp[1].control, UNIT);
}

#[test]
fn note_off_of_an_unheld_note_changes_nothing() {
    let (mut pool, mut vp) = fresh(4);
    pool.on_voice_on(60, 100, &mut vp);
    let before = vp.clone();
    pool.on_voice_off(61, &mut vp);
    assert_eq!(vp, before);
}

#[test]
fn note_on_overwrites_a_still_held_voice() {
    let (mut pool, mut vp) = fresh(2);
    pool.on_voice_on(60, 100, &mut vp);
    pool.on_voice_on(62, 100, &mut vp);
    // the third note cuts the first voice without a release ramp
    pool.on_voice_on(64, 100, &mut vp);
    assert_eq!(pool.voices[0].note, 64);
    assert_eq!(vp[0].pitch, note_pitch(64));
    assert_eq!(vp[0].control, UNIT);
}

#[test]
fn velocity_scales_volume() {
    let (mut pool, mut vp) = fresh(8);
    pool.on_voice_on(60, 0, &mut vp);
    assert_eq!(vp[0].volume, 0);
    pool.on_voice_on(60, 64, &mut vp);
    assert_eq!(vp[1].volume, 64 * UNIT / 127);
}
