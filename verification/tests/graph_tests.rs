use octocore::control::control_step;
use octocore::graph::{GraphEngine, SignalGraph};
use octocore::modulation::{apply_lfo, create_modulation_list, render_block_lfo, ModTarget};
use octocore::poly::MonoPoly;
use octocore::synth_params::SynthParams;
use octocore::ui_state::InputEvent;
use octocore::units::UNIT;

#[test]
fn fresh_engine_publishes_the_startup_wiring() {
    let e = GraphEngine::new(8);
    assert_eq!(e.observe(), SignalGraph { voice_count: 8, lfo_target: None });
}

#[test]
fn render_observes_pre_edit_topology_during_an_edit() {
    let mut e = GraphEngine::new(8);
    let before = e.observe();
    e.replace_lfo(ModTarget::OpVolume(1));
    // the edit is pending: every observation still yields the old topology
    assert_eq!(e.observe(), before);
    assert_eq!(e.observe(), before);
}

#[test]
fn commit_publishes_the_whole_edited_topology() {
    let mut e = GraphEngine::new(8);
    e.replace_lfo(ModTarget::OpVolume(1));
    e.commit();
    assert_eq!(
        e.observe(),
        SignalGraph { voice_count: 8, lfo_target: Some(ModTarget::OpVolume(1)) }
    );
}

#[test]
fn interleaved_observations_see_old_or_new_never_a_mixture() {
    // replay every point at which the render side could read during an
    // edit-commit pair, several times over
    let mut e = GraphEngine::new(8);
    let mut expected = e.observe();
    let targets = [
        ModTarget::OpVolume(1),
        ModTarget::OpRatio(1),
        ModTarget::OpVolume(3),
        ModTarget::OpRatio(0),
    ];
    for &t in targets.iter() {
        let old = expected;
        assert_eq!(e.observe(), old);
        e.replace_lfo(t);
        assert_eq!(e.observe(), old);
        e.commit();
        expected = SignalGraph { voice_count: 8, lfo_target: Some(t) };
        assert_eq!(e.observe(), expected);
        // each snapshot is one of the two committed topologies, whole
        let seen = e.observe();
        assert!(seen == old || seen == expected);
    }
}

#[test]
fn active_lfo_writes_the_target_overlay() {
    let mut params = SynthParams::new(8);
    let g = SignalGraph { voice_count: 8, lfo_target: Some(ModTarget::OpVolume(1)) };
    render_block_lfo(&mut params, &g, 300_000);
    assert_eq!(params.ops[1].volume.value(), 50_000 + 300_000);
    assert_eq!(params.ops[1].volume.unmodulated_value(), 50_000);
    // the ratio and the other operators are untouched
    assert_eq!(params.ops[1].ratio.value(), UNIT);
    assert_eq!(params.ops[0].volume.value(), 50_000);
}

#[test]
fn inactive_lfo_slot_is_a_pass_through() {
    let mut params = SynthParams::new(8);
    let g = SignalGraph { voice_count: 8, lfo_target: None };
    render_block_lfo(&mut params, &g, 300_000);
    assert_eq!(params, SynthParams::new(8));
}

#[test]
fn lfo_overlay_is_overwritten_each_block() {
    let mut params = SynthParams::new(8);
    apply_lfo(&mut params, ModTarget::OpRatio(1), 5 * UNIT);
    apply_lfo(&mut params, ModTarget::OpRatio(1), 2 * UNIT);
    assert_eq!(params.ops[1].ratio.value(), 3 * UNIT);
}

#[test]
fn control_step_rewires_and_commits_on_an_lfo_event() {
    let mut pool = MonoPoly::new(8);
    let mut params = SynthParams::new(8);
    let mut engine = GraphEngine::new(8);
    let dests = create_modulation_list();
    let out = control_step(
        InputEvent::LFO(dests[1].1.clone()),
        &mut pool,
        &mut params,
        &mut engine,
    );
    assert_eq!(engine.observe().lfo_target, Some(ModTarget::OpRatio(1)));
    assert!(out.is_empty());
}

#[test]
fn control_step_drives_the_voice_pool() {
    let mut pool = MonoPoly::new(8);
    let mut params = SynthParams::new(8);
    let mut engine = GraphEngine::new(8);
    control_step(
        InputEvent::NoteOn { note: 69, velocity: 127 },
        &mut pool,
        &mut params,
        &mut engine,
    );
    assert_eq!(params.voice_params[0].pitch, 440_000_000);
    assert_eq!(params.voice_params[0].control, UNIT);
    assert_eq!(pool.last_voice_index, 1);
    control_step(InputEvent::NoteOff { note: 69 }, &mut pool, &mut params, &mut engine);
    assert_eq!(params.voice_params[0].control, -UNIT);
}
