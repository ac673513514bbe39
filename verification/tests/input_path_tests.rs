use octocore::midi_input::handle_midi_bytes;
use octocore::modulation::create_modulation_list;
use octocore::synth_params::SynthParams;
use octocore::ui_state::{InputEvent, OpPage, Page, UIState};
use octocore::units::UNIT;

fn fresh() -> (SynthParams, UIState) {
    let dests = create_modulation_list();
    let params = SynthParams::new(8);
    let ui = UIState {
        page: Page::Op(0),
        op_subpage: OpPage::Tone,
        lfo_dest: (0, dests[0].1.clone()),
    };
    (params, ui)
}

#[test]
fn raw_note_on_bytes_reach_the_event_queue() {
    let (mut params, mut ui) = fresh();
    let dests = create_modulation_list();
    let mut events: Vec<InputEvent> = Vec::new();
    handle_midi_bytes(&[0x90, 69, 100], &mut params, &mut ui, &mut events, &dests);
    assert_eq!(events, vec![InputEvent::NoteOn { note: 69, velocity: 100 }]);
}

#[test]
fn raw_control_change_bytes_turn_a_pot() {
    let (mut params, mut ui) = fresh();
    let dests = create_modulation_list();
    let mut events: Vec<InputEvent> = Vec::new();
    handle_midi_bytes(&[0xB0, 72, 2], &mut params, &mut ui, &mut events, &dests);
    assert_eq!(params.ops[0].ratio.unmodulated_value(), 3 * UNIT);
    assert!(events.is_empty());
}

#[test]
fn malformed_bytes_change_nothing() {
    let (mut params, mut ui) = fresh();
    let dests = create_modulation_list();
    let mut events: Vec<InputEvent> = Vec::new();
    handle_midi_bytes(&[0xF8], &mut params, &mut ui, &mut events, &dests);
    handle_midi_bytes(&[0x90, 200, 1], &mut params, &mut ui, &mut events, &dests);
    assert_eq!(params, SynthParams::new(8));
    assert_eq!(ui.page, Page::Op(0));
    assert!(events.is_empty());
}
