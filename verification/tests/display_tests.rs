use octocore::display::{display_snapshot, fmt_value};
use octocore::modulation::create_modulation_list;
use octocore::synth_params::SynthParams;
use octocore::ui_state::{OpPage, Page, UIState};
use octocore::units::UNIT;

#[test]
fn formats_two_decimal_places() {
    assert_eq!(fmt_value(50_000), "0.05");
    assert_eq!(fmt_value(UNIT), "1.00");
    assert_eq!(fmt_value(0), "0.00");
    assert_eq!(fmt_value(999 * UNIT), "999.00");
    assert_eq!(fmt_value(10_000), "0.01");
}

#[test]
fn formats_negative_values_with_a_sign() {
    assert_eq!(fmt_value(-1_234_567), "-1.23");
    assert_eq!(fmt_value(-31_250), "-0.03");
}

#[test]
fn formatting_truncates_toward_zero() {
    assert_eq!(fmt_value(999_999), "0.99");
    assert_eq!(fmt_value(-999_999), "-0.99");
}

fn ui_on(page: Page, sub: OpPage) -> UIState {
    let dests = create_modulation_list();
    UIState { page, op_subpage: sub, lfo_dest: (0, dests[0].1.clone()) }
}

#[test]
fn tone_row_shows_volume_and_ratio() {
    let params = SynthParams::new(8);
    let ui = ui_on(Page::Op(1), OpPage::Tone);
    let shot = display_snapshot(&params, &ui);
    assert_eq!(shot.len(), 2);
    assert_eq!(shot[0].name, "Volume");
    assert_eq!(shot[0].text, "0.05");
    assert_eq!(shot[0].ord, 1);
    assert_eq!(shot[1].name, "Ratio");
    assert_eq!(shot[1].text, "1.00");
    assert_eq!(shot[1].ord, 2);
}

#[test]
fn amp_row_shows_the_four_envelope_values() {
    let params = SynthParams::new(8);
    let ui = ui_on(Page::Op(0), OpPage::Amp);
    let shot = display_snapshot(&params, &ui);
    assert_eq!(shot.len(), 4);
    assert_eq!(shot[0].name, "Attack");
    assert_eq!(shot[0].text, "0.01");
    assert_eq!(shot[1].name, "Decay");
    assert_eq!(shot[1].text, "0.00");
    assert_eq!(shot[2].name, "Sustain");
    assert_eq!(shot[2].text, "1.00");
    assert_eq!(shot[3].name, "Release");
    assert_eq!(shot[3].text, "0.00");
    assert_eq!(shot[3].ord, 4);
}

#[test]
fn modulation_page_shows_the_selected_destination() {
    let params = SynthParams::new(8);
    let ui = ui_on(Page::Modulation, OpPage::Tone);
    let shot = display_snapshot(&params, &ui);
    assert_eq!(shot.len(), 1);
    assert_eq!(shot[0].name, "Op 2");
    assert_eq!(shot[0].text, "Vol");
}

#[test]
fn snapshot_shows_the_live_value_with_overlay() {
    let mut params = SynthParams::new(8);
    params.ops[1].volume.set_modulation(450_000);
    let ui = ui_on(Page::Op(1), OpPage::Tone);
    let shot = display_snapshot(&params, &ui);
    assert_eq!(shot[0].text, "0.50");
}
