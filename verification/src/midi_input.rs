use vstd::prelude::*;

verus! {

use crate::units::{UNIT, VAL_LIMIT, spec_clamp, in_limit, clamp_value};
use crate::param::Param;
use crate::synth_params::{AdsrParams, OpParams, SynthParams};
use crate::ui_state::{InputEvent, OpPage, Page, UIState};
use crate::modulation::{ModDestinations, mod_dests_wf};
use crate::midi::ChannelMessage;

/// The signed step a relative encoder byte stands for, scaled down by the
/// per-destination `intensity` divisor: bytes above 64 count down from 128,
/// bytes up to 64 count up, both truncated toward zero.
pub open spec fn spec_encoder_delta(input: int, intensity: int) -> int {
    if input > 64 {
        -(((128 - input) * UNIT) / intensity)
    } else {
        (input * UNIT) / intensity
    }
}

/// A stored value after one encoder step, saturated at the storage bound.
pub open spec fn spec_encoder_value(input: int, value: int, intensity: int) -> int {
    spec_clamp(-VAL_LIMIT as int, VAL_LIMIT as int, value + spec_encoder_delta(input, intensity))
}

/// Applies one relative encoder byte to `value`: `1` steps up by
/// `UNIT / intensity`, `127` steps down by the same amount, and byte 64
/// still takes the upward branch.
pub fn encoder_to_value(input: u8, value: i64, intensity: i64) -> (r: i64)
    requires
        input < 128,
        0 < intensity,
        in_limit(value as int),
    ensures
        r == spec_encoder_value(input as int, value as int, intensity as int),
        in_limit(r as int),
{
    let delta = if input > 64 {
        -(((128 - input as i64) * UNIT) / intensity)
    } else {
        (input as i64 * UNIT) / intensity
    };
    clamp_value(-VAL_LIMIT, VAL_LIMIT, value + delta)
}

/// One encoder step applied to a raw shared cell (an envelope time or
/// level).
pub fn encoder_to_shared(input: u8, value: &mut i64, intensity: i64)
    requires
        input < 128,
        0 < intensity,
        in_limit(*old(value) as int),
    ensures
        *final(value) == spec_encoder_value(input as int, *old(value) as int, intensity as int),
        in_limit(*final(value) as int),
{
    *value = encoder_to_value(input, *value, intensity);
}

/// One encoder step applied to a clamped parameter's base value.
pub fn encoder_to_param(input: u8, value: &mut Param, intensity: i64)
    requires
        input < 128,
        0 < intensity,
        old(value).inv(),
    ensures
        final(value).inv(),
        *final(value) == old(value).spec_set_value(
            spec_encoder_value(input as int, old(value).spec_unmodulated(), intensity as int),
        ),
{
    let base = value.unmodulated_value();
    let next = encoder_to_value(input, base, intensity);
    value.set_value(next);
}

/// The page a page-select controller number stands for: buttons 102 to 105
/// choose an operator, 106 the modulation page.
pub open spec fn spec_page_select(control: int) -> Option<Page> {
    if control == 102 {
        Some(Page::Op(0))
    } else if control == 103 {
        Some(Page::Op(1))
    } else if control == 104 {
        Some(Page::Op(2))
    } else if control == 105 {
        Some(Page::Op(3))
    } else if control == 106 {
        Some(Page::Modulation)
    } else {
        None
    }
}

/// The sub-page a sub-page button stands for: 20 is the tone row, 21 the
/// envelope row.
pub open spec fn spec_subpage_select(control: int) -> Option<OpPage> {
    if control == 20 {
        Some(OpPage::Tone)
    } else if control == 21 {
        Some(OpPage::Amp)
    } else {
        None
    }
}

/// The UI state after a page-select control change; a zero value (button
/// release) changes nothing.
pub open spec fn spec_pages_ui(control: int, value: int, ui: UIState) -> UIState {
    if value > 0 {
        match spec_page_select(control) {
            Some(p) => UIState { page: p, ..ui },
            None => match spec_subpage_select(control) {
                Some(sp) => UIState { op_subpage: sp, ..ui },
                None => ui,
            },
        }
    } else {
        ui
    }
}

/// The events a page-select control change emits toward the control loop.
pub open spec fn spec_pages_events(control: int, value: int) -> Seq<InputEvent> {
    if value > 0 {
        match spec_page_select(control) {
            Some(p) => seq![InputEvent::PageChange(p)],
            None => match spec_subpage_select(control) {
                Some(sp) => seq![InputEvent::OpSubpageChange(sp)],
                None => Seq::<InputEvent>::empty(),
            },
        }
    } else {
        Seq::<InputEvent>::empty()
    }
}

/// Routes the page and sub-page buttons: updates the UI state and emits the
/// matching event.  Unknown controllers and button releases do nothing.
pub fn control_to_pages(control: u8, value: u8, ui: &mut UIState, events: &mut Vec<InputEvent>)
    requires
        old(ui).inv(),
    ensures
        final(ui).inv(),
        *final(ui) == spec_pages_ui(control as int, value as int, *old(ui)),
        final(events)@ == old(events)@ + spec_pages_events(control as int, value as int),
{
    if value > 0 {
        if control == 102 {
            ui.page = Page::Op(0);
            events.push(InputEvent::PageChange(Page::Op(0)));
        } else if control == 103 {
            ui.page = Page::Op(1);
            events.push(InputEvent::PageChange(Page::Op(1)));
        } else if control == 104 {
            ui.page = Page::Op(2);
            events.push(InputEvent::PageChange(Page::Op(2)));
        } else if control == 105 {
            ui.page = Page::Op(3);
            events.push(InputEvent::PageChange(Page::Op(3)));
        } else if control == 106 {
            ui.page = Page::Modulation;
            events.push(InputEvent::PageChange(Page::Modulation));
        } else if control == 20 {
            ui.op_subpage = OpPage::Tone;
            events.push(InputEvent::OpSubpageChange(OpPage::Tone));
        } else if control == 21 {
            ui.op_subpage = OpPage::Amp;
            events.push(InputEvent::OpSubpageChange(OpPage::Amp));
        }
    }
    proof {
        assert(events@ =~= old(events)@ + spec_pages_events(control as int, value as int));
    }
}

/// A positional pot of the control surface, with the encoder byte it sent.
#[derive(Clone, Copy, Debug, PartialEq, Eq, Structural)]
pub enum Pot {
    MainPot(u8, u8),
}

impl Pot {
    pub open spec fn wf(self) -> bool {
        match self {
            Pot::MainPot(_, value) => value < 128,
        }
    }
}

/// The pot a sound controller number (71 to 78) stands for.
pub open spec fn spec_pot_of(control: int, value: int) -> Option<Pot> {
    if 71 <= control <= 78 {
        Some(Pot::MainPot((control - 70) as u8, value as u8))
    } else {
        None
    }
}

/// An operator's parameters after one pot turn on the given sub-page: on
/// the tone row pot 1 trims the volume (divisor 512) and pot 2 the ratio
/// (divisor 1); on the envelope row pots 1 to 4 trim attack, decay,
/// sustain and release (divisor 32).
pub open spec fn spec_pots_sub_page(pot: Pot, sp: OpPage, op: OpParams) -> OpParams {
    match sp {
        OpPage::Tone => match pot {
            Pot::MainPot(id, v) => if id == 1 {
                OpParams {
                    volume: op.volume.spec_set_value(
                        spec_encoder_value(v as int, op.volume.spec_unmodulated(), 512),
                    ),
                    ..op
                }
            } else if id == 2 {
                OpParams {
                    ratio: op.ratio.spec_set_value(
                        spec_encoder_value(v as int, op.ratio.spec_unmodulated(), 1),
                    ),
                    ..op
                }
            } else {
                op
            },
        },
        OpPage::Amp => match pot {
            Pot::MainPot(id, v) => if id == 1 {
                OpParams {
                    adsr_params: AdsrParams {
                        a: spec_encoder_value(v as int, op.adsr_params.a as int, 32) as i64,
                        ..op.adsr_params
                    },
                    ..op
                }
            } else if id == 2 {
                OpParams {
                    adsr_params: AdsrParams {
                        d: spec_encoder_value(v as int, op.adsr_params.d as int, 32) as i64,
                        ..op.adsr_params
                    },
                    ..op
                }
            } else if id == 3 {
                OpParams {
                    adsr_params: AdsrParams {
                        s: spec_encoder_value(v as int, op.adsr_params.s as int, 32) as i64,
                        ..op.adsr_params
                    },
                    ..op
                }
            } else if id == 4 {
                OpParams {
                    adsr_params: AdsrParams {
                        r: spec_encoder_value(v as int, op.adsr_params.r as int, 32) as i64,
                        ..op.adsr_params
                    },
                    ..op
                }
            } else {
                op
            },
        },
    }
}

/// Applies one pot turn to the operator controls selected by the sub-page.
pub fn pots_to_sub_page(pot: &Pot, op_subpage: OpPage, op_params: &mut OpParams)
    requires
        pot.wf(),
        old(op_params).inv(),
    ensures
        final(op_params).inv(),
        *final(op_params) == spec_pots_sub_page(*pot, op_subpage, *old(op_params)),
{
    match op_subpage {
        OpPage::Tone => {
            let Pot::MainPot(id, value) = *pot;
            if id == 1 {
                encoder_to_param(value, &mut op_params.volume, 512);
            } else if id == 2 {
                encoder_to_param(value, &mut op_params.ratio, 1);
            }
        },
        OpPage::Amp => {
            let Pot::MainPot(id, value) = *pot;
            if id == 1 {
                encoder_to_shared(value, &mut op_params.adsr_params.a, 32);
            } else if id == 2 {
                encoder_to_shared(value, &mut op_params.adsr_params.d, 32);
            } else if id == 3 {
                encoder_to_shared(value, &mut op_params.adsr_params.s, 32);
            } else if id == 4 {
                encoder_to_shared(value, &mut op_params.adsr_params.r, 32);
            }
        },
    }
}

/// The destination index one encoder byte selects: the current index moves
/// by the encoder step, is floored at zero (stepping below zero stays at
/// entry zero), and wraps modulo the list length.
pub open spec fn spec_select_mod_dest(len: int, current: int, input: int) -> int {
    let v = spec_encoder_value(input, current * UNIT, 1);
    if v < 0 {
        0
    } else {
        (v / (UNIT as int)) % len
    }
}

/// Turns an encoder byte into the newly selected destination index; the
/// result always names a list entry, an index one past the end wrapping to
/// entry zero.
pub fn select_mod_dest(dests: &ModDestinations, current: usize, input: u8) -> (idx: usize)
    requires
        mod_dests_wf(*dests),
        current < dests.len(),
        input < 128,
    ensures
        idx == spec_select_mod_dest(dests.len() as int, current as int, input as int),
        idx < dests.len(),
{
    let cur_val = (current as i64) * UNIT;
    let v = encoder_to_value(input, cur_val, 1);
    if v < 0 {
        0
    } else {
        ((v / UNIT) as usize) % dests.len()
    }
}

/// Stepping the destination index one past the last entry asks for an
/// index equal to the list length, and the selection wraps to entry zero.
pub proof fn lemma_select_wraps_to_zero(len: int, current: int)
    requires
        0 < len <= 1000,
        current == len - 1,
    ensures
        spec_select_mod_dest(len, current, 1) == 0,
{
    assert((1 * UNIT) / 1 == UNIT) by (nonlinear_arith);
    let v = current * UNIT + UNIT;
    assert(0 <= current * UNIT <= 1000 * UNIT) by (nonlinear_arith)
        requires 0 <= current <= 1000 && 0 < UNIT;
    assert(v == spec_encoder_value(1, current * UNIT, 1));
    assert(v / (UNIT as int) == current + 1) by (nonlinear_arith)
        requires v == current * UNIT + UNIT && 0 < UNIT;
    assert(len % len == 0) by (nonlinear_arith)
        requires 0 < len;
}

/// The operator list after a pot control change lands on the current page.
pub open spec fn spec_pots_ops(
    control: int,
    value: int,
    ops: Seq<OpParams>,
    ui: UIState,
) -> Seq<OpParams> {
    match spec_pot_of(control, value) {
        Some(pot) => match ui.page {
            Page::Op(x) => ops.update(
                x as int,
                spec_pots_sub_page(pot, ui.op_subpage, ops[x as int]),
            ),
            Page::Modulation => ops,
        },
        None => ops,
    }
}

/// The UI state after a pot control change: on the modulation page pot 1
/// re-selects the LFO destination; nothing else moves the UI.
pub open spec fn spec_pots_ui(
    control: int,
    value: int,
    ui: UIState,
    dests: ModDestinations,
) -> UIState {
    if control == 71 && ui.page is Modulation {
        let idx = spec_select_mod_dest(dests.len() as int, ui.lfo_dest.0 as int, value);
        UIState { lfo_dest: (idx as usize, dests[idx].1), ..ui }
    } else {
        ui
    }
}

/// The events a pot control change emits: re-selecting the LFO destination
/// announces it to the control loop.
pub open spec fn spec_pots_events(
    control: int,
    value: int,
    ui: UIState,
    dests: ModDestinations,
) -> Seq<InputEvent> {
    if control == 71 && ui.page is Modulation {
        let idx = spec_select_mod_dest(dests.len() as int, ui.lfo_dest.0 as int, value);
        seq![InputEvent::LFO(dests[idx].1)]
    } else {
        Seq::<InputEvent>::empty()
    }
}

/// Routes the eight pots: on an operator page they trim that operator's
/// controls; on the modulation page pot 1 re-selects the LFO destination
/// and announces it; other controllers do nothing.
pub fn pots_to_controls(
    control: u8,
    value: u8,
    voice_params: &mut SynthParams,
    ui: &mut UIState,
    mod_dests: &ModDestinations,
    events: &mut Vec<InputEvent>,
)
    requires
        value < 128,
        old(voice_params).inv(),
        old(ui).inv(),
        mod_dests_wf(*mod_dests),
        old(ui).lfo_dest.0 < mod_dests.len(),
    ensures
        final(voice_params).inv(),
        final(ui).inv(),
        final(ui).lfo_dest.0 < mod_dests.len(),
        final(voice_params).voice_params == old(voice_params).voice_params,
        final(voice_params).ops@ == spec_pots_ops(
            control as int, value as int, old(voice_params).ops@, *old(ui)),
        *final(ui) == spec_pots_ui(control as int, value as int, *old(ui), *mod_dests),
        final(events)@ == old(events)@ + spec_pots_events(
            control as int, value as int, *old(ui), *mod_dests),
{
    let pot: Option<Pot> = if 71 <= control && control <= 78 {
        Some(Pot::MainPot(control - 70, value))
    } else {
        None
    };
    match pot {
        Some(pot) => {
            match ui.page {
                Page::Op(x) => {
                    let xi = x as usize;
                    proof {
                        assert(old(voice_params).ops[xi as int].inv());
                    }
                    let mut op = voice_params.ops[xi];
                    pots_to_sub_page(&pot, ui.op_subpage, &mut op);
                    voice_params.ops.set(xi, op);
                },
                Page::Modulation => {
                    let Pot::MainPot(id, v) = pot;
                    if id == 1 {
                        let idx = select_mod_dest(mod_dests, ui.lfo_dest.0, v);
                        let entry = &mod_dests[idx];
                        ui.lfo_dest = (entry.0, entry.1.clone());
                        events.push(InputEvent::LFO(mod_dests[idx].1.clone()));
                        proof {
                            assert(mod_dests[idx as int].0 == idx as int);
                        }
                    }
                },
            }
        },
        None => {},
    }
    proof {
        assert(events@ =~= old(events)@ + spec_pots_events(
            control as int, value as int, *old(ui), *mod_dests));
    }
}

/// The operator parameters after one decoded MIDI message.
pub open spec fn spec_midi_ops(
    msg: ChannelMessage,
    ops: Seq<OpParams>,
    ui: UIState,
) -> Seq<OpParams> {
    match msg {
        ChannelMessage::ControlChange { control, value } => spec_pots_ops(
            control as int,
            value as int,
            ops,
            spec_pages_ui(control as int, value as int, ui),
        ),
        _ => ops,
    }
}

/// The UI state after one decoded MIDI message: the page buttons move it,
/// then the pots act against the just-updated page.
pub open spec fn spec_midi_ui(
    msg: ChannelMessage,
    ui: UIState,
    dests: ModDestinations,
) -> UIState {
    match msg {
        ChannelMessage::ControlChange { control, value } => spec_pots_ui(
            control as int,
            value as int,
            spec_pages_ui(control as int, value as int, ui),
            dests,
        ),
        _ => ui,
    }
}

/// The events one decoded MIDI message sends to the control loop: note-on
/// above the controller's own touch-noise range (notes up to 12 are
/// filtered out), every note-off, and whatever the page buttons and pots
/// announce.  Pitch bend is decoded but, in this configuration, not wired
/// into the voice path, so it emits nothing.
pub open spec fn spec_midi_events(
    msg: ChannelMessage,
    ui: UIState,
    dests: ModDestinations,
) -> Seq<InputEvent> {
    match msg {
        ChannelMessage::NoteOn { note, velocity } => if note > 12 {
            seq![InputEvent::NoteOn { note, velocity }]
        } else {
            Seq::<InputEvent>::empty()
        },
        ChannelMessage::NoteOff { note, velocity: _ } => seq![InputEvent::NoteOff { note }],
        ChannelMessage::ControlChange { control, value } => {
            let ui1 = spec_pages_ui(control as int, value as int, ui);
            spec_pages_events(control as int, value as int)
                + spec_pots_events(control as int, value as int, ui1, dests)
        },
        ChannelMessage::PitchBend { bend: _ } => Seq::<InputEvent>::empty(),
    }
}

/// Dispatches one decoded MIDI message: notes are forwarded to the control
/// loop, control changes route the page buttons and then the pots, pitch
/// bend is dropped here.
pub fn midi_to_params(
    midi_msg: ChannelMessage,
    voice_params: &mut SynthParams,
    ui: &mut UIState,
    in_tx: &mut Vec<InputEvent>,
    mod_destinations: &ModDestinations,
)
    requires
        midi_msg.wf(),
        old(voice_params).inv(),
        old(ui).inv(),
        mod_dests_wf(*mod_destinations),
        old(ui).lfo_dest.0 < mod_destinations.len(),
    ensures
        final(voice_params).inv(),
        final(ui).inv(),
        final(ui).lfo_dest.0 < mod_destinations.len(),
        final(voice_params).voice_params == old(voice_params).voice_params,
        final(voice_params).ops@ == spec_midi_ops(midi_msg, old(voice_params).ops@, *old(ui)),
        *final(ui) == spec_midi_ui(midi_msg, *old(ui), *mod_destinations),
        final(in_tx)@ == old(in_tx)@ + spec_midi_events(midi_msg, *old(ui), *mod_destinations),
{
    match midi_msg {
        ChannelMessage::NoteOn { note, velocity } => {
            if note > 12 {
                in_tx.push(InputEvent::NoteOn { note, velocity });
            }
        },
        ChannelMessage::NoteOff { note, velocity: _ } => {
            in_tx.push(InputEvent::NoteOff { note });
        },
        ChannelMessage::ControlChange { control, value } => {
            control_to_pages(control, value, ui, in_tx);
            pots_to_controls(control, value, voice_params, ui, mod_destinations, in_tx);
        },
        ChannelMessage::PitchBend { bend: _ } => {},
    }
    proof {
        assert(in_tx@ =~= old(in_tx)@ + spec_midi_events(
            midi_msg, *old(ui), *mod_destinations));
    }
}

/// The complete input path for one raw MIDI packet: decode, then dispatch.
/// A packet that does not decode to a channel-voice message is silently
/// ignored.
pub fn handle_midi_bytes(
    bytes: &[u8],
    voice_params: &mut SynthParams,
    ui: &mut UIState,
    in_tx: &mut Vec<InputEvent>,
    mod_destinations: &ModDestinations,
)
    requires
        old(voice_params).inv(),
        old(ui).inv(),
        mod_dests_wf(*mod_destinations),
        old(ui).lfo_dest.0 < mod_destinations.len(),
    ensures
        final(voice_params).inv(),
        final(ui).inv(),
        final(ui).lfo_dest.0 < mod_destinations.len(),
        final(voice_params).voice_params == old(voice_params).voice_params,
        match crate::midi::spec_decode(bytes@) {
            Some(msg) => {
                &&& final(voice_params).ops@ == spec_midi_ops(
                    msg, old(voice_params).ops@, *old(ui))
                &&& *final(ui) == spec_midi_ui(msg, *old(ui), *mod_destinations)
                &&& final(in_tx)@ == old(in_tx)@ + spec_midi_events(
                    msg, *old(ui), *mod_destinations)
            },
            None => {
                &&& *final(voice_params) == *old(voice_params)
                &&& *final(ui) == *old(ui)
                &&& final(in_tx)@ == old(in_tx)@
            },
        },
{
    match crate::midi::decode(bytes) {
        Some(msg) => {
            midi_to_params(msg, voice_params, ui, in_tx, mod_destinations);
        },
        None => {},
    }
}

} // verus!
