use vstd::prelude::*;

verus! {

use crate::units::UNIT;
use crate::graph::GraphEngine;
use crate::midi_output::{messages_match, send_ui_midi, spec_ui_midi};
use crate::poly::{MonoPoly, Voice, spec_note_pitch};
use crate::synth_params::{SynthParams, VoiceParams};
use crate::ui_state::InputEvent;

/// One step of the control loop, the sole owner of the voice pool and the
/// graph description.  It mirrors the event on the control surface's LEDs
/// (the returned packets), rewires and commits the LFO slot on a
/// modulation change, and drives the voice allocator on note events.
pub fn control_step(
    event: InputEvent,
    mono_poly: &mut MonoPoly,
    synth_params: &mut SynthParams,
    engine: &mut GraphEngine,
) -> (midi_out: Vec<Vec<u8>>)
    requires
        event.wf(),
        old(mono_poly).inv(),
        old(synth_params).inv(),
        old(synth_params).voice_params.len() == old(mono_poly).voice_size,
        old(engine).inv(),
    ensures
        final(mono_poly).inv(),
        final(synth_params).inv(),
        final(engine).inv(),
        final(mono_poly).voice_size == old(mono_poly).voice_size,
        final(synth_params).voice_params.len() == final(mono_poly).voice_size,
        final(synth_params).ops == old(synth_params).ops,
        messages_match(midi_out@, spec_ui_midi(event)),
        event matches InputEvent::PageChange(_) ==> {
            &&& *final(mono_poly) == *old(mono_poly)
            &&& *final(synth_params) == *old(synth_params)
            &&& *final(engine) == *old(engine)
        },
        event matches InputEvent::OpSubpageChange(_) ==> {
            &&& *final(mono_poly) == *old(mono_poly)
            &&& *final(synth_params) == *old(synth_params)
            &&& *final(engine) == *old(engine)
        },
        event matches InputEvent::LFO(dest) ==> {
            &&& *final(mono_poly) == *old(mono_poly)
            &&& *final(synth_params) == *old(synth_params)
            &&& *final(engine) == old(engine).spec_replace_lfo(dest.dest).spec_commit()
        },
        event matches InputEvent::NoteOn { note, velocity } ==> {
            &&& *final(engine) == *old(engine)
            &&& final(mono_poly).last_voice_index
                == (old(mono_poly).last_voice_index + 1) % (old(mono_poly).voice_size as int)
            &&& final(mono_poly).voices@ == old(mono_poly).voices@.update(
                old(mono_poly).last_voice_index as int,
                Voice { note, voice_index: old(mono_poly).last_voice_index },
            )
            &&& final(synth_params).voice_params@ == old(synth_params).voice_params@.update(
                old(mono_poly).last_voice_index as int,
                VoiceParams {
                    pitch: spec_note_pitch(note as int) as i64,
                    volume: ((velocity * UNIT) / 127) as i64,
                    pitch_bend: UNIT,
                    control: UNIT,
                },
            )
        },
        event matches InputEvent::NoteOff { note } ==> {
            &&& *final(mono_poly) == *old(mono_poly)
            &&& *final(engine) == *old(engine)
            &&& forall|i: int| 0 <= i < old(synth_params).voice_params.len()
                ==> #[trigger] final(synth_params).voice_params[i] == (
                    if old(synth_params).voice_params[i].pitch == spec_note_pitch(note as int) {
                        VoiceParams {
                            control: (-UNIT) as i64,
                            ..old(synth_params).voice_params[i]
                        }
                    } else {
                        old(synth_params).voice_params[i]
                    })
        },
{
    let midi_out = send_ui_midi(&event);
    match event {
        InputEvent::PageChange(_) => {},
        InputEvent::OpSubpageChange(_) => {},
        InputEvent::LFO(dest) => {
            engine.replace_lfo(dest.dest);
            engine.commit();
        },
        InputEvent::NoteOn { note, velocity } => {
            mono_poly.on_voice_on(note, velocity, &mut synth_params.voice_params);
            proof {
                assert forall|i: int| 0 <= i < synth_params.voice_params.len()
                    implies #[trigger] synth_params.voice_params[i].inv() by {
                    if i != old(mono_poly).last_voice_index as int {
                        assert(synth_params.voice_params[i]
                            == old(synth_params).voice_params[i]);
                    }
                }
            }
        },
        InputEvent::NoteOff { note } => {
            mono_poly.on_voice_off(note, &mut synth_params.voice_params);
            proof {
                assert forall|i: int| 0 <= i < synth_params.voice_params.len()
                    implies #[trigger] synth_params.voice_params[i].inv() by {
                    assert(old(synth_params).voice_params[i].inv());
                }
            }
        },
    }
    midi_out
}

} // verus!
