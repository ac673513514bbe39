//! Core of an eight-voice, four-operator FM synthesizer driven by a MIDI
//! control surface.
//!
//! Every continuous quantity (parameter values, envelope times and levels,
//! frequencies, seconds) is held in fixed-point micro-units: the `i64` value
//! `1_000_000` stands for `1.0`.  This keeps the whole control and modulation
//! model in exact integer arithmetic.
//!
//! The crate covers the parameter store, the per-voice ADSR envelope, the
//! polyphonic voice allocator, MIDI decoding and encoder handling, the
//! modulation router, the display snapshot, and the signal-graph engine with
//! its atomic snapshot handoff to the render side.  Device plumbing (audio
//! callback, MIDI transport, USB display framing) lives outside this crate
//! and talks to it through plain values.

pub mod units;
pub mod adsr;
pub mod midi;
pub mod midi_input;
pub mod midi_output;
pub mod param;
pub mod poly;
pub mod modulation;
pub mod graph;
pub mod control;
pub mod display;
pub mod ui_state;
pub mod synth_params;
