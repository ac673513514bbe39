use vstd::prelude::*;

verus! {

use crate::modulation::ModDestination;

/// Which of an operator's two control rows the pots address.
#[derive(Clone, Copy, Debug, PartialEq, Eq, Structural)]
pub enum OpPage {
    Tone,
    Amp,
}

/// The page shown on the panel: one of the four operators, or the
/// modulation router.
#[derive(Clone, Copy, Debug, PartialEq, Eq, Structural)]
pub enum Page {
    Op(u8),
    Modulation,
}

/// What the user is looking at: page, sub-page, and the selected
/// modulation destination (list index plus its entry).
#[derive(Debug, PartialEq, Eq)]
pub struct UIState {
    pub page: Page,
    pub op_subpage: OpPage,
    pub lfo_dest: (usize, ModDestination),
}

impl UIState {
    /// An operator page always names one of the four operators.
    pub open spec fn inv(self) -> bool {
        self.page matches Page::Op(i) ==> i < 4
    }
}

impl Clone for UIState {
    fn clone(&self) -> (r: Self)
        ensures
            r == *self,
    {
        UIState {
            page: self.page,
            op_subpage: self.op_subpage,
            lfo_dest: (self.lfo_dest.0, self.lfo_dest.1.clone()),
        }
    }
}

/// A higher-level event handed from the MIDI input callback to the control
/// loop, processed strictly in arrival order.
#[derive(Debug, PartialEq, Eq)]
pub enum InputEvent {
    PageChange(Page),
    OpSubpageChange(OpPage),
    LFO(ModDestination),
    NoteOn { note: u8, velocity: u8 },
    NoteOff { note: u8 },
}

impl InputEvent {
    /// Note numbers are 7-bit and an LFO event names a real operator.
    pub open spec fn wf(self) -> bool {
        match self {
            InputEvent::NoteOn { note, velocity } => note < 128 && velocity < 128,
            InputEvent::NoteOff { note } => note < 128,
            InputEvent::LFO(d) => d.dest.wf(),
            _ => true,
        }
    }
}

impl Clone for InputEvent {
    fn clone(&self) -> (r: Self)
        ensures
            r == *self,
    {
        match self {
            InputEvent::PageChange(p) => InputEvent::PageChange(*p),
            InputEvent::OpSubpageChange(p) => InputEvent::OpSubpageChange(*p),
            InputEvent::LFO(d) => InputEvent::LFO(d.clone()),
            InputEvent::NoteOn { note, velocity } => InputEvent::NoteOn {
                note: *note,
                velocity: *velocity,
            },
            InputEvent::NoteOff { note } => InputEvent::NoteOff { note: *note },
        }
    }
}

} // verus!
