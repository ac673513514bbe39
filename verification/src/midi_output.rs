use vstd::prelude::*;

verus! {

use crate::midi::cc_bytes;
use crate::ui_state::{InputEvent, OpPage, Page};

/// The LED value of a lit button.
pub const LED_LIT: u8 = 122;

/// The LED value of an unlit button.
pub const LED_NEUTRAL: u8 = 124;

/// The page-select button row backed by LEDs.
pub open spec fn spec_first_leds_row() -> Seq<u8> {
    seq![102u8, 103u8]
}

/// The sub-page button row backed by LEDs.
pub open spec fn spec_second_leds_row() -> Seq<u8> {
    seq![20u8, 21u8]
}

/// The packet list `r` carries exactly the byte sequences `m`.
pub open spec fn messages_match(r: Seq<Vec<u8>>, m: Seq<Seq<u8>>) -> bool {
    &&& r.len() == m.len()
    &&& forall|j: int| 0 <= j < r.len() ==> (#[trigger] r[j])@ == m[j]
}

/// The control-change packets that light `lit` and darken the rest of a
/// button row.
pub open spec fn spec_switch_messages(lit: u8, row: Seq<u8>) -> Seq<Seq<u8>> {
    row.map_values(|l: u8| seq![0xB0u8, l, if l == lit { LED_LIT } else { LED_NEUTRAL }])
}

/// Builds the packets that light exactly one button of a row.
pub fn send_switch(lit: u8, row: &Vec<u8>) -> (r: Vec<Vec<u8>>)
    ensures
        messages_match(r@, spec_switch_messages(lit, row@)),
{
    let mut r: Vec<Vec<u8>> = Vec::new();
    let mut i: usize = 0;
    while i < row.len()
        invariant
            i <= row.len(),
            r@.len() == i,
            forall|j: int| 0 <= j < i ==> (#[trigger] r@[j])@
                == seq![0xB0u8, row@[j], if row@[j] == lit { LED_LIT } else { LED_NEUTRAL }],
        decreases row.len() - i,
    {
        let l = row[i];
        let value = if l == lit { LED_LIT } else { LED_NEUTRAL };
        r.push(cc_bytes(l, value));
        i = i + 1;
    }
    r
}

fn first_leds_row() -> (r: Vec<u8>)
    ensures
        r@ == spec_first_leds_row(),
{
    let mut r: Vec<u8> = Vec::new();
    r.push(102);
    r.push(103);
    proof {
        assert(r@ =~= spec_first_leds_row());
    }
    r
}

fn second_leds_row() -> (r: Vec<u8>)
    ensures
        r@ == spec_second_leds_row(),
{
    let mut r: Vec<u8> = Vec::new();
    r.push(20);
    r.push(21);
    proof {
        assert(r@ =~= spec_second_leds_row());
    }
    r
}

/// The packets sent at startup: first page button and first sub-page
/// button lit, the rest dark.
pub fn init_midi_ui() -> (r: Vec<Vec<u8>>)
    ensures
        messages_match(r@, spec_switch_messages(102, spec_first_leds_row())
            + spec_switch_messages(20, spec_second_leds_row())),
{
    let mut r = send_switch(102, &first_leds_row());
    let mut second = send_switch(20, &second_leds_row());
    r.append(&mut second);
    r
}

/// The LED packets one control-loop event calls for: page changes toggle
/// the first row (only the two LED-backed operator pages have a button to
/// light), sub-page changes toggle the second row, and the other events
/// need no LED update.
pub open spec fn spec_ui_midi(event: InputEvent) -> Seq<Seq<u8>> {
    match event {
        InputEvent::OpSubpageChange(page) => match page {
            OpPage::Tone => spec_switch_messages(20, spec_second_leds_row()),
            OpPage::Amp => spec_switch_messages(21, spec_second_leds_row()),
        },
        InputEvent::PageChange(page) => match page {
            Page::Op(i) => if i == 0 {
                spec_switch_messages(102, spec_first_leds_row())
            } else if i == 1 {
                spec_switch_messages(103, spec_first_leds_row())
            } else {
                Seq::<Seq<u8>>::empty()
            },
            Page::Modulation => Seq::<Seq<u8>>::empty(),
        },
        _ => Seq::<Seq<u8>>::empty(),
    }
}

/// Builds the LED packets that mirror one event on the control surface.
pub fn send_ui_midi(event: &InputEvent) -> (r: Vec<Vec<u8>>)
    ensures
        messages_match(r@, spec_ui_midi(*event)),
{
    match event {
        InputEvent::OpSubpageChange(page) => match page {
            OpPage::Tone => send_switch(20, &second_leds_row()),
            OpPage::Amp => send_switch(21, &second_leds_row()),
        },
        InputEvent::PageChange(page) => match page {
            Page::Op(i) => if *i == 0 {
                send_switch(102, &first_leds_row())
            } else if *i == 1 {
                send_switch(103, &first_leds_row())
            } else {
                Vec::new()
            },
            Page::Modulation => Vec::new(),
        },
        _ => Vec::new(),
    }
}

} // verus!
