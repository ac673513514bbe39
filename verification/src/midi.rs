use vstd::prelude::*;

verus! {

/// A decoded MIDI channel-voice message.  The channel is irrelevant to this
/// synthesizer and is dropped during decoding.
#[derive(Clone, Copy, Debug, PartialEq, Eq, Structural)]
pub enum ChannelMessage {
    NoteOn { note: u8, velocity: u8 },
    NoteOff { note: u8, velocity: u8 },
    ControlChange { control: u8, value: u8 },
    PitchBend { bend: u16 },
}

impl ChannelMessage {
    /// Every data byte is 7-bit, as decoding guarantees.
    pub open spec fn wf(self) -> bool {
        match self {
            ChannelMessage::NoteOn { note, velocity } => note < 128 && velocity < 128,
            ChannelMessage::NoteOff { note, velocity } => note < 128 && velocity < 128,
            ChannelMessage::ControlChange { control, value } => control < 128 && value < 128,
            ChannelMessage::PitchBend { bend } => bend < 16384,
        }
    }
}

/// What a three-byte MIDI packet decodes to: note-on (status `0x9x`),
/// note-off (`0x8x`), control change (`0xBx`) or pitch bend (`0xEx`, 14-bit
/// value, least significant byte first).  Anything else -- wrong length, a
/// data byte with the high bit set, or another status -- is `None` and is
/// silently ignored by the callers.
pub open spec fn spec_decode(bytes: Seq<u8>) -> Option<ChannelMessage> {
    if bytes.len() != 3 {
        None
    } else if bytes[1] >= 128 || bytes[2] >= 128 {
        None
    } else if bytes[0] & 0xF0 == 0x90 {
        Some(ChannelMessage::NoteOn { note: bytes[1], velocity: bytes[2] })
    } else if bytes[0] & 0xF0 == 0x80 {
        Some(ChannelMessage::NoteOff { note: bytes[1], velocity: bytes[2] })
    } else if bytes[0] & 0xF0 == 0xB0 {
        Some(ChannelMessage::ControlChange { control: bytes[1], value: bytes[2] })
    } else if bytes[0] & 0xF0 == 0xE0 {
        Some(ChannelMessage::PitchBend {
            bend: (((bytes[2] as u16) << 7) | (bytes[1] as u16)) as u16,
        })
    } else {
        None
    }
}

/// Decodes one incoming MIDI packet.
pub fn decode(bytes: &[u8]) -> (r: Option<ChannelMessage>)
    ensures
        r == spec_decode(bytes@),
        r matches Some(m) ==> m.wf(),
{
    if bytes.len() != 3 {
        return None;
    }
    let status = bytes[0];
    let d1 = bytes[1];
    let d2 = bytes[2];
    if d1 >= 128 || d2 >= 128 {
        return None;
    }
    let kind = status & 0xF0;
    let r = if kind == 0x90 {
        Some(ChannelMessage::NoteOn { note: d1, velocity: d2 })
    } else if kind == 0x80 {
        Some(ChannelMessage::NoteOff { note: d1, velocity: d2 })
    } else if kind == 0xB0 {
        Some(ChannelMessage::ControlChange { control: d1, value: d2 })
    } else if kind == 0xE0 {
        let bend = ((d2 as u16) << 7) | (d1 as u16);
        proof {
            assert(((d2 as u16) << 7) | (d1 as u16) < 16384) by (bit_vector)
                requires d1 < 128 && d2 < 128;
        }
        Some(ChannelMessage::PitchBend { bend })
    } else {
        None
    };
    r
}

/// The wire form of a control-change message on channel 1, as the LED sync
/// sends it.
pub fn cc_bytes(control: u8, value: u8) -> (r: Vec<u8>)
    ensures
        r@ == seq![0xB0u8, control, value],
{
    let mut r: Vec<u8> = Vec::new();
    r.push(0xB0);
    r.push(control);
    r.push(value);
    proof {
        assert(r@ =~= seq![0xB0u8, control, value]);
    }
    r
}

} // verus!
