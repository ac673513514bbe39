use octocore::midi::{cc_bytes, decode, ChannelMessage};

#[test]
fn decodes_note_on() {
    assert_eq!(
        decode(&[0x90, 60, 100]),
        Some(ChannelMessage::NoteOn { note: 60, velocity: 100 })
    );
    // any channel decodes alike
    assert_eq!(
        decode(&[0x9F, 60, 100]),
        Some(ChannelMessage::NoteOn { note: 60, velocity: 100 })
    );
}

#[test]
fn decodes_note_off() {
    assert_eq!(
        decode(&[0x80, 60, 0]),
        Some(ChannelMessage::NoteOff { note: 60, velocity: 0 })
    );
}

#[test]
fn decodes_control_change() {
    assert_eq!(
        decode(&[0xB0, 102, 127]),
        Some(ChannelMessage::ControlChange { control: 102, value: 127 })
    );
}

#[test]
fn decodes_pitch_bend_centre() {
    // centre: LSB 0, MSB 64 -> 8192
    assert_eq!(decode(&[0xE0, 0, 64]), Some(ChannelMessage::PitchBend { bend: 8192 }));
    assert_eq!(decode(&[0xE0, 0x7F, 0x7F]), Some(ChannelMessage::PitchBend { bend: 16383 }));
}

#[test]
fn malformed_packets_are_ignored() {
    // wrong length
    assert_eq!(decode(&[0x90, 60]), None);
    assert_eq!(decode(&[0x90, 60, 100, 0]), None);
    assert_eq!(decode(&[]), None);
    // a data byte with the high bit set
    assert_eq!(decode(&[0x90, 200, 100]), None);
    assert_eq!(decode(&[0x90, 60, 200]), None);
    // an unhandled status
    assert_eq!(decode(&[0xA0, 60, 100]), None);
    assert_eq!(decode(&[0x10, 60, 100]), None);
}

#[test]
fn cc_bytes_build_a_channel_one_packet() {
    assert_eq!(cc_bytes(102, 122), vec![0xB0, 102, 122]);
}
