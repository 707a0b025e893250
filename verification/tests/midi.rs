use vass::midi::{decode_midi, MidiMessage};

#[test]
fn note_on_with_velocity_starts_key() {
    assert_eq!(decode_midi([0x90, 60, 100]), MidiMessage::NoteOn(60));
    assert_eq!(decode_midi([0x9f, 61, 1]), MidiMessage::NoteOn(61));
}

#[test]
fn note_off_releases_key() {
    assert_eq!(decode_midi([0x80, 60, 64]), MidiMessage::NoteOff(60));
    assert_eq!(decode_midi([0x85, 72, 0]), MidiMessage::NoteOff(72));
}

#[test]
fn silent_note_on_is_note_off() {
    assert_eq!(decode_midi([0x93, 64, 0]), MidiMessage::NoteOff(64));
    assert_eq!(decode_midi([0x93, 64, 0]), decode_midi([0x83, 64, 99]));
}

#[test]
fn other_statuses_are_ignored() {
    assert_eq!(decode_midi([0xb0, 7, 100]), MidiMessage::Ignored);
    assert_eq!(decode_midi([0xe0, 0, 64]), MidiMessage::Ignored);
    assert_eq!(decode_midi([0xa0, 60, 10]), MidiMessage::Ignored);
    assert_eq!(decode_midi([0x00, 0, 0]), MidiMessage::Ignored);
    assert_eq!(decode_midi([0xff, 60, 100]), MidiMessage::Ignored);
}

#[test]
fn channel_does_not_matter() {
    for ch in 0u8..16 {
        assert_eq!(decode_midi([0x90 | ch, 50, 80]), decode_midi([0x90, 50, 80]));
        assert_eq!(decode_midi([0x80 | ch, 50, 80]), decode_midi([0x80, 50, 80]));
        assert_eq!(decode_midi([0xc0 | ch, 50, 80]), MidiMessage::Ignored);
    }
}
