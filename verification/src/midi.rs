//! Decoding of the three bytes of a short MIDI message into what the
//! instrument reacts to.
use vstd::prelude::*;

verus! {

/// What a short MIDI message asks of the instrument.
#[derive(PartialEq, Eq, Structural, Clone, Copy, Debug)]
pub enum MidiMessage {
    /// Start playing the given key.
    NoteOn(u8),
    /// Release the given key.
    NoteOff(u8),
    /// Anything else: the instrument does not react.
    Ignored,
}

/// The status nibble of a status byte (the channel nibble cleared).
pub open spec fn status_kind(status: u8) -> u8 {
    status & 0xf0u8
}

/// The meaning of the message `[status, key, velocity]`: a note-off status
/// (0x8n) releases the key, a note-on status (0x9n) starts it, except that a
/// note-on with velocity 0 releases it; every other status is ignored. The
/// channel (low nibble of the status) plays no part.
pub open spec fn decode_spec(status: u8, key: u8, velocity: u8) -> MidiMessage {
    if status_kind(status) == 0x80u8 {
        MidiMessage::NoteOff(key)
    } else if status_kind(status) == 0x90u8 {
        if velocity == 0 {
            MidiMessage::NoteOff(key)
        } else {
            MidiMessage::NoteOn(key)
        }
    } else {
        MidiMessage::Ignored
    }
}

/// Decodes the three data bytes of a MIDI event.
pub fn decode_midi(data: [u8; 3]) -> (msg: MidiMessage)
    ensures
        msg == decode_spec(data@[0], data@[1], data@[2]),
        data@[0] & 0xf0u8 == 0x90u8 && data@[2] != 0 ==> msg == MidiMessage::NoteOn(data@[1]),
        data@[0] & 0xf0u8 == 0x90u8 && data@[2] == 0 ==> msg == MidiMessage::NoteOff(data@[1]),
        data@[0] & 0xf0u8 == 0x80u8 ==> msg == MidiMessage::NoteOff(data@[1]),
        data@[0] & 0xf0u8 != 0x80u8 && data@[0] & 0xf0u8 != 0x90u8 ==> msg == MidiMessage::Ignored,
{
    let status = data[0];
    let key = data[1];
    let velocity = data[2];
    let kind = status & 0xf0u8;
    if kind == 0x80u8 {
        MidiMessage::NoteOff(key)
    } else if kind == 0x90u8 {
        if velocity == 0 {
            MidiMessage::NoteOff(key)
        } else {
            MidiMessage::NoteOn(key)
        }
    } else {
        MidiMessage::Ignored
    }
}

/// What every message means, case by case: a note-on status (0x9n) with a
/// non-zero velocity starts the key, whatever that velocity; with velocity 0
/// it releases the key; a note-off status (0x8n) releases the key whatever
/// its velocity; every other status is ignored.
pub proof fn lemma_decode_cases(status: u8, key: u8, velocity: u8)
    ensures
        status & 0xf0u8 == 0x90u8 && velocity != 0 ==> decode_spec(status, key, velocity)
            == MidiMessage::NoteOn(key),
        status & 0xf0u8 == 0x90u8 && velocity == 0 ==> decode_spec(status, key, velocity)
            == MidiMessage::NoteOff(key),
        status & 0xf0u8 == 0x80u8 ==> decode_spec(status, key, velocity) == MidiMessage::NoteOff(key),
        status & 0xf0u8 != 0x80u8 && status & 0xf0u8 != 0x90u8 ==> decode_spec(status, key, velocity)
            == MidiMessage::Ignored,
{
}

/// The channel nibble of the status byte never changes the meaning of a
/// message: replacing it by any other channel decodes to the same message.
pub proof fn lemma_channel_is_ignored(status: u8, channel: u8, key: u8, velocity: u8)
    requires
        channel < 16,
    ensures
        decode_spec((status & 0xf0u8) | channel, key, velocity) == decode_spec(status, key, velocity),
{
    assert(((status & 0xf0u8) | channel) & 0xf0u8 == status & 0xf0u8) by (bit_vector)
        requires
            channel < 16,
    ;
}

/// A note-on with velocity 0 means the same as a note-off for that key, on
/// every channel and whatever the note-off's release velocity.
pub proof fn lemma_silent_note_on_is_note_off(channel: u8, key: u8, release: u8)
    requires
        channel < 16,
    ensures
        decode_spec(0x90u8 | channel, key, 0) == decode_spec(0x80u8 | channel, key, release),
        decode_spec(0x90u8 | channel, key, 0) == MidiMessage::NoteOff(key),
{
    assert((0x90u8 | channel) & 0xf0u8 == 0x90u8) by (bit_vector)
        requires
            channel < 16,
    ;
    assert((0x80u8 | channel) & 0xf0u8 == 0x80u8) by (bit_vector)
        requires
            channel < 16,
    ;
}

} // verus!
