//! Raw MIDI events and the decoder that reduces them to simplified messages.

use vstd::prelude::*;

verus! {

/// A raw MIDI message: one status byte and up to three data bytes, exactly as
/// the host MIDI subsystem delivers it.
#[derive(Clone, Copy, Debug, PartialEq, Eq, Structural)]
pub struct MidiMessage {
    pub status: u8,
    pub data1: u8,
    pub data2: u8,
    pub data3: u8,
}

/// A time-stamped raw MIDI event as read from an input port.
#[derive(Clone, Copy, Debug, PartialEq, Eq, Structural)]
pub struct MidiEvent {
    pub message: MidiMessage,
    pub timestamp: u32,
}

/// A decoded message: only the first two data bytes of the raw event are
/// kept, copied without scaling or clamping. The message type (note-on,
/// control-change, ...) is deliberately not distinguished.
#[derive(Clone, Copy, Debug, PartialEq, Eq, Structural)]
pub struct MyMidiMessage {
    pub channel: u8,
    pub intensity: u8,
}

/// What decoding a raw event yields: data byte 1 becomes the channel field,
/// data byte 2 the intensity field.
pub open spec fn spec_decode(m: MidiEvent) -> MyMidiMessage {
    MyMidiMessage { channel: m.message.data1, intensity: m.message.data2 }
}

impl MyMidiMessage {
    /// Decode a raw event. Total: every raw event decodes, with the two data
    /// bytes copied exactly.
    pub fn new(m: MidiEvent) -> (r: Self)
        ensures
            r == spec_decode(m),
            r.channel == m.message.data1,
            r.intensity == m.message.data2,
    {
        MyMidiMessage { channel: m.message.data1, intensity: m.message.data2 }
    }
}

} // verus!
