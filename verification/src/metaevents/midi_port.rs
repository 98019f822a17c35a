//! The MIDI Port meta-event.

use vstd::prelude::*;
use vstd::string::StringExecFns;

use crate::metadata::TimeDivision;
use crate::metaevents::{
    calculate_time_duration, from_vlq_to_bytes, spec_time_duration, spec_vlq_encode,
    METAEVENT_BYTE,
};
use crate::midi_error::{MidiError, ParseError};

verus! {

/// The meta-event type byte of a port event.
pub const MIDI_PORT_TYPE: u8 = 0x21;

/// The on-wire size: `0xFF 0x21 0x01 <byte>`.
pub const MIDI_PORT_SIZE: u32 = 4;

/// Names the output port the track plays through.
#[derive(Debug, Clone, PartialEq, Eq, Structural)]
pub struct MidiPortEvent {
    pub midi_port: u8,
    pub event_size: u32,
    pub delta_time: u32,
    pub time_duration: u64,
}

impl MidiPortEvent {
    /// The on-wire encoding, delta time excluded.
    pub open spec fn wire(self) -> Seq<u8> {
        seq![METAEVENT_BYTE, MIDI_PORT_TYPE, 0x01u8, self.midi_port]
    }

    /// A size that matches the wire form.
    pub open spec fn valid(self) -> bool {
        &&& self.event_size == MIDI_PORT_SIZE
        &&& self.delta_time <= 0x0FFFFFFF
    }

    /// Parse from `data`, whose first bytes must be `0xFF 0x21 0x01`.
    pub fn from_bytes(
        data: &[u8],
        delta_time: u32,
        time_division: TimeDivision,
        tempo: u32,
    ) -> (r: Result<Self, MidiError>)
        ensures
            data@.len() >= 4 && data@[2] == 0x01 ==> (r matches Ok(e) && e == (MidiPortEvent {
                midi_port: data@[3],
                event_size: MIDI_PORT_SIZE,
                delta_time,
                time_duration: spec_time_duration(delta_time, time_division, tempo) as u64,
            })),
            data@.len() < 4 ==> r == Err::<Self, MidiError>(
                MidiError::ParseError(ParseError::EndOfData),
            ),
            data@.len() >= 4 && data@[2] != 0x01 ==> (r matches Err(e) && e
                matches MidiError::ParseError(ParseError::InvalidEventBytes(_))),
    {
        if data.len() < 4 {
            return Err(MidiError::ParseError(ParseError::EndOfData));
        }
        let time_duration = calculate_time_duration(delta_time, time_division, tempo);
        let len_byte: u8 = *vstd::slice::slice_index_get(data, 2);
        if len_byte != 0x01 {
            return Err(MidiError::ParseError(ParseError::InvalidEventBytes(String::from_str(
                "A port event carries exactly one payload byte",
            ))));
        }
        let midi_port: u8 = *vstd::slice::slice_index_get(data, 3);
        Ok(MidiPortEvent { midi_port, event_size: MIDI_PORT_SIZE, delta_time, time_duration })
    }

    /// The on-wire encoding without the leading delta time.
    pub fn to_bytes(&self) -> (r: Result<Vec<u8>, MidiError>)
        ensures
            r matches Ok(v) && v@ =~= self.wire(),
    {
        let bytes: Vec<u8> = vec![METAEVENT_BYTE, MIDI_PORT_TYPE, 0x01u8, self.midi_port];
        Ok(bytes)
    }

    /// The on-wire encoding, prefixed by the delta time.
    pub fn to_bytes_delta_time(&self) -> (r: Result<Vec<u8>, MidiError>)
        ensures
            r matches Ok(v) && v@ =~= spec_vlq_encode(self.delta_time as int) + self.wire(),
    {
        let mut bytes: Vec<u8> = from_vlq_to_bytes(self.delta_time);
        bytes.push(METAEVENT_BYTE);
        bytes.push(MIDI_PORT_TYPE);
        bytes.push(0x01);
        bytes.push(self.midi_port);
        Ok(bytes)
    }

    /// The name of this event kind.
    pub fn get_event_name(&self) -> (r: String)
        ensures
            r@ == "MIDI Port"@,
    {
        String::from_str("MIDI Port")
    }

    /// Meta-events never use running status.
    pub fn is_running_status_allowed(&self) -> (r: bool)
        ensures
            !r,
    {
        false
    }

    /// The meta-event type byte of this event kind.
    pub fn event_type(&self) -> (r: u8)
        ensures
            r == MIDI_PORT_TYPE,
    {
        MIDI_PORT_TYPE
    }

    /// Meta-events report channel zero.
    pub fn get_channel(&self) -> (r: u8)
        ensures
            r == 0,
    {
        0
    }

    /// The byte count of the on-wire form, delta time excluded.
    pub fn get_event_size(&self) -> (r: u32)
        ensures
            r == self.event_size,
    {
        self.event_size
    }

    /// Ticks since the previous event of the track.
    pub fn get_delta_time(&self) -> (r: u32)
        ensures
            r == self.delta_time,
    {
        self.delta_time
    }

    /// The wall-clock microseconds this event's delta time spans.
    pub fn get_time_duration(&self) -> (r: u64)
        ensures
            r == self.time_duration,
    {
        self.time_duration
    }
}

} // verus!
