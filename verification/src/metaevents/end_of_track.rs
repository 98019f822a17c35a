//! The End Of Track meta-event: the mandatory final event of every track.

use vstd::prelude::*;
use vstd::string::StringExecFns;

use crate::metadata::TimeDivision;
use crate::metaevents::{
    calculate_time_duration, from_vlq_to_bytes, spec_time_duration, spec_vlq_encode,
    METAEVENT_BYTE,
};
use crate::midi_error::{MidiError, ParseError};

verus! {

/// The meta-event type byte of an end-of-track event.
pub const END_OF_TRACK_TYPE: u8 = 0x2F;

/// The on-wire size: `0xFF 0x2F 0x00`.
pub const END_OF_TRACK_SIZE: u32 = 3;

/// The event that closes a track; it carries no payload.
#[derive(Debug, Clone, PartialEq, Eq, Structural)]
pub struct EndOfTrack {
    pub event_size: u32,
    pub delta_time: u32,
    pub time_duration: u64,
}

impl EndOfTrack {
    /// The on-wire encoding, delta time excluded.
    pub open spec fn wire(self) -> Seq<u8> {
        seq![METAEVENT_BYTE, END_OF_TRACK_TYPE, 0x00u8]
    }

    /// A size that matches the wire form.
    pub open spec fn valid(self) -> bool {
        &&& self.event_size == END_OF_TRACK_SIZE
        &&& self.delta_time <= 0x0FFFFFFF
    }

    /// Parse from `data`, whose first bytes must be `0xFF 0x2F 0x00`.
    pub fn from_bytes(
        data: &[u8],
        delta_time: u32,
        time_division: TimeDivision,
        tempo: u32,
    ) -> (r: Result<Self, MidiError>)
        ensures
            data@.len() >= 3 && data@[2] == 0x00 ==> (r matches Ok(e) && e == (EndOfTrack {
                event_size: END_OF_TRACK_SIZE,
                delta_time,
                time_duration: spec_time_duration(delta_time, time_division, tempo) as u64,
            })),
            data@.len() < 3 ==> r == Err::<Self, MidiError>(
                MidiError::ParseError(ParseError::EndOfData),
            ),
            data@.len() >= 3 && data@[2] != 0x00 ==> (r matches Err(e) && e
                matches MidiError::ParseError(ParseError::InvalidEventBytes(_))),
    {
        if data.len() < 3 {
            return Err(MidiError::ParseError(ParseError::EndOfData));
        }
        let time_duration = calculate_time_duration(delta_time, time_division, tempo);
        let len_byte: u8 = *vstd::slice::slice_index_get(data, 2);
        if len_byte != 0x00 {
            return Err(MidiError::ParseError(ParseError::InvalidEventBytes(String::from_str(
                "An end-of-track event carries no payload",
            ))));
        }
        Ok(EndOfTrack { event_size: END_OF_TRACK_SIZE, delta_time, time_duration })
    }

    /// Build an end-of-track event at delta time zero.
    pub fn new() -> (r: Result<Self, MidiError>)
        ensures
            r matches Ok(e) && e == (EndOfTrack {
                event_size: END_OF_TRACK_SIZE,
                delta_time: 0u32,
                time_duration: 0u64,
            }) && e.valid(),
    {
        Ok(EndOfTrack { event_size: END_OF_TRACK_SIZE, delta_time: 0, time_duration: 0 })
    }

    /// The on-wire encoding without the leading delta time.
    pub fn to_bytes(&self) -> (r: Result<Vec<u8>, MidiError>)
        ensures
            r matches Ok(v) && v@ =~= self.wire(),
    {
        let bytes: Vec<u8> = vec![METAEVENT_BYTE, END_OF_TRACK_TYPE, 0x00u8];
        Ok(bytes)
    }

    /// The on-wire encoding, prefixed by the delta time.
    pub fn to_bytes_delta_time(&self) -> (r: Result<Vec<u8>, MidiError>)
        ensures
            r matches Ok(v) && v@ =~= spec_vlq_encode(self.delta_time as int) + self.wire(),
    {
        let mut bytes: Vec<u8> = from_vlq_to_bytes(self.delta_time);
        bytes.push(METAEVENT_BYTE);
        bytes.push(END_OF_TRACK_TYPE);
        bytes.push(0x00);
        Ok(bytes)
    }

    /// The name of this event kind.
    pub fn get_event_name(&self) -> (r: String)
        ensures
            r@ == "End of Track"@,
    {
        String::from_str("End of Track")
    }

    /// Meta-events never use running status.
    pub fn is_running_status_allowed(&self) -> (r: bool)
        ensures
            !r,
    {
        false
    }

    /// The meta-event type byte of this event kind.
    pub fn event_type(&self) -> (r: u8)
        ensures
            r == END_OF_TRACK_TYPE,
    {
        END_OF_TRACK_TYPE
    }

    /// Meta-events report channel zero.
    pub fn get_channel(&self) -> (r: u8)
        ensures
            r == 0,
    {
        0
    }

    /// The byte count of the on-wire form, delta time excluded.
    pub fn get_event_size(&self) -> (r: u32)
        ensures
            r == self.event_size,
    {
        self.event_size
    }

    /// Ticks since the previous event of the track.
    pub fn get_delta_time(&self) -> (r: u32)
        ensures
            r == self.delta_time,
    {
        self.delta_time
    }

    /// The wall-clock microseconds this event's delta time spans.
    pub fn get_time_duration(&self) -> (r: u64)
        ensures
            r == self.time_duration,
    {
        self.time_duration
    }
}

} // verus!
