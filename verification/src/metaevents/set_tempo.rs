//! The Set Tempo meta-event.
//!
//! The canonical stored form is the 24-bit on-wire value: microseconds per
//! quarter note. Beats per minute is `60_000_000 / tempo`, a derived figure
//! left to callers.

use vstd::prelude::*;
use vstd::string::StringExecFns;

use crate::metadata::TimeDivision;
use crate::metaevents::{
    calculate_time_duration, from_vlq_to_bytes, spec_time_duration, spec_vlq_encode,
    METAEVENT_BYTE,
};
use crate::midi_error::{EventError, MidiError, ParseError};

verus! {

/// The meta-event type byte of a set-tempo event.
pub const SET_TEMPO_TYPE: u8 = 0x51;

/// The on-wire size: `0xFF 0x51 0x03` and three tempo bytes.
pub const SET_TEMPO_SIZE: u32 = 6;

/// A tempo change: microseconds per quarter note, as a 24-bit value.
#[derive(Debug, Clone, PartialEq, Eq, Structural)]
pub struct SetTempoEvent {
    pub tempo: u32,
    pub event_size: u32,
    pub delta_time: u32,
    pub time_duration: u64,
}

impl SetTempoEvent {
    /// The on-wire encoding, delta time excluded: the tempo big-endian in
    /// three bytes.
    pub open spec fn wire(self) -> Seq<u8> {
        seq![
            METAEVENT_BYTE,
            SET_TEMPO_TYPE,
            0x03u8,
            (self.tempo / 0x10000) as u8,
            ((self.tempo / 0x100) % 0x100) as u8,
            (self.tempo % 0x100) as u8,
        ]
    }

    /// A tempo that fits its 24 wire bits, and a size that matches the wire
    /// form.
    pub open spec fn valid(self) -> bool {
        &&& self.tempo <= 0xFFFFFF
        &&& self.event_size == SET_TEMPO_SIZE
        &&& self.delta_time <= 0x0FFFFFFF
    }

    /// Parse from `data`, whose first bytes must be `0xFF 0x51 0x03`.
    pub fn from_bytes(
        data: &[u8],
        delta_time: u32,
        time_division: TimeDivision,
        tempo: u32,
    ) -> (r: Result<Self, MidiError>)
        ensures
            data@.len() >= 6 && data@[2] == 0x03 ==> (r matches Ok(e) && e == (SetTempoEvent {
                tempo: (data@[3] * 0x10000 + data@[4] * 0x100 + data@[5]) as u32,
                event_size: SET_TEMPO_SIZE,
                delta_time,
                time_duration: spec_time_duration(delta_time, time_division, tempo) as u64,
            })),
            data@.len() < 6 ==> r == Err::<Self, MidiError>(
                MidiError::ParseError(ParseError::EndOfData),
            ),
            data@.len() >= 6 && data@[2] != 0x03 ==> (r matches Err(e) && e
                matches MidiError::ParseError(ParseError::InvalidEventBytes(_))),
    {
        if data.len() < 6 {
            return Err(MidiError::ParseError(ParseError::EndOfData));
        }
        let time_duration = calculate_time_duration(delta_time, time_division, tempo);
        let len_byte: u8 = *vstd::slice::slice_index_get(data, 2);
        if len_byte != 0x03 {
            return Err(MidiError::ParseError(ParseError::InvalidEventBytes(String::from_str(
                "A set-tempo event carries exactly three payload bytes",
            ))));
        }
        let b0: u8 = *vstd::slice::slice_index_get(data, 3);
        let b1: u8 = *vstd::slice::slice_index_get(data, 4);
        let b2: u8 = *vstd::slice::slice_index_get(data, 5);
        let tempo_in_micro: u32 = (b0 as u32) * 0x10000 + (b1 as u32) * 0x100 + (b2 as u32);
        Ok(SetTempoEvent {
            tempo: tempo_in_micro,
            event_size: SET_TEMPO_SIZE,
            delta_time,
            time_duration,
        })
    }

    /// Build a set-tempo event at delta time zero; the tempo must fit the
    /// 24-bit wire field.
    pub fn new(tempo: u32) -> (r: Result<Self, MidiError>)
        ensures
            tempo <= 0xFFFFFF ==> (r matches Ok(e) && e == (SetTempoEvent {
                tempo,
                event_size: SET_TEMPO_SIZE,
                delta_time: 0u32,
                time_duration: 0u64,
            }) && e.valid()),
            tempo > 0xFFFFFF ==> r == Err::<Self, MidiError>(
                MidiError::EventError(EventError::InvalidEvent),
            ),
    {
        if tempo > 0xFFFFFF {
            return Err(MidiError::EventError(EventError::InvalidEvent));
        }
        Ok(SetTempoEvent { tempo, event_size: SET_TEMPO_SIZE, delta_time: 0, time_duration: 0 })
    }

    /// The on-wire encoding without the leading delta time.
    pub fn to_bytes(&self) -> (r: Result<Vec<u8>, MidiError>)
        ensures
            r matches Ok(v) && v@ =~= self.wire(),
    {
        let bytes: Vec<u8> = vec![
            METAEVENT_BYTE,
            SET_TEMPO_TYPE,
            0x03u8,
            (self.tempo / 0x10000) as u8,
            ((self.tempo / 0x100) % 0x100) as u8,
            (self.tempo % 0x100) as u8,
        ];
        Ok(bytes)
    }

    /// The on-wire encoding, prefixed by the delta time.
    pub fn to_bytes_delta_time(&self) -> (r: Result<Vec<u8>, MidiError>)
        ensures
            r matches Ok(v) && v@ =~= spec_vlq_encode(self.delta_time as int) + self.wire(),
    {
        let mut bytes: Vec<u8> = from_vlq_to_bytes(self.delta_time);
        bytes.push(METAEVENT_BYTE);
        bytes.push(SET_TEMPO_TYPE);
        bytes.push(0x03);
        bytes.push((self.tempo / 0x10000) as u8);
        bytes.push(((self.tempo / 0x100) % 0x100) as u8);
        bytes.push((self.tempo % 0x100) as u8);
        Ok(bytes)
    }

    /// The name of this event kind.
    pub fn get_event_name(&self) -> (r: String)
        ensures
            r@ == "Set Tempo"@,
    {
        String::from_str("Set Tempo")
    }

    /// Meta-events never use running status.
    pub fn is_running_status_allowed(&self) -> (r: bool)
        ensures
            !r,
    {
        false
    }

    /// The meta-event type byte of this event kind.
    pub fn event_type(&self) -> (r: u8)
        ensures
            r == SET_TEMPO_TYPE,
    {
        SET_TEMPO_TYPE
    }

    /// Meta-events report channel zero.
    pub fn get_channel(&self) -> (r: u8)
        ensures
            r == 0,
    {
        0
    }

    /// The byte count of the on-wire form, delta time excluded.
    pub fn get_event_size(&self) -> (r: u32)
        ensures
            r == self.event_size,
    {
        self.event_size
    }

    /// Ticks since the previous event of the track.
    pub fn get_delta_time(&self) -> (r: u32)
        ensures
            r == self.delta_time,
    {
        self.delta_time
    }

    /// The wall-clock microseconds this event's delta time spans.
    pub fn get_time_duration(&self) -> (r: u64)
        ensures
            r == self.time_duration,
    {
        self.time_duration
    }
}

} // verus!
