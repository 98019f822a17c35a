//! The Midi Channel Prefix meta-event.

use vstd::prelude::*;
use vstd::string::StringExecFns;

use crate::metadata::TimeDivision;
use crate::metaevents::{
    calculate_time_duration, from_vlq_to_bytes, spec_time_duration, spec_vlq_encode,
    METAEVENT_BYTE,
};
use crate::midi_error::{MidiError, ParseError};

verus! {

/// The meta-event type byte of a channel prefix event.
pub const MIDI_CHANNEL_PREFIX_TYPE: u8 = 0x20;

/// The on-wire size: `0xFF 0x20 0x01 <byte>`.
pub const MIDI_CHANNEL_PREFIX_SIZE: u32 = 4;

/// Associates the meta-events that follow with one MIDI channel.
#[derive(Debug, Clone, PartialEq, Eq, Structural)]
pub struct MidiChannelPrefixEvent {
    pub midi_channel: u8,
    pub event_size: u32,
    pub delta_time: u32,
    pub time_duration: u64,
}

impl MidiChannelPrefixEvent {
    /// The on-wire encoding, delta time excluded.
    pub open spec fn wire(self) -> Seq<u8> {
        seq![METAEVENT_BYTE, MIDI_CHANNEL_PREFIX_TYPE, 0x01u8, self.midi_channel]
    }

    /// A size that matches the wire form.
    pub open spec fn valid(self) -> bool {
        &&& self.event_size == MIDI_CHANNEL_PREFIX_SIZE
        &&& self.delta_time <= 0x0FFFFFFF
    }

    /// Parse from `data`, whose first bytes must be `0xFF 0x20 0x01`.
    pub fn from_bytes(
        data: &[u8],
        delta_time: u32,
        time_division: TimeDivision,
        tempo: u32,
    ) -> (r: Result<Self, MidiError>)
        ensures
            data@.len() >= 4 && data@[2] == 0x01 ==> (r matches Ok(e) && e == (MidiChannelPrefixEvent {
                midi_channel: data@[3],
                event_size: MIDI_CHANNEL_PREFIX_SIZE,
                delta_time,
                time_duration: spec_time_duration(delta_time, time_division, tempo) as u64,
            })),
            data@.len() < 4 ==> r == Err::<Self, MidiError>(
                MidiError::ParseError(ParseError::EndOfData),
            ),
            data@.len() >= 4 && data@[2] != 0x01 ==> (r matches Err(e) && e
                matches MidiError::ParseError(ParseError::InvalidEventBytes(_))),
    {
        if data.len() < 4 {
            return Err(MidiError::ParseError(ParseError::EndOfData));
        }
        let time_duration = calculate_time_duration(delta_time, time_division, tempo);
        let len_byte: u8 = *vstd::slice::slice_index_get(data, 2);
        if len_byte != 0x01 {
            return Err(MidiError::ParseError(ParseError::InvalidEventBytes(String::from_str(
                "A channel prefix event carries exactly one payload byte",
            ))));
        }
        let midi_channel: u8 = *vstd::slice::slice_index_get(data, 3);
        Ok(MidiChannelPrefixEvent { midi_channel, event_size: MIDI_CHANNEL_PREFIX_SIZE, delta_time, time_duration })
    }

    /// Build a channel prefix event at delta time zero.
    pub fn new(midi_channel: u8) -> (r: Result<Self, MidiError>)
        ensures
            r matches Ok(e) && e == (MidiChannelPrefixEvent {
                midi_channel,
                event_size: MIDI_CHANNEL_PREFIX_SIZE,
                delta_time: 0u32,
                time_duration: 0u64,
            }) && e.valid(),
    {
        Ok(MidiChannelPrefixEvent { midi_channel, event_size: MIDI_CHANNEL_PREFIX_SIZE, delta_time: 0, time_duration: 0 })
    }

    /// The on-wire encoding without the leading delta time.
    pub fn to_bytes(&self) -> (r: Result<Vec<u8>, MidiError>)
        ensures
            r matches Ok(v) && v@ =~= self.wire(),
    {
        let bytes: Vec<u8> = vec![METAEVENT_BYTE, MIDI_CHANNEL_PREFIX_TYPE, 0x01u8, self.midi_channel];
        Ok(bytes)
    }

    /// The on-wire encoding, prefixed by the delta time.
    pub fn to_bytes_delta_time(&self) -> (r: Result<Vec<u8>, MidiError>)
        ensures
            r matches Ok(v) && v@ =~= spec_vlq_encode(self.delta_time as int) + self.wire(),
    {
        let mut bytes: Vec<u8> = from_vlq_to_bytes(self.delta_time);
        bytes.push(METAEVENT_BYTE);
        bytes.push(MIDI_CHANNEL_PREFIX_TYPE);
        bytes.push(0x01);
        bytes.push(self.midi_channel);
        Ok(bytes)
    }

    /// The name of this event kind.
    pub fn get_event_name(&self) -> (r: String)
        ensures
            r@ == "Midi Channel Prefix"@,
    {
        String::from_str("Midi Channel Prefix")
    }

    /// Meta-events never use running status.
    pub fn is_running_status_allowed(&self) -> (r: bool)
        ensures
            !r,
    {
        false
    }

    /// The meta-event type byte of this event kind.
    pub fn event_type(&self) -> (r: u8)
        ensures
            r == MIDI_CHANNEL_PREFIX_TYPE,
    {
        MIDI_CHANNEL_PREFIX_TYPE
    }

    /// Meta-events report channel zero.
    pub fn get_channel(&self) -> (r: u8)
        ensures
            r == 0,
    {
        0
    }

    /// The byte count of the on-wire form, delta time excluded.
    pub fn get_event_size(&self) -> (r: u32)
        ensures
            r == self.event_size,
    {
        self.event_size
    }

    /// Ticks since the previous event of the track.
    pub fn get_delta_time(&self) -> (r: u32)
        ensures
            r == self.delta_time,
    {
        self.delta_time
    }

    /// The wall-clock microseconds this event's delta time spans.
    pub fn get_time_duration(&self) -> (r: u64)
        ensures
            r == self.time_duration,
    {
        self.time_duration
    }
}

} // verus!
