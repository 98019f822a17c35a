//! The Control Change channel voice message.

use vstd::prelude::*;
use vstd::string::StringExecFns;

use crate::messages::CHANNEL_MASK;
use crate::metadata::TimeDivision;
use crate::metaevents::{
    calculate_time_duration, from_vlq_to_bytes, spec_time_duration, spec_vlq_encode,
};
use crate::midi_error::{MidiError, ParseError};

verus! {

/// The status nibble of a Control Change message.
pub const CONTROL_CHANGE_TYPE: u8 = 0xB0;

/// The on-wire size of a Control Change message: status byte and two data bytes.
pub const CONTROL_CHANGE_SIZE: u32 = 3;

/// A controller moving: controller number and value on one channel.
#[derive(Debug, Clone, PartialEq, Eq, Structural)]
pub struct ControlChangeEvent {
    pub control: u8,
    pub control_value: u8,
    pub channel: u8,
    pub event_size: u32,
    pub delta_time: u32,
    pub time_duration: u64,
}

impl ControlChangeEvent {
    /// The on-wire encoding, status byte included, delta time excluded.
    pub open spec fn wire(self) -> Seq<u8> {
        seq![CONTROL_CHANGE_TYPE | self.channel, self.control, self.control_value]
    }

    /// Field ranges the wire format demands, and a size that matches it.
    pub open spec fn valid(self) -> bool {
        &&& self.control < 0x80
        &&& self.control_value < 0x80
        &&& self.channel < 0x10
        &&& self.event_size == CONTROL_CHANGE_SIZE
        &&& self.delta_time <= 0x0FFFFFFF
    }

    /// Parse from `data`, whose first byte is the status byte.
    pub fn from_bytes(
        data: &[u8],
        delta_time: u32,
        time_division: TimeDivision,
        tempo: u32,
    ) -> (r: Result<Self, MidiError>)
        ensures
            data@.len() >= 3 && data@[1] < 0x80 && data@[2] < 0x80 ==> (r matches Ok(e) && e == (
            ControlChangeEvent {
                control: data@[1],
                control_value: data@[2],
                channel: data@[0] & CHANNEL_MASK,
                event_size: CONTROL_CHANGE_SIZE,
                delta_time,
                time_duration: spec_time_duration(delta_time, time_division, tempo) as u64,
            })),
            data@.len() < 3 ==> r == Err::<Self, MidiError>(
                MidiError::ParseError(ParseError::EndOfData),
            ),
            data@.len() >= 3 && !(data@[1] < 0x80 && data@[2] < 0x80) ==> (r matches Err(e) && e
                matches MidiError::ParseError(ParseError::InvalidEventBytes(_))),
    {
        if data.len() < 3 {
            return Err(MidiError::ParseError(ParseError::EndOfData));
        }
        let time_duration = calculate_time_duration(delta_time, time_division, tempo);
        let status: u8 = *vstd::slice::slice_index_get(data, 0);
        let channel: u8 = status & CHANNEL_MASK;
        let control: u8 = *vstd::slice::slice_index_get(data, 1);
        let control_value: u8 = *vstd::slice::slice_index_get(data, 2);
        if control >= 0x80 || control_value >= 0x80 {
            return Err(MidiError::ParseError(ParseError::InvalidEventBytes(String::from_str(
                "Control Change data bytes must have their high bit clear",
            ))));
        }
        Ok(ControlChangeEvent { control, control_value, channel, event_size: CONTROL_CHANGE_SIZE, delta_time, time_duration })
    }

    /// Parse the two data bytes of a running-status Control Change; `data` begins
    /// at the first data byte and the channel is the held one.
    pub fn new_from_status(
        data: &[u8],
        delta_time: u32,
        channel: u8,
        time_division: TimeDivision,
        tempo: u32,
    ) -> (r: Result<Self, MidiError>)
        ensures
            data@.len() >= 2 && data@[0] < 0x80 && data@[1] < 0x80 ==> (r matches Ok(e) && e == (
            ControlChangeEvent {
                control: data@[0],
                control_value: data@[1],
                channel,
                event_size: CONTROL_CHANGE_SIZE,
                delta_time,
                time_duration: spec_time_duration(delta_time, time_division, tempo) as u64,
            })),
            data@.len() < 2 ==> r == Err::<Self, MidiError>(
                MidiError::ParseError(ParseError::EndOfData),
            ),
            data@.len() >= 2 && !(data@[0] < 0x80 && data@[1] < 0x80) ==> (r matches Err(e) && e
                matches MidiError::ParseError(ParseError::InvalidEventBytes(_))),
    {
        if data.len() < 2 {
            return Err(MidiError::ParseError(ParseError::EndOfData));
        }
        let time_duration = calculate_time_duration(delta_time, time_division, tempo);
        let control: u8 = *vstd::slice::slice_index_get(data, 0);
        let control_value: u8 = *vstd::slice::slice_index_get(data, 1);
        if control >= 0x80 || control_value >= 0x80 {
            return Err(MidiError::ParseError(ParseError::InvalidEventBytes(String::from_str(
                "Control Change data bytes must have their high bit clear",
            ))));
        }
        Ok(ControlChangeEvent { control, control_value, channel, event_size: CONTROL_CHANGE_SIZE, delta_time, time_duration })
    }

    /// The on-wire encoding without the leading delta time.
    pub fn to_bytes(&self) -> (r: Result<Vec<u8>, MidiError>)
        ensures
            r matches Ok(v) && v@ =~= self.wire(),
    {
        let bytes: Vec<u8> = vec![CONTROL_CHANGE_TYPE | self.channel, self.control, self.control_value];
        Ok(bytes)
    }

    /// The on-wire encoding, prefixed by the delta time.
    pub fn to_bytes_delta_time(&self) -> (r: Result<Vec<u8>, MidiError>)
        ensures
            r matches Ok(v) && v@ =~= spec_vlq_encode(self.delta_time as int) + self.wire(),
    {
        let mut bytes: Vec<u8> = from_vlq_to_bytes(self.delta_time);
        bytes.push(CONTROL_CHANGE_TYPE | self.channel);
        bytes.push(self.control);
        bytes.push(self.control_value);
        Ok(bytes)
    }

    /// The name of this event kind.
    pub fn get_event_name(&self) -> (r: String)
        ensures
            r@ == "Control Change"@,
    {
        String::from_str("Control Change")
    }

    /// Channel voice messages may use running status.
    pub fn is_running_status_allowed(&self) -> (r: bool)
        ensures
            r,
    {
        true
    }

    /// The status nibble of this event kind.
    pub fn event_type(&self) -> (r: u8)
        ensures
            r == CONTROL_CHANGE_TYPE,
    {
        CONTROL_CHANGE_TYPE
    }

    /// The channel this event addresses.
    pub fn get_channel(&self) -> (r: u8)
        ensures
            r == self.channel,
    {
        self.channel
    }

    /// The byte count of the on-wire form, delta time excluded.
    pub fn get_event_size(&self) -> (r: u32)
        ensures
            r == self.event_size,
    {
        self.event_size
    }

    /// Ticks since the previous event of the track.
    pub fn get_delta_time(&self) -> (r: u32)
        ensures
            r == self.delta_time,
    {
        self.delta_time
    }

    /// The wall-clock microseconds this event's delta time spans.
    pub fn get_time_duration(&self) -> (r: u64)
        ensures
            r == self.time_duration,
    {
        self.time_duration
    }
}

} // verus!
