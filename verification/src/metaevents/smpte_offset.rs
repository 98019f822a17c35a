//! The SMPTE Offset meta-event.

use vstd::prelude::*;
use vstd::string::StringExecFns;

use crate::metadata::TimeDivision;
use crate::metaevents::{
    calculate_time_duration, from_vlq_to_bytes, spec_time_duration, spec_vlq_encode,
    METAEVENT_BYTE,
};
use crate::midi_error::{MidiError, ParseError};

verus! {

/// The meta-event type byte of an SMPTE offset event.
pub const SMPTE_OFFSET_TYPE: u8 = 0x54;

/// The on-wire size: `0xFF 0x54 0x05` and five timecode bytes.
pub const SMPTE_OFFSET_SIZE: u32 = 8;

/// The SMPTE timecode at which the track starts. This library keeps it only
/// to preserve the file bit for bit.
#[derive(Debug, Clone, PartialEq, Eq, Structural)]
pub struct SMPTEOffsetEvent {
    pub hour: u8,
    pub minute: u8,
    pub second: u8,
    pub frame_rate: u8,
    pub fractional_frames: u8,
    pub event_size: u32,
    pub delta_time: u32,
    pub time_duration: u64,
}

impl SMPTEOffsetEvent {
    /// The on-wire encoding, delta time excluded.
    pub open spec fn wire(self) -> Seq<u8> {
        seq![
            METAEVENT_BYTE,
            SMPTE_OFFSET_TYPE,
            0x05u8,
            self.hour,
            self.minute,
            self.second,
            self.frame_rate,
            self.fractional_frames,
        ]
    }

    /// A size that matches the wire form.
    pub open spec fn valid(self) -> bool {
        &&& self.event_size == SMPTE_OFFSET_SIZE
        &&& self.delta_time <= 0x0FFFFFFF
    }

    /// Parse from `data`, whose first bytes must be `0xFF 0x54 0x05`.
    pub fn from_bytes(
        data: &[u8],
        delta_time: u32,
        time_division: TimeDivision,
        tempo: u32,
    ) -> (r: Result<Self, MidiError>)
        ensures
            data@.len() >= 8 && data@[2] == 0x05 ==> (r matches Ok(e) && e == (SMPTEOffsetEvent {
                hour: data@[3],
                minute: data@[4],
                second: data@[5],
                frame_rate: data@[6],
                fractional_frames: data@[7],
                event_size: SMPTE_OFFSET_SIZE,
                delta_time,
                time_duration: spec_time_duration(delta_time, time_division, tempo) as u64,
            })),
            data@.len() < 8 ==> r == Err::<Self, MidiError>(
                MidiError::ParseError(ParseError::EndOfData),
            ),
            data@.len() >= 8 && data@[2] != 0x05 ==> (r matches Err(e) && e
                matches MidiError::ParseError(ParseError::InvalidEventBytes(_))),
    {
        if data.len() < 8 {
            return Err(MidiError::ParseError(ParseError::EndOfData));
        }
        let time_duration = calculate_time_duration(delta_time, time_division, tempo);
        let len_byte: u8 = *vstd::slice::slice_index_get(data, 2);
        if len_byte != 0x05 {
            return Err(MidiError::ParseError(ParseError::InvalidEventBytes(String::from_str(
                "An SMPTE offset carries exactly five payload bytes",
            ))));
        }
        let hour: u8 = *vstd::slice::slice_index_get(data, 3);
        let minute: u8 = *vstd::slice::slice_index_get(data, 4);
        let second: u8 = *vstd::slice::slice_index_get(data, 5);
        let frame_rate: u8 = *vstd::slice::slice_index_get(data, 6);
        let fractional_frames: u8 = *vstd::slice::slice_index_get(data, 7);
        Ok(SMPTEOffsetEvent {
            hour,
            minute,
            second,
            frame_rate,
            fractional_frames,
            event_size: SMPTE_OFFSET_SIZE,
            delta_time,
            time_duration,
        })
    }

    /// The on-wire encoding without the leading delta time.
    pub fn to_bytes(&self) -> (r: Result<Vec<u8>, MidiError>)
        ensures
            r matches Ok(v) && v@ =~= self.wire(),
    {
        let bytes: Vec<u8> = vec![
            METAEVENT_BYTE,
            SMPTE_OFFSET_TYPE,
            0x05u8,
            self.hour,
            self.minute,
            self.second,
            self.frame_rate,
            self.fractional_frames,
        ];
        Ok(bytes)
    }

    /// The on-wire encoding, prefixed by the delta time.
    pub fn to_bytes_delta_time(&self) -> (r: Result<Vec<u8>, MidiError>)
        ensures
            r matches Ok(v) && v@ =~= spec_vlq_encode(self.delta_time as int) + self.wire(),
    {
        let mut bytes: Vec<u8> = from_vlq_to_bytes(self.delta_time);
        bytes.push(METAEVENT_BYTE);
        bytes.push(SMPTE_OFFSET_TYPE);
        bytes.push(0x05);
        bytes.push(self.hour);
        bytes.push(self.minute);
        bytes.push(self.second);
        bytes.push(self.frame_rate);
        bytes.push(self.fractional_frames);
        Ok(bytes)
    }

    /// The name of this event kind.
    pub fn get_event_name(&self) -> (r: String)
        ensures
            r@ == "SMPTE Offset"@,
    {
        String::from_str("SMPTE Offset")
    }

    /// Meta-events never use running status.
    pub fn is_running_status_allowed(&self) -> (r: bool)
        ensures
            !r,
    {
        false
    }

    /// The meta-event type byte of this event kind.
    pub fn event_type(&self) -> (r: u8)
        ensures
            r == SMPTE_OFFSET_TYPE,
    {
        SMPTE_OFFSET_TYPE
    }

    /// Meta-events report channel zero.
    pub fn get_channel(&self) -> (r: u8)
        ensures
            r == 0,
    {
        0
    }

    /// The byte count of the on-wire form, delta time excluded.
    pub fn get_event_size(&self) -> (r: u32)
        ensures
            r == self.event_size,
    {
        self.event_size
    }

    /// Ticks since the previous event of the track.
    pub fn get_delta_time(&self) -> (r: u32)
        ensures
            r == self.delta_time,
    {
        self.delta_time
    }

    /// The wall-clock microseconds this event's delta time spans.
    pub fn get_time_duration(&self) -> (r: u64)
        ensures
            r == self.time_duration,
    {
        self.time_duration
    }
}

} // verus!
