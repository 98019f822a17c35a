//! The Time Signature meta-event.
//!
//! On the wire the denominator byte is the base-two logarithm of the actual
//! denominator; in memory the actual denominator is stored.

use vstd::prelude::*;
use vstd::string::StringExecFns;

use crate::metadata::TimeDivision;
use crate::metaevents::{
    calculate_time_duration, from_vlq_to_bytes, spec_time_duration, spec_vlq_encode,
    METAEVENT_BYTE,
};
use crate::midi_error::{EventError, MidiError, ParseError};

verus! {

/// The meta-event type byte of a time signature event.
pub const TIME_SIGNATURE_TYPE: u8 = 0x58;

/// The on-wire size: `0xFF 0x58 0x04` and four payload bytes.
pub const TIME_SIGNATURE_SIZE: u32 = 7;

/// MIDI clocks per metronome click, when a time signature is synthesized
/// rather than parsed.
pub const DEFAULT_METRONOME_CLICKS: u8 = 24;

/// Thirty-second notes per quarter note, when a time signature is
/// synthesized rather than parsed.
pub const DEFAULT_32ND_NOTES_PER_QUARTER: u8 = 8;

/// A bare time signature: the pair a piece is counted in.
#[derive(Debug, Clone, Copy, PartialEq, Eq, Structural)]
pub struct TimeSignature {
    pub numerator: u8,
    pub denominator: u8,
}

impl TimeSignature {
    /// Build a time signature from its two parts.
    pub fn new(numerator: u8, denominator: u8) -> (r: Result<Self, MidiError>)
        ensures
            r matches Ok(ts) && ts == (TimeSignature { numerator, denominator }),
    {
        Ok(TimeSignature { numerator, denominator })
    }
}

/// Whether a denominator can be written as a power of two up to 128, as the
/// wire format demands.
pub open spec fn spec_denominator_representable(d: u8) -> bool {
    d == 1 || d == 2 || d == 4 || d == 8 || d == 16 || d == 32 || d == 64 || d == 128
}

/// The base-two logarithm of a representable denominator.
pub open spec fn spec_denominator_log2(d: u8) -> u8
    recommends
        spec_denominator_representable(d),
{
    if d == 1 {
        0
    } else if d == 2 {
        1
    } else if d == 4 {
        2
    } else if d == 8 {
        3
    } else if d == 16 {
        4
    } else if d == 32 {
        5
    } else if d == 64 {
        6
    } else {
        7
    }
}

/// The denominator a wire byte up to 7 denotes.
pub open spec fn spec_denominator_of_log2(b: u8) -> u8
    recommends
        b <= 7,
{
    if b == 0 {
        1
    } else if b == 1 {
        2
    } else if b == 2 {
        4
    } else if b == 3 {
        8
    } else if b == 4 {
        16
    } else if b == 5 {
        32
    } else if b == 6 {
        64
    } else {
        128
    }
}

/// The Time Signature meta-event.
#[derive(Debug, Clone, PartialEq, Eq, Structural)]
pub struct TimeSignatureEvent {
    pub numerator: u8,
    pub denominator: u8,
    pub metronome_clicks: u8,
    pub num_of_32nd_notes_per_quarter: u8,
    pub event_size: u32,
    pub delta_time: u32,
    pub time_duration: u64,
}

impl TimeSignatureEvent {
    /// The on-wire encoding, delta time excluded.
    pub open spec fn wire(self) -> Seq<u8> {
        seq![
            METAEVENT_BYTE,
            TIME_SIGNATURE_TYPE,
            0x04u8,
            self.numerator,
            spec_denominator_log2(self.denominator),
            self.metronome_clicks,
            self.num_of_32nd_notes_per_quarter,
        ]
    }

    /// A representable denominator and a size that matches the wire form.
    pub open spec fn valid(self) -> bool {
        &&& spec_denominator_representable(self.denominator)
        &&& self.event_size == TIME_SIGNATURE_SIZE
        &&& self.delta_time <= 0x0FFFFFFF
    }

    /// Parse from `data`, whose first bytes must be `0xFF 0x58 0x04`.
    pub fn from_bytes(
        data: &[u8],
        delta_time: u32,
        time_division: TimeDivision,
        tempo: u32,
    ) -> (r: Result<Self, MidiError>)
        ensures
            data@.len() >= 7 && data@[2] == 0x04 && data@[4] <= 7 ==> (r matches Ok(e) && e == (
            TimeSignatureEvent {
                numerator: data@[3],
                denominator: spec_denominator_of_log2(data@[4]),
                metronome_clicks: data@[5],
                num_of_32nd_notes_per_quarter: data@[6],
                event_size: TIME_SIGNATURE_SIZE,
                delta_time,
                time_duration: spec_time_duration(delta_time, time_division, tempo) as u64,
            })),
            data@.len() < 7 ==> r == Err::<Self, MidiError>(
                MidiError::ParseError(ParseError::EndOfData),
            ),
            data@.len() >= 7 && !(data@[2] == 0x04 && data@[4] <= 7) ==> (r matches Err(e) && e
                matches MidiError::ParseError(ParseError::InvalidEventBytes(_))),
    {
        if data.len() < 7 {
            return Err(MidiError::ParseError(ParseError::EndOfData));
        }
        let time_duration = calculate_time_duration(delta_time, time_division, tempo);
        let len_byte: u8 = *vstd::slice::slice_index_get(data, 2);
        if len_byte != 0x04 {
            return Err(MidiError::ParseError(ParseError::InvalidEventBytes(String::from_str(
                "A time signature carries exactly four payload bytes",
            ))));
        }
        let numerator: u8 = *vstd::slice::slice_index_get(data, 3);
        let denominator_log2: u8 = *vstd::slice::slice_index_get(data, 4);
        let denominator: u8 = match denominator_log2 {
            0 => 1,
            1 => 2,
            2 => 4,
            3 => 8,
            4 => 16,
            5 => 32,
            6 => 64,
            7 => 128,
            _ => {
                return Err(MidiError::ParseError(ParseError::InvalidEventBytes(
                    String::from_str("A time signature denominator can be two to the seventh at most"),
                )));
            },
        };
        let metronome_clicks: u8 = *vstd::slice::slice_index_get(data, 5);
        let num_of_32nd_notes_per_quarter: u8 = *vstd::slice::slice_index_get(data, 6);
        Ok(TimeSignatureEvent {
            numerator,
            denominator,
            metronome_clicks,
            num_of_32nd_notes_per_quarter,
            event_size: TIME_SIGNATURE_SIZE,
            delta_time,
            time_duration,
        })
    }

    /// Build a time-signature event at delta time zero with the canonical
    /// defaults for the metronome fields; the denominator must be a power of
    /// two up to 128.
    pub fn new(numerator: u8, denominator: u8) -> (r: Result<Self, MidiError>)
        ensures
            spec_denominator_representable(denominator) ==> (r matches Ok(e) && e == (
            TimeSignatureEvent {
                numerator,
                denominator,
                metronome_clicks: DEFAULT_METRONOME_CLICKS,
                num_of_32nd_notes_per_quarter: DEFAULT_32ND_NOTES_PER_QUARTER,
                event_size: TIME_SIGNATURE_SIZE,
                delta_time: 0u32,
                time_duration: 0u64,
            }) && e.valid()),
            !spec_denominator_representable(denominator) ==> r == Err::<Self, MidiError>(
                MidiError::EventError(EventError::InvalidEvent),
            ),
    {
        if !(denominator == 1 || denominator == 2 || denominator == 4 || denominator == 8
            || denominator == 16 || denominator == 32 || denominator == 64 || denominator == 128) {
            return Err(MidiError::EventError(EventError::InvalidEvent));
        }
        Ok(TimeSignatureEvent {
            numerator,
            denominator,
            metronome_clicks: DEFAULT_METRONOME_CLICKS,
            num_of_32nd_notes_per_quarter: DEFAULT_32ND_NOTES_PER_QUARTER,
            event_size: TIME_SIGNATURE_SIZE,
            delta_time: 0,
            time_duration: 0,
        })
    }

    /// The denominator byte of the wire form.
    fn denominator_log2(&self) -> (r: Result<u8, MidiError>)
        ensures
            spec_denominator_representable(self.denominator) ==> r == Ok::<u8, MidiError>(
                spec_denominator_log2(self.denominator),
            ),
            !spec_denominator_representable(self.denominator) ==> r == Err::<u8, MidiError>(
                MidiError::EventError(EventError::InvalidEvent),
            ),
    {
        match self.denominator {
            1 => Ok(0),
            2 => Ok(1),
            4 => Ok(2),
            8 => Ok(3),
            16 => Ok(4),
            32 => Ok(5),
            64 => Ok(6),
            128 => Ok(7),
            _ => Err(MidiError::EventError(EventError::InvalidEvent)),
        }
    }

    /// The on-wire encoding without the leading delta time; a denominator
    /// that no wire byte can express is an invalid state.
    pub fn to_bytes(&self) -> (r: Result<Vec<u8>, MidiError>)
        ensures
            spec_denominator_representable(self.denominator) ==> (r matches Ok(v) && v@
                =~= self.wire()),
            !spec_denominator_representable(self.denominator) ==> r == Err::<Vec<u8>, MidiError>(
                MidiError::EventError(EventError::InvalidEvent),
            ),
    {
        let denominator_byte: u8 = self.denominator_log2()?;
        let bytes: Vec<u8> = vec![
            METAEVENT_BYTE,
            TIME_SIGNATURE_TYPE,
            0x04u8,
            self.numerator,
            denominator_byte,
            self.metronome_clicks,
            self.num_of_32nd_notes_per_quarter,
        ];
        Ok(bytes)
    }

    /// The on-wire encoding, prefixed by the delta time.
    pub fn to_bytes_delta_time(&self) -> (r: Result<Vec<u8>, MidiError>)
        ensures
            spec_denominator_representable(self.denominator) ==> (r matches Ok(v) && v@
                =~= spec_vlq_encode(self.delta_time as int) + self.wire()),
            !spec_denominator_representable(self.denominator) ==> r == Err::<Vec<u8>, MidiError>(
                MidiError::EventError(EventError::InvalidEvent),
            ),
    {
        let denominator_byte: u8 = self.denominator_log2()?;
        let mut bytes: Vec<u8> = from_vlq_to_bytes(self.delta_time);
        bytes.push(METAEVENT_BYTE);
        bytes.push(TIME_SIGNATURE_TYPE);
        bytes.push(0x04);
        bytes.push(self.numerator);
        bytes.push(denominator_byte);
        bytes.push(self.metronome_clicks);
        bytes.push(self.num_of_32nd_notes_per_quarter);
        Ok(bytes)
    }

    /// The name of this event kind.
    pub fn get_event_name(&self) -> (r: String)
        ensures
            r@ == "Time Signature"@,
    {
        String::from_str("Time Signature")
    }

    /// Meta-events never use running status.
    pub fn is_running_status_allowed(&self) -> (r: bool)
        ensures
            !r,
    {
        false
    }

    /// The meta-event type byte of this event kind.
    pub fn event_type(&self) -> (r: u8)
        ensures
            r == TIME_SIGNATURE_TYPE,
    {
        TIME_SIGNATURE_TYPE
    }

    /// Meta-events report channel zero.
    pub fn get_channel(&self) -> (r: u8)
        ensures
            r == 0,
    {
        0
    }

    /// The byte count of the on-wire form, delta time excluded.
    pub fn get_event_size(&self) -> (r: u32)
        ensures
            r == self.event_size,
    {
        self.event_size
    }

    /// Ticks since the previous event of the track.
    pub fn get_delta_time(&self) -> (r: u32)
        ensures
            r == self.delta_time,
    {
        self.delta_time
    }

    /// The wall-clock microseconds this event's delta time spans.
    pub fn get_time_duration(&self) -> (r: u64)
        ensures
            r == self.time_duration,
    {
        self.time_duration
    }
}

} // verus!
