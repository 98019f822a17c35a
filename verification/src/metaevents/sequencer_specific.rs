//! The Sequencer Specific meta-event: an opaque payload a sequencer vendor
//! defines for itself.

use vstd::prelude::*;

use crate::metadata::TimeDivision;
use crate::metaevents::{
    calculate_time_duration, from_bytes_to_vlq, from_vlq_to_bytes, spec_time_duration,
    spec_vlq_decode, spec_vlq_encode, METAEVENT_BYTE,
};
use crate::midi_error::{MidiError, ParseError};
use vstd::string::StringExecFns;

verus! {

/// The meta-event type byte of a sequencer-specific event.
pub const SEQUENCER_SPECIFIC_TYPE: u8 = 0x7F;

/// What parsing a sequencer-specific event after its two leading bytes
/// yields: the payload bytes, their count, and the whole event's byte count;
/// or the first error.
pub open spec fn spec_parse_sequencer_specific(data: Seq<u8>) -> Result<
    (Seq<u8>, u32, u32),
    MidiError,
> {
    if data.len() < 2 {
        Err(MidiError::ParseError(ParseError::EndOfData))
    } else {
        let body = data.skip(2);
        match spec_vlq_decode(body) {
            Err(e) => Err(e),
            Ok((data_length, n)) => {
                if body.len() < n + data_length {
                    Err(MidiError::ParseError(ParseError::EndOfData))
                } else {
                    Ok(
                        (
                            body.subrange(n as int, n + data_length),
                            data_length,
                            (2 + n + data_length) as u32,
                        ),
                    )
                }
            },
        }
    }
}

/// An opaque sequencer-defined payload, kept byte for byte.
#[derive(Debug, Clone, PartialEq)]
pub struct SequencerSpecificEvent {
    pub data: Vec<u8>,
    pub data_length: u32,
    pub event_size: u32,
    pub delta_time: u32,
    pub time_duration: u64,
}

impl SequencerSpecificEvent {
    /// The on-wire encoding, delta time excluded.
    pub open spec fn wire(self) -> Seq<u8> {
        seq![METAEVENT_BYTE, SEQUENCER_SPECIFIC_TYPE] + spec_vlq_encode(self.data_length as int)
            + self.data@
    }

    /// A recorded payload size that matches the payload, and a recorded
    /// event size that matches the wire form.
    pub open spec fn valid(self) -> bool {
        &&& self.data_length == self.data@.len()
        &&& self.data_length <= 0x0FFFFFFF
        &&& self.event_size == self.wire().len()
        &&& self.delta_time <= 0x0FFFFFFF
    }

    /// Parse from `data`, whose first two bytes must be `0xFF 0x7F`.
    pub fn from_bytes(
        data: &[u8],
        delta_time: u32,
        time_division: TimeDivision,
        tempo: u32,
    ) -> (r: Result<Self, MidiError>)
        ensures
            (match (r, spec_parse_sequencer_specific(data@)) {
                (Ok(e), Ok((payload, dl, es))) => {
                    &&& e.data@ == payload
                    &&& e.data_length == dl
                    &&& e.event_size == es
                    &&& e.delta_time == delta_time
                    &&& e.time_duration == spec_time_duration(delta_time, time_division, tempo)
                },
                (Err(e1), Err(e2)) => e1 == e2,
                _ => false,
            }),
    {
        if data.len() < 2 {
            return Err(MidiError::ParseError(ParseError::EndOfData));
        }
        let time_duration = calculate_time_duration(delta_time, time_division, tempo);
        let body: &[u8] = vstd::slice::slice_subrange(data, 2, data.len());
        let (data_length, n) = from_bytes_to_vlq(body)?;
        if (body.len() as u64) < (n as u64) + (data_length as u64) {
            return Err(MidiError::ParseError(ParseError::EndOfData));
        }
        let payload: Vec<u8> = vstd::slice::slice_to_vec(
            vstd::slice::slice_subrange(body, n as usize, n as usize + data_length as usize),
        );
        Ok(SequencerSpecificEvent {
            data: payload,
            data_length,
            event_size: 2 + n as u32 + data_length,
            delta_time,
            time_duration,
        })
    }

    /// The on-wire encoding without the leading delta time.
    pub fn to_bytes(&self) -> (r: Result<Vec<u8>, MidiError>)
        ensures
            r matches Ok(v) && v@ =~= self.wire(),
    {
        let mut bytes: Vec<u8> = vec![METAEVENT_BYTE, SEQUENCER_SPECIFIC_TYPE];
        let mut size_bytes: Vec<u8> = from_vlq_to_bytes(self.data_length);
        bytes.append(&mut size_bytes);
        let mut payload: Vec<u8> = self.data.clone();
        bytes.append(&mut payload);
        Ok(bytes)
    }

    /// The on-wire encoding, prefixed by the delta time.
    pub fn to_bytes_delta_time(&self) -> (r: Result<Vec<u8>, MidiError>)
        ensures
            r matches Ok(v) && v@ =~= spec_vlq_encode(self.delta_time as int) + self.wire(),
    {
        let mut bytes: Vec<u8> = from_vlq_to_bytes(self.delta_time);
        bytes.push(METAEVENT_BYTE);
        bytes.push(SEQUENCER_SPECIFIC_TYPE);
        let mut size_bytes: Vec<u8> = from_vlq_to_bytes(self.data_length);
        bytes.append(&mut size_bytes);
        let mut payload: Vec<u8> = self.data.clone();
        bytes.append(&mut payload);
        Ok(bytes)
    }

    /// The name of this event kind.
    pub fn get_event_name(&self) -> (r: String)
        ensures
            r@ == "Sequencer Specific"@,
    {
        String::from_str("Sequencer Specific")
    }

    /// Meta-events never use running status.
    pub fn is_running_status_allowed(&self) -> (r: bool)
        ensures
            !r,
    {
        false
    }

    /// The meta-event type byte of this event kind.
    pub fn event_type(&self) -> (r: u8)
        ensures
            r == SEQUENCER_SPECIFIC_TYPE,
    {
        SEQUENCER_SPECIFIC_TYPE
    }

    /// Meta-events report channel zero.
    pub fn get_channel(&self) -> (r: u8)
        ensures
            r == 0,
    {
        0
    }

    /// The byte count of the on-wire form, delta time excluded.
    pub fn get_event_size(&self) -> (r: u32)
        ensures
            r == self.event_size,
    {
        self.event_size
    }

    /// Ticks since the previous event of the track.
    pub fn get_delta_time(&self) -> (r: u32)
        ensures
            r == self.delta_time,
    {
        self.delta_time
    }

    /// The wall-clock microseconds this event's delta time spans.
    pub fn get_time_duration(&self) -> (r: u64)
        ensures
            r == self.time_duration,
    {
        self.time_duration
    }
}

} // verus!
