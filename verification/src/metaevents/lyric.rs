//! The Lyric meta-event.

use vstd::prelude::*;
use vstd::string::{StrSliceExecFns, StringExecFns};
use vstd::utf8::encode_utf8;

use crate::metadata::TimeDivision;
use crate::metaevents::{
    calculate_time_duration, from_vlq_to_bytes, parse_text_meta, spec_parse_text_meta,
    spec_time_duration, spec_vlq_encode, METAEVENT_BYTE,
};
use crate::midi_error::MidiError;

verus! {

/// The meta-event type byte of a lyric event.
pub const LYRIC_TYPE: u8 = 0x05;

/// A syllable of the lyrics, timed to its note.
#[derive(Debug, Clone, PartialEq)]
pub struct LyricEvent {
    pub lyric: String,
    pub text_size: u32,
    pub event_size: u32,
    pub delta_time: u32,
    pub time_duration: u64,
}

impl LyricEvent {
    /// The on-wire encoding, delta time excluded: the meta status byte, the
    /// type byte, the payload size, and the UTF-8 bytes of the text.
    pub open spec fn wire(self) -> Seq<u8> {
        seq![METAEVENT_BYTE, LYRIC_TYPE] + spec_vlq_encode(self.text_size as int)
            + encode_utf8(self.lyric@)
    }

    /// A recorded payload size that matches the text, and a recorded event
    /// size that matches the wire form.
    pub open spec fn valid(self) -> bool {
        &&& self.text_size == encode_utf8(self.lyric@).len()
        &&& self.text_size <= 0x0FFFFFFF
        &&& self.event_size == self.wire().len()
        &&& self.delta_time <= 0x0FFFFFFF
    }

    /// Parse from `data`, whose first two bytes must be `0xFF 0x05`.
    pub fn from_bytes(
        data: &[u8],
        delta_time: u32,
        time_division: TimeDivision,
        tempo: u32,
    ) -> (r: Result<Self, MidiError>)
        ensures
            (match (r, spec_parse_text_meta(data@)) {
                (Ok(e), Ok((cs, ts, es))) => {
                    &&& e.lyric@ == cs
                    &&& e.text_size == ts
                    &&& e.event_size == es
                    &&& e.delta_time == delta_time
                    &&& e.time_duration == spec_time_duration(delta_time, time_division, tempo)
                },
                (Err(e1), Err(e2)) => e1 == e2,
                _ => false,
            }),
    {
        let time_duration = calculate_time_duration(delta_time, time_division, tempo);
        let (lyric, text_size, event_size) = parse_text_meta(data)?;
        Ok(LyricEvent { lyric, text_size, event_size, delta_time, time_duration })
    }

    /// The on-wire encoding without the leading delta time.
    pub fn to_bytes(&self) -> (r: Result<Vec<u8>, MidiError>)
        ensures
            r matches Ok(v) && v@ =~= self.wire(),
    {
        let mut bytes: Vec<u8> = vec![METAEVENT_BYTE, LYRIC_TYPE];
        let mut size_bytes: Vec<u8> = from_vlq_to_bytes(self.text_size);
        bytes.append(&mut size_bytes);
        let mut text_bytes: Vec<u8> = self.lyric.as_str().as_bytes_vec();
        bytes.append(&mut text_bytes);
        Ok(bytes)
    }

    /// The on-wire encoding, prefixed by the delta time.
    pub fn to_bytes_delta_time(&self) -> (r: Result<Vec<u8>, MidiError>)
        ensures
            r matches Ok(v) && v@ =~= spec_vlq_encode(self.delta_time as int) + self.wire(),
    {
        let mut bytes: Vec<u8> = from_vlq_to_bytes(self.delta_time);
        bytes.push(METAEVENT_BYTE);
        bytes.push(LYRIC_TYPE);
        let mut size_bytes: Vec<u8> = from_vlq_to_bytes(self.text_size);
        bytes.append(&mut size_bytes);
        let mut text_bytes: Vec<u8> = self.lyric.as_str().as_bytes_vec();
        bytes.append(&mut text_bytes);
        Ok(bytes)
    }

    /// The byte count of the text payload.
    pub fn get_text_size(&self) -> (r: u32)
        ensures
            r == self.text_size,
    {
        self.text_size
    }

    /// The name of this event kind.
    pub fn get_event_name(&self) -> (r: String)
        ensures
            r@ == "Lyric"@,
    {
        String::from_str("Lyric")
    }

    /// Meta-events never use running status.
    pub fn is_running_status_allowed(&self) -> (r: bool)
        ensures
            !r,
    {
        false
    }

    /// The meta-event type byte of this event kind.
    pub fn event_type(&self) -> (r: u8)
        ensures
            r == LYRIC_TYPE,
    {
        LYRIC_TYPE
    }

    /// Meta-events report channel zero.
    pub fn get_channel(&self) -> (r: u8)
        ensures
            r == 0,
    {
        0
    }

    /// The byte count of the on-wire form, delta time excluded.
    pub fn get_event_size(&self) -> (r: u32)
        ensures
            r == self.event_size,
    {
        self.event_size
    }

    /// Ticks since the previous event of the track.
    pub fn get_delta_time(&self) -> (r: u32)
        ensures
            r == self.delta_time,
    {
        self.delta_time
    }

    /// The wall-clock microseconds this event's delta time spans.
    pub fn get_time_duration(&self) -> (r: u64)
        ensures
            r == self.time_duration,
    {
        self.time_duration
    }
}

} // verus!
