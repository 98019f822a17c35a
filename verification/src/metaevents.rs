//! Shared event machinery: the variable-length-quantity codec, UTF-8 text
//! decoding, and the tick-to-microsecond time model.

use vstd::prelude::*;
use vstd::string::StringExecFns;
use vstd::utf8::{decode_utf8, valid_utf8};

use crate::metadata::TimeDivision;
use crate::midi_error::{EventError, MidiError, ParseError};

pub mod copyright_notice;
pub mod cue_point;
pub mod end_of_track;
pub mod instrument_name;
pub mod key_signature;
pub mod lyric;
pub mod marker;
pub mod midi_channel_prefix;
pub mod midi_port;
pub mod sequence_number;
pub mod sequencer_specific;
pub mod set_tempo;
pub mod smpte_offset;
pub mod text;
pub mod time_signature;
pub mod track_name;

pub use copyright_notice::CopyRightNoticeEvent;
pub use cue_point::CuePointEvent;
pub use end_of_track::EndOfTrack;
pub use instrument_name::InstrumentNameEvent;
pub use key_signature::{Accidentals, Key, KeySignature, KeySignatureEvent, Mode};
pub use lyric::LyricEvent;
pub use marker::MarkerEvent;
pub use midi_channel_prefix::MidiChannelPrefixEvent;
pub use midi_port::MidiPortEvent;
pub use sequence_number::SequenceNumber;
pub use sequencer_specific::SequencerSpecificEvent;
pub use set_tempo::SetTempoEvent;
pub use smpte_offset::SMPTEOffsetEvent;
pub use text::TextEvent;
pub use time_signature::{TimeSignature, TimeSignatureEvent};
pub use track_name::TrackNameEvent;

verus! {

/// The status byte that introduces every meta-event.
pub const METAEVENT_BYTE: u8 = 0xFF;

/// The tempo in force before any set-tempo event: 500000 microseconds per
/// quarter note, i.e. 120 beats per minute.
pub const DEFAULT_TEMPO: u32 = 500000;

/// The canonical big-endian variable-length encoding of `v`: 7-bit groups,
/// most significant first, with the high bit set on every byte but the last.
pub open spec fn spec_vlq_encode(v: int) -> Seq<u8> {
    if v < 0x80 {
        seq![v as u8]
    } else if v < 0x4000 {
        seq![(0x80 + v / 0x80) as u8, (v % 0x80) as u8]
    } else if v < 0x200000 {
        seq![
            (0x80 + v / 0x4000) as u8,
            (0x80 + (v / 0x80) % 0x80) as u8,
            (v % 0x80) as u8,
        ]
    } else if v < 0x10000000 {
        seq![
            (0x80 + v / 0x200000) as u8,
            (0x80 + (v / 0x4000) % 0x80) as u8,
            (0x80 + (v / 0x80) % 0x80) as u8,
            (v % 0x80) as u8,
        ]
    } else {
        seq![
            (0x80 + v / 0x10000000) as u8,
            (0x80 + (v / 0x200000) % 0x80) as u8,
            (0x80 + (v / 0x4000) % 0x80) as u8,
            (0x80 + (v / 0x80) % 0x80) as u8,
            (v % 0x80) as u8,
        ]
    }
}

/// How many bytes the variable-length quantity at the front of `data` spans:
/// 0 when the data ends before the quantity does, 5 when a fifth byte would
/// be needed, and the byte count otherwise.
pub open spec fn spec_vlq_len(data: Seq<u8>) -> int {
    if data.len() >= 1 && data[0] < 0x80 {
        1
    } else if data.len() >= 2 && data[1] < 0x80 {
        2
    } else if data.len() >= 3 && data[2] < 0x80 {
        3
    } else if data.len() >= 4 && data[3] < 0x80 {
        4
    } else if data.len() >= 4 {
        5
    } else {
        0
    }
}

/// The value of the variable-length quantity at the front of `data`, read
/// big-endian from the low 7 bits of each of its bytes.
pub open spec fn spec_vlq_value(data: Seq<u8>) -> int
    recommends
        1 <= spec_vlq_len(data) <= 4,
{
    let n = spec_vlq_len(data);
    if n == 1 {
        (data[0] & 0x7F) as int
    } else if n == 2 {
        (data[0] & 0x7F) * 0x80 + (data[1] & 0x7F)
    } else if n == 3 {
        (data[0] & 0x7F) * 0x4000 + (data[1] & 0x7F) * 0x80 + (data[2] & 0x7F)
    } else {
        (data[0] & 0x7F) * 0x200000 + (data[1] & 0x7F) * 0x4000 + (data[2] & 0x7F) * 0x80 + (
        data[3] & 0x7F)
    }
}

/// What decoding the variable-length quantity at the front of `data` yields:
/// its value and byte count, or the error for a truncated or overlong one.
pub open spec fn spec_vlq_decode(data: Seq<u8>) -> Result<(u32, u8), MidiError> {
    let n = spec_vlq_len(data);
    if 1 <= n <= 4 {
        Ok((spec_vlq_value(data) as u32, n as u8))
    } else if n == 5 {
        Err(MidiError::ParseError(ParseError::InvalidVlq))
    } else {
        Err(MidiError::ParseError(ParseError::EndOfData))
    }
}

/// Converts a delta time in ticks to the variable-length quantity format
/// used in MIDI: canonical, with no leading zero groups.
pub fn from_vlq_to_bytes(delta_time: u32) -> (r: Vec<u8>)
    ensures
        r@ =~= spec_vlq_encode(delta_time as int),
        1 <= r@.len() <= 5,
{
    let mut bytes: Vec<u8> = Vec::new();
    if delta_time < 0x80 {
        bytes.push(delta_time as u8);
    } else if delta_time < 0x4000 {
        bytes.push((0x80 + delta_time / 0x80) as u8);
        bytes.push((delta_time % 0x80) as u8);
    } else if delta_time < 0x200000 {
        bytes.push((0x80 + delta_time / 0x4000) as u8);
        bytes.push((0x80 + (delta_time / 0x80) % 0x80) as u8);
        bytes.push((delta_time % 0x80) as u8);
    } else if delta_time < 0x10000000 {
        bytes.push((0x80 + delta_time / 0x200000) as u8);
        bytes.push((0x80 + (delta_time / 0x4000) % 0x80) as u8);
        bytes.push((0x80 + (delta_time / 0x80) % 0x80) as u8);
        bytes.push((delta_time % 0x80) as u8);
    } else {
        bytes.push((0x80 + delta_time / 0x10000000) as u8);
        bytes.push((0x80 + (delta_time / 0x200000) % 0x80) as u8);
        bytes.push((0x80 + (delta_time / 0x4000) % 0x80) as u8);
        bytes.push((0x80 + (delta_time / 0x80) % 0x80) as u8);
        bytes.push((delta_time % 0x80) as u8);
    }
    bytes
}

/// Decode the variable-length quantity at the front of `track_data`,
/// reporting its value and how many bytes it spans.
pub fn from_bytes_to_vlq(track_data: &[u8]) -> (r: Result<(u32, u8), MidiError>)
    ensures
        r == spec_vlq_decode(track_data@),
        r matches Ok(p) ==> p.0 <= 0x0FFFFFFF && 1 <= p.1 <= 4,
{
    let len: usize = track_data.len();
    if len < 1 {
        return Err(MidiError::ParseError(ParseError::EndOfData));
    }
    let b0: u8 = *vstd::slice::slice_index_get(track_data, 0);
    if b0 < 0x80 {
        return Ok(((b0 & 0x7F) as u32, 1));
    }
    if len < 2 {
        return Err(MidiError::ParseError(ParseError::EndOfData));
    }
    let b1: u8 = *vstd::slice::slice_index_get(track_data, 1);
    if b1 < 0x80 {
        return Ok((((b0 & 0x7F) as u32) * 0x80 + ((b1 & 0x7F) as u32), 2));
    }
    if len < 3 {
        return Err(MidiError::ParseError(ParseError::EndOfData));
    }
    let b2: u8 = *vstd::slice::slice_index_get(track_data, 2);
    if b2 < 0x80 {
        return Ok(
            (((b0 & 0x7F) as u32) * 0x4000 + ((b1 & 0x7F) as u32) * 0x80 + ((b2 & 0x7F) as u32), 3),
        );
    }
    if len < 4 {
        return Err(MidiError::ParseError(ParseError::EndOfData));
    }
    let b3: u8 = *vstd::slice::slice_index_get(track_data, 3);
    if b3 < 0x80 {
        proof {
            assert(b0 & 0x7F < 0x80) by (bit_vector);
            assert(b1 & 0x7F < 0x80) by (bit_vector);
            assert(b2 & 0x7F < 0x80) by (bit_vector);
            assert(b3 & 0x7F < 0x80) by (bit_vector);
        }
        return Ok(
            (
                ((b0 & 0x7F) as u32) * 0x200000 + ((b1 & 0x7F) as u32) * 0x4000 + ((b2
                    & 0x7F) as u32) * 0x80 + ((b3 & 0x7F) as u32),
                4,
            ),
        );
    }
    // A fifth continuation byte would be required
    Err(MidiError::ParseError(ParseError::InvalidVlq))
}

/// The low seven bits of a byte: the byte itself below 0x80, and the byte
/// less 0x80 otherwise.
proof fn lemma_mask7(e: u8)
    by (bit_vector)
    ensures
        e >= 0x80 ==> e & 0x7F == e - 0x80,
        e < 0x80 ==> e & 0x7F == e,
{
}

/// The value of a decodable variable-length quantity fits in 28 bits.
pub proof fn lemma_vlq_value_bound(data: Seq<u8>)
    ensures
        1 <= spec_vlq_len(data) <= 4 ==> 0 <= spec_vlq_value(data) < 0x10000000,
{
    if 1 <= spec_vlq_len(data) <= 4 {
        if data.len() >= 1 {
            lemma_mask7(data[0]);
        }
        if data.len() >= 2 {
            lemma_mask7(data[1]);
        }
        if data.len() >= 3 {
            lemma_mask7(data[2]);
        }
        if data.len() >= 4 {
            lemma_mask7(data[3]);
        }
    }
}

/// The variable-length codec round-trips: decoding the canonical encoding of
/// any value up to 0x0FFFFFFF gives the value back, spanning one to four
/// bytes, whatever bytes follow it; and zero encodes as the single byte 0x00.
pub proof fn lemma_vlq_round_trip(v: u32, rest: Seq<u8>)
    requires
        v <= 0x0FFFFFFF,
    ensures
        ({
            let enc = spec_vlq_encode(v as int);
            &&& 1 <= enc.len() <= 4
            &&& spec_vlq_decode(enc + rest) == Ok::<(u32, u8), MidiError>((v, enc.len() as u8))
            &&& spec_vlq_decode(enc) == Ok::<(u32, u8), MidiError>((v, enc.len() as u8))
            &&& (v == 0 ==> enc =~= seq![0u8])
        }),
{
    let enc = spec_vlq_encode(v as int);
    let data = enc + rest;
    assert(forall|i: int| 0 <= i < enc.len() ==> data[i] == enc[i]);
    if v < 0x80 {
        lemma_mask7(v as u8);
        assert(spec_vlq_value(enc) == v);
        assert(spec_vlq_value(data) == v);
    } else if v < 0x4000 {
        let b0 = (0x80 + v / 0x80) as u8;
        let b1 = (v % 0x80) as u8;
        lemma_mask7(b0);
        lemma_mask7(b1);
        assert(spec_vlq_value(enc) == v);
        assert(spec_vlq_value(data) == v);
    } else if v < 0x200000 {
        let b0 = (0x80 + v / 0x4000) as u8;
        let b1 = (0x80 + (v / 0x80) % 0x80) as u8;
        let b2 = (v % 0x80) as u8;
        lemma_mask7(b0);
        lemma_mask7(b1);
        lemma_mask7(b2);
        assert(v / 0x4000 * 0x4000 + (v / 0x80) % 0x80 * 0x80 + v % 0x80 == v) by (nonlinear_arith);
        assert(spec_vlq_value(enc) == v);
        assert(spec_vlq_value(data) == v);
    } else {
        let b0 = (0x80 + v / 0x200000) as u8;
        let b1 = (0x80 + (v / 0x4000) % 0x80) as u8;
        let b2 = (0x80 + (v / 0x80) % 0x80) as u8;
        let b3 = (v % 0x80) as u8;
        lemma_mask7(b0);
        lemma_mask7(b1);
        lemma_mask7(b2);
        lemma_mask7(b3);
        assert(v / 0x200000 * 0x200000 + (v / 0x4000) % 0x80 * 0x4000 + (v / 0x80) % 0x80 * 0x80 + v
            % 0x80 == v) by (nonlinear_arith);
        assert(spec_vlq_value(enc) == v);
        assert(spec_vlq_value(data) == v);
    }
}

/// Decode `data` as UTF-8 text; malformed UTF-8 is an encoding error.
pub fn get_utf8_from_bytes(data: &[u8]) -> (r: Result<String, MidiError>)
    ensures
        valid_utf8(data@) ==> (r matches Ok(s) && s@ == decode_utf8(data@)),
        !valid_utf8(data@) ==> r == Err::<String, MidiError>(
            MidiError::EventError(EventError::InvalidEncoding),
        ),
{
    match utf8_from_bytes(data) {
        Some(s) => Ok(s),
        None => Err(MidiError::EventError(EventError::InvalidEncoding)),
    }
}

/// Relies on core::str::from_utf8: it accepts exactly the byte sequences
/// that are valid UTF-8, and the characters of the returned slice are their
/// decoding.
#[verifier::external_body]
fn utf8_from_bytes(data: &[u8]) -> (r: Option<String>)
    ensures
        (match r {
            Some(s) => valid_utf8(data@) && s@ == decode_utf8(data@),
            None => !valid_utf8(data@),
        }),
{
    match core::str::from_utf8(data) {
        Ok(s) => Some(s.to_string()),
        Err(_) => None,
    }
}

/// What parsing a text-bearing meta-event after its two leading bytes
/// yields: the decoded characters, the payload byte count, and the whole
/// event's byte count including the two leading bytes; or the first error.
pub open spec fn spec_parse_text_meta(data: Seq<u8>) -> Result<(Seq<char>, u32, u32), MidiError> {
    if data.len() < 2 {
        Err(MidiError::ParseError(ParseError::EndOfData))
    } else {
        let body = data.skip(2);
        match spec_vlq_decode(body) {
            Err(e) => Err(e),
            Ok((text_size, n)) => {
                if body.len() < n + text_size {
                    Err(MidiError::ParseError(ParseError::EndOfData))
                } else {
                    let payload = body.subrange(n as int, n + text_size);
                    if valid_utf8(payload) {
                        Ok((decode_utf8(payload), text_size, (2 + n + text_size) as u32))
                    } else {
                        Err(MidiError::EventError(EventError::InvalidEncoding))
                    }
                }
            },
        }
    }
}

/// Parse a text-bearing meta-event from `data`, whose first two bytes are
/// `0xFF` and the type byte: a variable-length payload size, then that many
/// bytes of UTF-8 text. Reports the text, the payload size, and the whole
/// event's byte count.
pub fn parse_text_meta(data: &[u8]) -> (r: Result<(String, u32, u32), MidiError>)
    ensures
        (match (r, spec_parse_text_meta(data@)) {
            (Ok((s, ts, es)), Ok((cs, ts2, es2))) => s@ == cs && ts == ts2 && es == es2,
            (Err(e1), Err(e2)) => e1 == e2,
            _ => false,
        }),
{
    if data.len() < 2 {
        return Err(MidiError::ParseError(ParseError::EndOfData));
    }
    let body: &[u8] = vstd::slice::slice_subrange(data, 2, data.len());
    let (text_size, n) = from_bytes_to_vlq(body)?;
    if (body.len() as u64) < (n as u64) + (text_size as u64) {
        return Err(MidiError::ParseError(ParseError::EndOfData));
    }
    let payload: &[u8] = vstd::slice::slice_subrange(
        body,
        n as usize,
        n as usize + text_size as usize,
    );
    let text: String = get_utf8_from_bytes(payload)?;
    Ok((text, text_size, 2 + n as u32 + text_size))
}

/// Ticks per quarter note under `time_division`: the pulse count itself, or
/// frames per second times ticks per frame divided by four.
pub open spec fn spec_ticks_per_quarter(time_division: TimeDivision) -> int {
    match time_division {
        TimeDivision::PulsesPerQuarterNote(pulses) => pulses as int,
        TimeDivision::SMPTE(fps, ticks_per_frame) => (fps * ticks_per_frame) / 4,
    }
}

/// The wall-clock microseconds that `delta_time` ticks span at `tempo`
/// microseconds per quarter note, or zero under a division with no ticks.
pub open spec fn spec_time_duration(delta_time: u32, time_division: TimeDivision, tempo: u32) -> int {
    if spec_ticks_per_quarter(time_division) == 0 {
        0
    } else {
        (delta_time * tempo) / spec_ticks_per_quarter(time_division)
    }
}

/// Calculates the wall-clock duration of `delta_time` ticks, in microseconds,
/// from the time division and the tempo in microseconds per quarter note.
pub fn calculate_time_duration(delta_time: u32, time_division: TimeDivision, tempo: u32) -> (r: u64)
    ensures
        r == spec_time_duration(delta_time, time_division, tempo),
{
    let ticks_per_quarter_note: u32 = match time_division {
        TimeDivision::PulsesPerQuarterNote(pulses) => pulses as u32,
        TimeDivision::SMPTE(fps, ticks_per_frame) => {
            proof {
                assert((fps as u32) * (ticks_per_frame as u32) <= 0xFFFF) by (nonlinear_arith)
                    requires
                        fps <= 0xFF,
                        ticks_per_frame <= 0xFF,
                ;
            }
            (fps as u32) * (ticks_per_frame as u32) / 4
        },
    };
    if ticks_per_quarter_note == 0 {
        0
    } else {
        proof {
            assert((delta_time as u64) * (tempo as u64) <= 0xFFFFFFFFFFFFFFFF) by (nonlinear_arith)
                requires
                    delta_time <= 0xFFFFFFFF,
                    tempo <= 0xFFFFFFFF,
            ;
        }
        (delta_time as u64) * (tempo as u64) / (ticks_per_quarter_note as u64)
    }
}

} // verus!
