//! The track tokenizer: one `MTrk` chunk in, an ordered event sequence out,
//! with running-status recovery; and the inverse, a byte-exact serializer.

use vstd::prelude::*;
use vstd::string::StringExecFns;

use crate::bytereader::spec_u32_be;
use crate::events::SerializableEvent;
use crate::messages::channel_pressure::{ChannelPressureEvent, CHANNEL_PRESSURE_TYPE};
use crate::messages::control_change::{ControlChangeEvent, CONTROL_CHANGE_TYPE};
use crate::messages::note_off::{NoteOffEvent, NOTE_OFF_TYPE};
use crate::messages::note_on::{NoteOnEvent, NOTE_ON_TYPE};
use crate::messages::pitch_bend_change::{PitchBendChangeEvent, PITCH_BEND_CHANGE_TYPE};
use crate::messages::polyphonic_key_pressure::{
    PolyphonicKeyPressureEvent, POLYPHONIC_KEY_PRESSURE_TYPE,
};
use crate::messages::program_change::{ProgramChangeEvent, PROGRAM_CHANGE_TYPE};
use crate::messages::{lemma_channel_mask, CHANNEL_MASK, EVENT_MASK};
use crate::metadata::TimeDivision;
use crate::metaevents::copyright_notice::CopyRightNoticeEvent;
use crate::metaevents::cue_point::CuePointEvent;
use crate::metaevents::end_of_track::EndOfTrack;
use crate::metaevents::instrument_name::InstrumentNameEvent;
use crate::metaevents::key_signature::{spec_signed_byte, KeySignatureEvent};
use crate::metaevents::lyric::LyricEvent;
use crate::metaevents::marker::MarkerEvent;
use crate::metaevents::midi_channel_prefix::MidiChannelPrefixEvent;
use crate::metaevents::midi_port::MidiPortEvent;
use crate::metaevents::sequence_number::SequenceNumber;
use crate::metaevents::sequencer_specific::{
    spec_parse_sequencer_specific, SequencerSpecificEvent,
};
use crate::metaevents::set_tempo::SetTempoEvent;
use crate::metaevents::smpte_offset::SMPTEOffsetEvent;
use crate::metaevents::spec_parse_text_meta;
use crate::metaevents::text::TextEvent;
use crate::metaevents::time_signature::{spec_denominator_of_log2, TimeSignatureEvent};
use crate::metaevents::track_name::TrackNameEvent;
use crate::metaevents::{
    from_bytes_to_vlq, spec_time_duration, spec_vlq_decode, spec_vlq_encode, DEFAULT_TEMPO,
};
use crate::midi_error::{EventError, MidiError, ParseError};

verus! {

/// The `MTrk` magic, `M T r k`, as a big-endian u32.
pub const TRACK_HEADER_BYTES: u32 = 0x4D54726B;

/// The running-status state of the tokenizer: the status nibble and channel
/// of the last explicit channel voice event, if one is held.
pub type RunningStatus = Option<(u8, u8)>;

/// The payload byte count of a channel voice kind: one byte for program
/// change and channel pressure, two for the rest.
pub open spec fn spec_voice_data_size(hi: u8) -> int {
    if hi == PROGRAM_CHANGE_TYPE || hi == CHANNEL_PRESSURE_TYPE {
        1
    } else {
        2
    }
}

/// How many bytes the channel voice event at the front of `data` spans,
/// status byte included, or `None` where it is unknown, truncated, or a data
/// byte has its high bit set.
pub open spec fn spec_parse_voice_ok(data: Seq<u8>) -> Option<int>
    recommends
        data.len() >= 1,
        0x80 <= data[0],
        data[0] != 0xFF,
{
    let hi = data[0] & EVENT_MASK;
    if hi == 0xF0 {
        None
    } else {
        let size = 1 + spec_voice_data_size(hi);
        if data.len() >= size && data[1] < 0x80 && (size == 2 || data[2] < 0x80) {
            Some(size)
        } else {
            None
        }
    }
}

/// How many data bytes the running-status event at the front of `data`
/// spans under held status nibble `hi`, or `None` where it is truncated or a
/// data byte has its high bit set.
pub open spec fn spec_parse_running_ok(data: Seq<u8>, hi: u8) -> Option<int>
    recommends
        data.len() >= 1,
        data[0] < 0x80,
{
    let size = spec_voice_data_size(hi);
    if data.len() >= size && data[0] < 0x80 && (size == 1 || data[1] < 0x80) {
        Some(size)
    } else {
        None
    }
}

/// How many bytes the meta-event at the front of `data` spans, the leading
/// `0xFF` and type byte included, or `None` where its framing is wrong or
/// its type byte unknown.
pub open spec fn spec_parse_meta_ok(data: Seq<u8>) -> Option<int>
    recommends
        data.len() >= 1,
        data[0] == 0xFF,
{
    if data.len() < 2 {
        None
    } else {
        let t = data[1];
        if t == 0x00 {
            if data.len() >= 5 && data[2] == 0x02 {
                Some(5)
            } else {
                None
            }
        } else if 0x01 <= t <= 0x07 {
            match spec_parse_text_meta(data) {
                Ok((cs, ts, es)) => Some(es as int),
                Err(_) => None,
            }
        } else if t == 0x20 || t == 0x21 {
            if data.len() >= 4 && data[2] == 0x01 {
                Some(4)
            } else {
                None
            }
        } else if t == 0x2F {
            if data.len() >= 3 && data[2] == 0x00 {
                Some(3)
            } else {
                None
            }
        } else if t == 0x51 {
            if data.len() >= 6 && data[2] == 0x03 {
                Some(6)
            } else {
                None
            }
        } else if t == 0x54 {
            if data.len() >= 8 && data[2] == 0x05 {
                Some(8)
            } else {
                None
            }
        } else if t == 0x58 {
            if data.len() >= 7 && data[2] == 0x04 && data[4] <= 7 {
                Some(7)
            } else {
                None
            }
        } else if t == 0x59 {
            if data.len() >= 5 && data[2] == 0x02 && -7 <= spec_signed_byte(data[3]) <= 7
                && data[4] <= 1 {
                Some(5)
            } else {
                None
            }
        } else if t == 0x7F {
            match spec_parse_sequencer_specific(data) {
                Ok((p, dl, es)) => Some(es as int),
                Err(_) => None,
            }
        } else {
            None
        }
    }
}

/// How many bytes the event at the front of `data` spans under running
/// status `rs`, after its delta time, or `None` where no event parses there.
pub open spec fn spec_parse_event_ok(data: Seq<u8>, rs: RunningStatus) -> Option<int> {
    if data.len() == 0 {
        None
    } else {
        let b = data[0];
        if b == 0xFF {
            spec_parse_meta_ok(data)
        } else if b >= 0x80 {
            spec_parse_voice_ok(data)
        } else {
            match rs {
                None => None,
                Some((hi, ch)) => spec_parse_running_ok(data, hi),
            }
        }
    }
}

/// The meta-event type bytes this library knows.
pub open spec fn spec_known_meta_type(t: u8) -> bool {
    t == 0x00 || 0x01 <= t <= 0x07 || t == 0x20 || t == 0x21 || t == 0x2F || t == 0x51 || t
        == 0x54 || t == 0x58 || t == 0x59 || t == 0x7F
}

/// Whether the stream's first failure is a data byte standing where a
/// status byte is expected while no running status is held.
pub open spec fn spec_stops_at_missing_status(data: Seq<u8>, rs: RunningStatus) -> bool
    decreases data.len(),
{
    if data.len() == 0 {
        false
    } else {
        match spec_vlq_decode(data) {
            Err(_) => false,
            Ok((delta, n)) => {
                if n < 1 {
                    false
                } else {
                    let rest = data.skip(n as int);
                    if rest.len() >= 1 && rest[0] < 0x80 && rs is None {
                        true
                    } else {
                        match spec_parse_event_ok(rest, rs) {
                            None => false,
                            Some(consumed) => {
                                if consumed < 1 {
                                    false
                                } else if rest.len() >= 2 && rest[0] == 0xFF && rest[1] == 0x2F {
                                    false
                                } else {
                                    spec_stops_at_missing_status(
                                        rest.skip(consumed),
                                        spec_next_running_status(rest, rs),
                                    )
                                }
                            },
                        }
                    }
                }
            },
        }
    }
}

/// Whether the first chunk of `data` that fails to parse fails on its
/// `MTrk` magic bytes.
pub open spec fn spec_tracks_stop_at_bad_magic(data: Seq<u8>) -> bool
    decreases data.len(),
{
    if data.len() < 8 {
        false
    } else if !(data[0] == 0x4D && data[1] == 0x54 && data[2] == 0x72 && data[3] == 0x6B) {
        true
    } else if !(data.len() >= 8 + spec_track_declared_size(data) && spec_parse_events_ok(
        spec_track_body(data),
        None,
    )) {
        false
    } else {
        spec_tracks_stop_at_bad_magic(data.skip(8 + spec_track_declared_size(data)))
    }
}

/// The running status after the event at the front of `data`: a meta-event
/// clears it, an explicit status byte replaces it, and a running-status
/// event keeps it.
pub open spec fn spec_next_running_status(data: Seq<u8>, rs: RunningStatus) -> RunningStatus
    recommends
        data.len() >= 1,
{
    let b = data[0];
    if b == 0xFF {
        None
    } else if b >= 0x80 {
        Some((b & EVENT_MASK, b & CHANNEL_MASK))
    } else {
        rs
    }
}

/// The tempo after the event at the front of `data`: a set-tempo event
/// carries the new microseconds per quarter note, any other keeps the old.
pub open spec fn spec_next_tempo(data: Seq<u8>, tempo: u32) -> u32 {
    if data.len() >= 6 && data[0] == 0xFF && data[1] == 0x51 && data[2] == 0x03 {
        (data[3] * 0x10000 + data[4] * 0x100 + data[5]) as u32
    } else {
        tempo
    }
}

/// The duration an event at `delta_time` records, as stored in its field.
pub open spec fn spec_event_duration(delta_time: u32, division: TimeDivision, tempo: u32) -> u64 {
    spec_time_duration(delta_time, division, tempo) as u64
}

/// That `e` is exactly the event denoted by the front of `data` under
/// running status `rs`, carrying `delta_time` and a duration computed from
/// `division` and `tempo`. Text payloads are compared as character
/// sequences.
pub open spec fn spec_event_parses_to(
    data: Seq<u8>,
    delta_time: u32,
    division: TimeDivision,
    tempo: u32,
    rs: RunningStatus,
    e: SerializableEvent,
) -> bool
    recommends
        data.len() >= 1,
{
    let dur = spec_event_duration(delta_time, division, tempo);
    let b = data[0];
    if b == 0xFF {
        spec_meta_parses_to(data, delta_time, dur, e)
    } else if b >= 0x80 {
        spec_voice_parses_to(
            data.skip(1),
            b & EVENT_MASK,
            b & CHANNEL_MASK,
            delta_time,
            dur,
            e,
        )
    } else {
        match rs {
            None => false,
            Some((hi, ch)) => spec_voice_parses_to(data, hi, ch, delta_time, dur, e),
        }
    }
}

/// That `e` is the channel voice event with status nibble `hi` and channel
/// `ch` whose data bytes stand at the front of `data`.
pub open spec fn spec_voice_parses_to(
    data: Seq<u8>,
    hi: u8,
    ch: u8,
    delta_time: u32,
    dur: u64,
    e: SerializableEvent,
) -> bool {
    if hi == NOTE_ON_TYPE {
        e == SerializableEvent::NoteOn(
            NoteOnEvent {
                midi_note: data[0],
                velocity: data[1],
                channel: ch,
                event_size: 3u32,
                delta_time,
                time_duration: dur,
            },
        )
    } else if hi == NOTE_OFF_TYPE {
        e == SerializableEvent::NoteOff(
            NoteOffEvent {
                midi_note: data[0],
                velocity: data[1],
                channel: ch,
                event_size: 3u32,
                delta_time,
                time_duration: dur,
            },
        )
    } else if hi == POLYPHONIC_KEY_PRESSURE_TYPE {
        e == SerializableEvent::PolyphonicKeyPressure(
            PolyphonicKeyPressureEvent {
                midi_note: data[0],
                control_pressure: data[1],
                channel: ch,
                event_size: 3u32,
                delta_time,
                time_duration: dur,
            },
        )
    } else if hi == CONTROL_CHANGE_TYPE {
        e == SerializableEvent::ControlChange(
            ControlChangeEvent {
                control: data[0],
                control_value: data[1],
                channel: ch,
                event_size: 3u32,
                delta_time,
                time_duration: dur,
            },
        )
    } else if hi == PROGRAM_CHANGE_TYPE {
        e == SerializableEvent::ProgramChange(
            ProgramChangeEvent {
                program: data[0],
                channel: ch,
                event_size: 2u32,
                delta_time,
                time_duration: dur,
            },
        )
    } else if hi == CHANNEL_PRESSURE_TYPE {
        e == SerializableEvent::ChannelPressure(
            ChannelPressureEvent {
                pressure_value: data[0],
                channel: ch,
                event_size: 2u32,
                delta_time,
                time_duration: dur,
            },
        )
    } else if hi == PITCH_BEND_CHANGE_TYPE {
        e == SerializableEvent::PitchBendChange(
            PitchBendChangeEvent {
                pitch_bend_lsb: data[0],
                pitch_bend_msb: data[1],
                channel: ch,
                event_size: 3u32,
                delta_time,
                time_duration: dur,
            },
        )
    } else {
        false
    }
}

/// That `e` is the meta-event standing at the front of `data`.
pub open spec fn spec_meta_parses_to(
    data: Seq<u8>,
    delta_time: u32,
    dur: u64,
    e: SerializableEvent,
) -> bool
    recommends
        data.len() >= 2,
        data[0] == 0xFF,
{
    let t = data[1];
    if t == 0x00 {
        e == SerializableEvent::SequenceNumber(
            SequenceNumber {
                sequence_number: (data[3] * 0x100 + data[4]) as u16,
                event_size: 5u32,
                delta_time,
                time_duration: dur,
            },
        )
    } else if 0x01 <= t <= 0x07 {
        spec_text_parses_to(data, delta_time, dur, e)
    } else if t == 0x20 {
        e == SerializableEvent::MidiChannelPrefix(
            MidiChannelPrefixEvent {
                midi_channel: data[3],
                event_size: 4u32,
                delta_time,
                time_duration: dur,
            },
        )
    } else if t == 0x21 {
        e == SerializableEvent::MidiPort(
            MidiPortEvent { midi_port: data[3], event_size: 4u32, delta_time, time_duration: dur },
        )
    } else if t == 0x2F {
        e == SerializableEvent::EndOfTrack(
            EndOfTrack { event_size: 3u32, delta_time, time_duration: dur },
        )
    } else if t == 0x51 {
        e == SerializableEvent::SetTempo(
            SetTempoEvent {
                tempo: (data[3] * 0x10000 + data[4] * 0x100 + data[5]) as u32,
                event_size: 6u32,
                delta_time,
                time_duration: dur,
            },
        )
    } else if t == 0x54 {
        e == SerializableEvent::SmpteOffset(
            SMPTEOffsetEvent {
                hour: data[3],
                minute: data[4],
                second: data[5],
                frame_rate: data[6],
                fractional_frames: data[7],
                event_size: 8u32,
                delta_time,
                time_duration: dur,
            },
        )
    } else if t == 0x58 {
        e == SerializableEvent::TimeSignature(
            TimeSignatureEvent {
                numerator: data[3],
                denominator: spec_denominator_of_log2(data[4]),
                metronome_clicks: data[5],
                num_of_32nd_notes_per_quarter: data[6],
                event_size: 7u32,
                delta_time,
                time_duration: dur,
            },
        )
    } else if t == 0x59 {
        (e matches SerializableEvent::KeySignature(v) && {
            &&& v.key_signature.num_of_accidentals == spec_signed_byte(data[3])
            &&& Some((v.key_signature.key, v.key_signature.accidental))
                == crate::metaevents::key_signature::spec_key_signature_of(
                spec_signed_byte(data[3]),
            )
            &&& v.key_signature.mode.spec_number() == data[4]
            &&& v.event_size == 5
            &&& v.delta_time == delta_time
            &&& v.time_duration == dur
        })
    } else if t == 0x7F {
        (e matches SerializableEvent::SequencerSpecific(v)
            && spec_parse_sequencer_specific(data) matches Ok((payload, dl, es)) && {
            &&& v.data@ == payload
            &&& v.data_length == dl
            &&& v.event_size == es
            &&& v.delta_time == delta_time
            &&& v.time_duration == dur
        })
    } else {
        false
    }
}

/// That `e` is the text-bearing meta-event standing at the front of `data`,
/// its kind chosen by the type byte.
pub open spec fn spec_text_parses_to(
    data: Seq<u8>,
    delta_time: u32,
    dur: u64,
    e: SerializableEvent,
) -> bool
    recommends
        data.len() >= 2,
        data[0] == 0xFF,
        0x01 <= data[1] <= 0x07,
{
    spec_parse_text_meta(data) matches Ok((cs, ts, es)) && {
        let t = data[1];
        if t == 0x01 {
            (e matches SerializableEvent::Text(v) && v.text@ == cs && v.text_size == ts
                && v.event_size == es && v.delta_time == delta_time && v.time_duration == dur)
        } else if t == 0x02 {
            (e matches SerializableEvent::CopyrightNotice(v) && v.copyright_notice@ == cs
                && v.text_size == ts && v.event_size == es && v.delta_time == delta_time
                && v.time_duration == dur)
        } else if t == 0x03 {
            (e matches SerializableEvent::TrackName(v) && v.track_name@ == cs && v.text_size == ts
                && v.event_size == es && v.delta_time == delta_time && v.time_duration == dur)
        } else if t == 0x04 {
            (e matches SerializableEvent::InstrumentName(v) && v.instrument_name@ == cs
                && v.text_size == ts && v.event_size == es && v.delta_time == delta_time
                && v.time_duration == dur)
        } else if t == 0x05 {
            (e matches SerializableEvent::Lyric(v) && v.lyric@ == cs && v.text_size == ts
                && v.event_size == es && v.delta_time == delta_time && v.time_duration == dur)
        } else if t == 0x06 {
            (e matches SerializableEvent::Marker(v) && v.marker@ == cs && v.text_size == ts
                && v.event_size == es && v.delta_time == delta_time && v.time_duration == dur)
        } else {
            (e matches SerializableEvent::CuePoint(v) && v.cue_point@ == cs && v.text_size == ts
                && v.event_size == es && v.delta_time == delta_time && v.time_duration == dur)
        }
    }
}

/// Whether a whole event stream parses: delta time after delta time, event
/// after event, ending at exactly one end-of-track that exhausts the data.
pub open spec fn spec_parse_events_ok(data: Seq<u8>, rs: RunningStatus) -> bool
    decreases data.len(),
{
    if data.len() == 0 {
        false
    } else {
        match spec_vlq_decode(data) {
            Err(_) => false,
            Ok((delta, n)) => {
                if n < 1 {
                    false
                } else {
                    let rest = data.skip(n as int);
                    match spec_parse_event_ok(rest, rs) {
                        None => false,
                        Some(consumed) => {
                            if consumed < 1 {
                                false
                            } else if rest.len() >= 2 && rest[0] == 0xFF && rest[1] == 0x2F {
                                rest.len() == consumed
                            } else {
                                spec_parse_events_ok(
                                    rest.skip(consumed),
                                    spec_next_running_status(rest, rs),
                                )
                            }
                        },
                    }
                }
            },
        }
    }
}

/// That parsing the whole of `data` as an event stream yields exactly
/// `events` and leaves the tempo at `tf`.
pub open spec fn spec_parse_events_to(
    data: Seq<u8>,
    division: TimeDivision,
    tempo: u32,
    rs: RunningStatus,
    events: Seq<SerializableEvent>,
    tf: u32,
) -> bool
    decreases data.len(),
{
    if events.len() == 0 || data.len() == 0 {
        false
    } else {
        match spec_vlq_decode(data) {
            Err(_) => false,
            Ok((delta, n)) => {
                if n < 1 {
                    false
                } else {
                    let rest = data.skip(n as int);
                    match spec_parse_event_ok(rest, rs) {
                        None => false,
                        Some(consumed) => {
                            if consumed < 1 {
                                false
                            } else {
                                spec_event_parses_to(rest, delta, division, tempo, rs, events[0])
                                    && (if rest.len() >= 2 && rest[0] == 0xFF && rest[1] == 0x2F {
                                    events.len() == 1 && rest.len() == consumed && tf == tempo
                                } else {
                                    spec_parse_events_to(
                                        rest.skip(consumed),
                                        division,
                                        spec_next_tempo(rest, tempo),
                                        spec_next_running_status(rest, rs),
                                        events.drop_first(),
                                        tf,
                                    )
                                })
                            }
                        },
                    }
                }
            },
        }
    }
}

/// The canonical serialization of an event stream: each event's delta time
/// followed by its wire form, always with an explicit status byte.
pub open spec fn spec_serialize_events(events: Seq<SerializableEvent>) -> Seq<u8>
    decreases events.len(),
{
    if events.len() == 0 {
        Seq::empty()
    } else {
        spec_vlq_encode(events[0].spec_delta_time() as int) + events[0].wire()
            + spec_serialize_events(events.drop_first())
    }
}

/// The tempo that is current after an event stream: the payload of its last
/// set-tempo event, or the starting tempo.
pub open spec fn spec_final_tempo(events: Seq<SerializableEvent>, tempo: u32) -> u32
    decreases events.len(),
{
    if events.len() == 0 {
        tempo
    } else {
        let t = (match events[0] {
            SerializableEvent::SetTempo(e) => e.tempo,
            _ => tempo,
        });
        spec_final_tempo(events.drop_first(), t)
    }
}

/// How a status byte's high nibble singles out its kind.
proof fn lemma_nibble_dispatch(s: u8)
    by (bit_vector)
    ensures
        ((s & 0xF0) >> 4 == 0x8) <==> (s & 0xF0 == 0x80),
        ((s & 0xF0) >> 4 == 0x9) <==> (s & 0xF0 == 0x90),
        ((s & 0xF0) >> 4 == 0xA) <==> (s & 0xF0 == 0xA0),
        ((s & 0xF0) >> 4 == 0xB) <==> (s & 0xF0 == 0xB0),
        ((s & 0xF0) >> 4 == 0xC) <==> (s & 0xF0 == 0xC0),
        ((s & 0xF0) >> 4 == 0xD) <==> (s & 0xF0 == 0xD0),
        ((s & 0xF0) >> 4 == 0xE) <==> (s & 0xF0 == 0xE0),
        ((s & 0xF0) >> 4 == 0xF) <==> (s & 0xF0 == 0xF0),
        s >= 0x80 ==> (s & 0xF0) >> 4 >= 0x8,
        (s & 0xF0) >> 4 <= 0xF,
        s & 0x0F == 0 && s >= 0x80 && s != 0xF0 ==> (s == 0x80 || s == 0x90 || s == 0xA0 || s
            == 0xB0 || s == 0xC0 || s == 0xD0 || s == 0xE0),
{
}

/// Parse the meta-event at the front of `data`, which begins at its `0xFF`
/// status byte.
pub fn parse_meta_event(
    data: &[u8],
    delta_time: u32,
    ticks_per_quarter_note: TimeDivision,
    tempo: u32,
) -> (r: Result<SerializableEvent, MidiError>)
    ensures
        data@.len() >= 1 && data@[0] == 0xFF ==> (match r {
            Ok(e) => {
                &&& spec_parse_meta_ok(data@) == Some(e.spec_event_size() as int)
                &&& spec_event_parses_to(
                    data@,
                    delta_time,
                    ticks_per_quarter_note,
                    tempo,
                    None,
                    e,
                )
                &&& 1 <= e.spec_event_size()
            },
            Err(_) => spec_parse_meta_ok(data@) is None,
        }),
        data@.len() < 2 ==> (r matches Err(e) && e == MidiError::ParseError(ParseError::EndOfData)),
        data@.len() >= 2 && !spec_known_meta_type(data@[1]) ==> (r matches Err(e) && e
            matches MidiError::ParseError(ParseError::NotImplemented(_))),
{
    if data.len() < 2 {
        return Err(MidiError::ParseError(ParseError::EndOfData));
    }
    let type_byte: u8 = *vstd::slice::slice_index_get(data, 1);
    match type_byte {
        0x00 => {
            let e = SequenceNumber::from_bytes(data, delta_time, ticks_per_quarter_note, tempo)?;
            Ok(SerializableEvent::SequenceNumber(e))
        },
        0x01 => {
            let e = TextEvent::from_bytes(data, delta_time, ticks_per_quarter_note, tempo)?;
            Ok(SerializableEvent::Text(e))
        },
        0x02 => {
            let e = CopyRightNoticeEvent::from_bytes(
                data,
                delta_time,
                ticks_per_quarter_note,
                tempo,
            )?;
            Ok(SerializableEvent::CopyrightNotice(e))
        },
        0x03 => {
            let e = TrackNameEvent::from_bytes(data, delta_time, ticks_per_quarter_note, tempo)?;
            Ok(SerializableEvent::TrackName(e))
        },
        0x04 => {
            let e = InstrumentNameEvent::from_bytes(
                data,
                delta_time,
                ticks_per_quarter_note,
                tempo,
            )?;
            Ok(SerializableEvent::InstrumentName(e))
        },
        0x05 => {
            let e = LyricEvent::from_bytes(data, delta_time, ticks_per_quarter_note, tempo)?;
            Ok(SerializableEvent::Lyric(e))
        },
        0x06 => {
            let e = MarkerEvent::from_bytes(data, delta_time, ticks_per_quarter_note, tempo)?;
            Ok(SerializableEvent::Marker(e))
        },
        0x07 => {
            let e = CuePointEvent::from_bytes(data, delta_time, ticks_per_quarter_note, tempo)?;
            Ok(SerializableEvent::CuePoint(e))
        },
        0x20 => {
            let e = MidiChannelPrefixEvent::from_bytes(
                data,
                delta_time,
                ticks_per_quarter_note,
                tempo,
            )?;
            Ok(SerializableEvent::MidiChannelPrefix(e))
        },
        0x21 => {
            let e = MidiPortEvent::from_bytes(data, delta_time, ticks_per_quarter_note, tempo)?;
            Ok(SerializableEvent::MidiPort(e))
        },
        0x2F => {
            let e = EndOfTrack::from_bytes(data, delta_time, ticks_per_quarter_note, tempo)?;
            Ok(SerializableEvent::EndOfTrack(e))
        },
        0x51 => {
            let e = SetTempoEvent::from_bytes(data, delta_time, ticks_per_quarter_note, tempo)?;
            Ok(SerializableEvent::SetTempo(e))
        },
        0x54 => {
            let e = SMPTEOffsetEvent::from_bytes(data, delta_time, ticks_per_quarter_note, tempo)?;
            Ok(SerializableEvent::SmpteOffset(e))
        },
        0x58 => {
            let e = TimeSignatureEvent::from_bytes(
                data,
                delta_time,
                ticks_per_quarter_note,
                tempo,
            )?;
            Ok(SerializableEvent::TimeSignature(e))
        },
        0x59 => {
            let e = KeySignatureEvent::from_bytes(data, delta_time, ticks_per_quarter_note, tempo)?;
            Ok(SerializableEvent::KeySignature(e))
        },
        0x7F => {
            let e = SequencerSpecificEvent::from_bytes(
                data,
                delta_time,
                ticks_per_quarter_note,
                tempo,
            )?;
            Ok(SerializableEvent::SequencerSpecific(e))
        },
        _ => Err(MidiError::ParseError(ParseError::NotImplemented(String::from_str(
            "The meta-event type byte names no event this library knows",
        )))),
    }
}

/// Parse the event at the front of `data`, which begins at its status byte,
/// `status_byte` itself.
pub fn parse_event(
    status_byte: u8,
    data: &[u8],
    delta_time: u32,
    time_division: TimeDivision,
    tempo: u32,
) -> (r: Result<SerializableEvent, MidiError>)
    ensures
        data@.len() >= 1 && data@[0] == status_byte ==> (match r {
            Ok(e) => {
                &&& spec_parse_event_ok(data@, None) == Some(e.spec_event_size() as int)
                &&& spec_event_parses_to(data@, delta_time, time_division, tempo, None, e)
                &&& 1 <= e.spec_event_size()
            },
            Err(e) => {
                &&& spec_parse_event_ok(data@, None) is None
                &&& (status_byte < 0x80 ==> e matches MidiError::ParseError(
                    ParseError::InvalidEventBytes(_),
                ))
                &&& (status_byte >= 0x80 && status_byte != 0xFF && status_byte & 0xF0 == 0xF0
                    ==> e matches MidiError::ParseError(ParseError::NotImplemented(_)))
                &&& (status_byte == 0xFF && data@.len() < 2 ==> e == MidiError::ParseError(
                    ParseError::EndOfData,
                ))
                &&& (status_byte == 0xFF && data@.len() >= 2 && !spec_known_meta_type(data@[1])
                    ==> e matches MidiError::ParseError(ParseError::NotImplemented(_)))
            },
        }),
{
    proof {
        lemma_nibble_dispatch(status_byte);
        if data@.len() >= 1 {
            assert(forall|i: int| 0 <= i < data@.len() - 1 ==> data@.skip(1)[i] == data@[i + 1]);
        }
    }
    if status_byte < 0x80 {
        // A data byte can begin an event only under a held running status,
        // which this entry point does not carry
        return Err(MidiError::ParseError(ParseError::InvalidEventBytes(String::from_str(
            "A data byte stands where a status byte is expected",
        ))));
    }
    match status_byte {
        0xFF => parse_meta_event(data, delta_time, time_division, tempo),
        _ => {
            let event_type: u8 = (status_byte & EVENT_MASK) >> 4;
            match event_type {
                0x9 => {
                    let e = NoteOnEvent::from_bytes(data, delta_time, time_division, tempo)?;
                    Ok(SerializableEvent::NoteOn(e))
                },
                0x8 => {
                    let e = NoteOffEvent::from_bytes(data, delta_time, time_division, tempo)?;
                    Ok(SerializableEvent::NoteOff(e))
                },
                0xA => {
                    let e = PolyphonicKeyPressureEvent::from_bytes(
                        data,
                        delta_time,
                        time_division,
                        tempo,
                    )?;
                    Ok(SerializableEvent::PolyphonicKeyPressure(e))
                },
                0xB => {
                    let e = ControlChangeEvent::from_bytes(data, delta_time, time_division, tempo)?;
                    Ok(SerializableEvent::ControlChange(e))
                },
                0xC => {
                    let e = ProgramChangeEvent::from_bytes(data, delta_time, time_division, tempo)?;
                    Ok(SerializableEvent::ProgramChange(e))
                },
                0xD => {
                    let e = ChannelPressureEvent::from_bytes(
                        data,
                        delta_time,
                        time_division,
                        tempo,
                    )?;
                    Ok(SerializableEvent::ChannelPressure(e))
                },
                0xE => {
                    let e = PitchBendChangeEvent::from_bytes(
                        data,
                        delta_time,
                        time_division,
                        tempo,
                    )?;
                    Ok(SerializableEvent::PitchBendChange(e))
                },
                _ => Err(MidiError::ParseError(ParseError::NotImplemented(String::from_str(
                    "The status byte names no event this library knows",
                )))),
            }
        },
    }
}

/// Parse the data bytes of an event that reuses the held running status.
/// `data` begins at the first data byte; `running_status` is the held
/// status nibble and `channel` the held channel.
pub fn parse_running_status_data(
    running_status: u8,
    channel: u8,
    data: &[u8],
    delta_time: u32,
    time_division: TimeDivision,
    tempo: u32,
) -> (r: Result<SerializableEvent, MidiError>)
    requires
        running_status & 0x0F == 0,
        running_status >= 0x80,
        running_status != 0xF0,
        channel < 0x10,
        data@.len() >= 1,
        data@[0] < 0x80,
    ensures
        (match r {
            Ok(e) => {
                &&& spec_parse_event_ok(data@, Some((running_status, channel))) == Some(
                    e.spec_event_size() - 1,
                )
                &&& spec_event_parses_to(
                    data@,
                    delta_time,
                    time_division,
                    tempo,
                    Some((running_status, channel)),
                    e,
                )
                &&& 2 <= e.spec_event_size()
            },
            Err(_) => spec_parse_event_ok(data@, Some((running_status, channel))) is None,
        }),
{
    proof {
        lemma_nibble_dispatch(running_status);
    }
    match running_status {
        0x90 => {
            let e = NoteOnEvent::new_from_status(data, delta_time, channel, time_division, tempo)?;
            Ok(SerializableEvent::NoteOn(e))
        },
        0x80 => {
            let e = NoteOffEvent::new_from_status(data, delta_time, channel, time_division, tempo)?;
            Ok(SerializableEvent::NoteOff(e))
        },
        0xA0 => {
            let e = PolyphonicKeyPressureEvent::new_from_status(
                data,
                delta_time,
                channel,
                time_division,
                tempo,
            )?;
            Ok(SerializableEvent::PolyphonicKeyPressure(e))
        },
        0xB0 => {
            let e = ControlChangeEvent::new_from_status(
                data,
                delta_time,
                channel,
                time_division,
                tempo,
            )?;
            Ok(SerializableEvent::ControlChange(e))
        },
        0xC0 => {
            let e = ProgramChangeEvent::new_from_status(
                data,
                delta_time,
                channel,
                time_division,
                tempo,
            )?;
            Ok(SerializableEvent::ProgramChange(e))
        },
        0xD0 => {
            let e = ChannelPressureEvent::new_from_status(
                data,
                delta_time,
                channel,
                time_division,
                tempo,
            )?;
            Ok(SerializableEvent::ChannelPressure(e))
        },
        0xE0 => {
            let e = PitchBendChangeEvent::new_from_status(
                data,
                delta_time,
                channel,
                time_division,
                tempo,
            )?;
            Ok(SerializableEvent::PitchBendChange(e))
        },
        _ => {
            proof {
                assert(false);
            }
            Err(MidiError::ParseError(ParseError::InvalidEventBytes(String::from_str(
                "A running-status event needs a held channel voice status",
            ))))
        },
    }
}

/// An event that parses spans at least one byte and at most the data.
pub proof fn lemma_event_ok_bounds(data: Seq<u8>, rs: RunningStatus)
    ensures
        spec_parse_event_ok(data, rs) matches Some(c) ==> 1 <= c <= data.len(),
{
    if data.len() > 0 && data[0] == 0xFF && data.len() >= 2 {
        let t = data[1];
        if 0x01 <= t <= 0x07 {
            match spec_parse_text_meta(data) {
                Ok((cs, ts, es)) => {
                    crate::metaevents::lemma_vlq_value_bound(data.skip(2));
                },
                Err(_) => {},
            }
        } else if t == 0x7F {
            match spec_parse_sequencer_specific(data) {
                Ok((p, dl, es)) => {
                    crate::metaevents::lemma_vlq_value_bound(data.skip(2));
                },
                Err(_) => {},
            }
        }
    }
}

/// Skipping twice is skipping the sum.
proof fn lemma_skip_skip(s: Seq<u8>, a: int, b: int)
    requires
        0 <= a,
        0 <= b,
        a + b <= s.len(),
    ensures
        s.skip(a).skip(b) =~= s.skip(a + b),
{
}


/// The leading bytes of a parsed event pin its kind: it is an end-of-track
/// exactly when the bytes say `0xFF 0x2F`, and it is a set-tempo carrying
/// the bytes' tempo exactly when they say `0xFF 0x51`.
pub proof fn lemma_parses_to_kind(
    rest: Seq<u8>,
    delta: u32,
    division: TimeDivision,
    tempo: u32,
    rs: RunningStatus,
    e: SerializableEvent,
    tempo2: u32,
)
    requires
        rest.len() >= 1,
        spec_event_parses_to(rest, delta, division, tempo, rs, e),
        spec_parse_event_ok(rest, rs) is Some,
    ensures
        (e is EndOfTrack) <==> (rest.len() >= 2 && rest[0] == 0xFF && rest[1] == 0x2F),
        spec_next_tempo(rest, tempo2) == (match e {
            SerializableEvent::SetTempo(st) => st.tempo,
            _ => tempo2,
        }),
{
}

/// Unrolling one event from the front of a stream: how whole-stream success
/// and content follow from the first event and the rest.
proof fn lemma_events_step(
    data: Seq<u8>,
    division: TimeDivision,
    tempo: u32,
    rs: RunningStatus,
    delta: u32,
    n: u8,
    consumed: int,
    e: SerializableEvent,
)
    requires
        spec_vlq_decode(data) == Ok::<(u32, u8), MidiError>((delta, n)),
        spec_parse_event_ok(data.skip(n as int), rs) == Some(consumed),
        spec_event_parses_to(data.skip(n as int), delta, division, tempo, rs, e),
    ensures
        ({
            let rest = data.skip(n as int);
            let eot = rest.len() >= 2 && rest[0] == 0xFF && rest[1] == 0x2F;
            &&& 1 <= n <= data.len()
            &&& 1 <= consumed <= rest.len()
            &&& (eot ==> (spec_parse_events_ok(data, rs) <==> rest.len() == consumed))
            &&& (!eot ==> (spec_parse_events_ok(data, rs) <==> spec_parse_events_ok(
                rest.skip(consumed),
                spec_next_running_status(rest, rs),
            )))
            &&& (eot && rest.len() == consumed ==> spec_parse_events_to(
                data,
                division,
                tempo,
                rs,
                seq![e],
                tempo,
            ))
            &&& (!eot ==> forall|evts: Seq<SerializableEvent>, tf: u32|
                #[trigger] spec_parse_events_to(
                    rest.skip(consumed),
                    division,
                    spec_next_tempo(rest, tempo),
                    spec_next_running_status(rest, rs),
                    evts,
                    tf,
                ) ==> spec_parse_events_to(data, division, tempo, rs, seq![e] + evts, tf))
            &&& (eot ==> !spec_stops_at_missing_status(data, rs))
            &&& (!eot ==> (spec_stops_at_missing_status(data, rs)
                <==> spec_stops_at_missing_status(
                rest.skip(consumed),
                spec_next_running_status(rest, rs),
            )))
        }),
{
    let rest = data.skip(n as int);
    lemma_event_ok_bounds(rest, rs);
    let eot = rest.len() >= 2 && rest[0] == 0xFF && rest[1] == 0x2F;
    if eot {
        assert(seq![e][0] == e);
        assert(seq![e].len() == 1);
    } else {
        assert forall|evts: Seq<SerializableEvent>, tf: u32|
            spec_parse_events_to(
                rest.skip(consumed),
                division,
                spec_next_tempo(rest, tempo),
                spec_next_running_status(rest, rs),
                evts,
                tf,
            ) implies spec_parse_events_to(
            data,
            division,
            tempo,
            rs,
            seq![e] + evts,
            tf,
        ) by {
            assert((seq![e] + evts)[0] == e);
            assert((seq![e] + evts).drop_first() =~= evts);
        };
    }
}

/// Where the first token of a stream fails, the whole stream fails; and
/// unless the failure is a data byte with no held running status, the
/// stream does not stop at a missing status.
proof fn lemma_events_fail(data: Seq<u8>, rs: RunningStatus)
    ensures
        data.len() == 0 ==> !spec_parse_events_ok(data, rs) && !spec_stops_at_missing_status(
            data,
            rs,
        ),
        spec_vlq_decode(data) is Err ==> !spec_parse_events_ok(data, rs)
            && !spec_stops_at_missing_status(data, rs),
        (match spec_vlq_decode(data) {
            Ok((d, n)) => spec_parse_event_ok(data.skip(n as int), rs) is None,
            Err(_) => false,
        }) ==> !spec_parse_events_ok(data, rs),
        (match spec_vlq_decode(data) {
            Ok((d, n)) => {
                let rest = data.skip(n as int);
                spec_parse_event_ok(rest, rs) is None && !(rest.len() >= 1 && rest[0] < 0x80
                    && rs is None)
            },
            Err(_) => false,
        }) ==> !spec_stops_at_missing_status(data, rs),
{
}

/// A parsed track: its declared byte size and its ordered events.
#[derive(Debug, Clone, PartialEq)]
pub struct Track {
    pub events: Vec<SerializableEvent>,
    pub track_size: u32,
}

/// Accept exactly the `MTrk` magic.
pub fn validate_track_header_chunk_bytes(track_header_chunk_bytes: u32) -> (r: Result<
    (),
    MidiError,
>)
    ensures
        track_header_chunk_bytes == TRACK_HEADER_BYTES ==> r is Ok,
        track_header_chunk_bytes != TRACK_HEADER_BYTES ==> r == Err::<(), MidiError>(
            MidiError::ParseError(ParseError::InvalidHeader),
        ),
{
    if track_header_chunk_bytes == TRACK_HEADER_BYTES {
        Ok(())
    } else {
        Err(MidiError::ParseError(ParseError::InvalidHeader))
    }
}

/// Whether `data` begins with a well-formed `MTrk` chunk header and holds
/// the declared number of body bytes.
pub open spec fn spec_track_header_ok(data: Seq<u8>) -> bool {
    &&& data.len() >= 8
    &&& data[0] == 0x4D
    &&& data[1] == 0x54
    &&& data[2] == 0x72
    &&& data[3] == 0x6B
    &&& data.len() >= 8 + spec_track_declared_size(data)
}

/// The declared body size of the chunk at the front of `data`.
pub open spec fn spec_track_declared_size(data: Seq<u8>) -> int
    recommends
        data.len() >= 8,
{
    spec_u32_be(data[4], data[5], data[6], data[7])
}

/// The event bytes of the chunk at the front of `data`.
pub open spec fn spec_track_body(data: Seq<u8>) -> Seq<u8>
    recommends
        spec_track_header_ok(data),
{
    data.subrange(8, 8 + spec_track_declared_size(data))
}

impl Track {
    /// Parse the `MTrk` chunk at the front of `data`. Reports the track, the
    /// tempo in force after it, and the time signature handed in.
    ///
    /// Parsing succeeds exactly when the chunk header is well formed and its
    /// body is a parseable event stream ending at one end-of-track; the
    /// events come back in byte order with their delta times verbatim.
    #[verifier::spinoff_prover]
    #[verifier::rlimit(100)]
    pub fn new(
        data: &[u8],
        time_division: TimeDivision,
        tempo: u32,
        time_signature: crate::metaevents::TimeSignature,
    ) -> (r: Result<(Track, u32, crate::metaevents::TimeSignature), MidiError>)
        ensures
            (match r {
                Ok((t, tempo_out, ts_out)) => {
                    &&& spec_track_header_ok(data@)
                    &&& t.track_size == spec_track_declared_size(data@)
                    &&& spec_parse_events_ok(spec_track_body(data@), None)
                    &&& spec_parse_events_to(
                        spec_track_body(data@),
                        time_division,
                        tempo,
                        None,
                        t.events@,
                        tempo_out,
                    )
                    &&& ts_out == time_signature
                },
                Err(_) => !(spec_track_header_ok(data@) && spec_parse_events_ok(
                    spec_track_body(data@),
                    None,
                )),
            }),
            data@.len() < 8 ==> (r matches Err(e) && e == MidiError::ParseError(
                ParseError::EndOfData,
            )),
            data@.len() >= 8 && !(data@[0] == 0x4D && data@[1] == 0x54 && data@[2] == 0x72
                && data@[3] == 0x6B) ==> (r matches Err(e) && e == MidiError::ParseError(
                ParseError::InvalidHeader,
            )),
            data@.len() >= 8 && data@[0] == 0x4D && data@[1] == 0x54 && data@[2] == 0x72
                && data@[3] == 0x6B && data@.len() < 8 + spec_track_declared_size(data@) ==> (r
                matches Err(e) && e == MidiError::ParseError(ParseError::EndOfData)),
            spec_track_header_ok(data@) && spec_stops_at_missing_status(
                spec_track_body(data@),
                None,
            ) ==> (r matches Err(e) && e matches MidiError::ParseError(
                ParseError::InvalidEventBytes(_),
            )),
    {
        if data.len() < 8 {
            return Err(MidiError::ParseError(ParseError::EndOfData));
        }
        let m0: u8 = *vstd::slice::slice_index_get(data, 0);
        let m1: u8 = *vstd::slice::slice_index_get(data, 1);
        let m2: u8 = *vstd::slice::slice_index_get(data, 2);
        let m3: u8 = *vstd::slice::slice_index_get(data, 3);
        let magic: u32 = (m0 as u32) * 0x1000000 + (m1 as u32) * 0x10000 + (m2 as u32) * 0x100 + (
        m3 as u32);
        validate_track_header_chunk_bytes(magic)?;

        let s0: u8 = *vstd::slice::slice_index_get(data, 4);
        let s1: u8 = *vstd::slice::slice_index_get(data, 5);
        let s2: u8 = *vstd::slice::slice_index_get(data, 6);
        let s3: u8 = *vstd::slice::slice_index_get(data, 7);
        let track_size: u32 = (s0 as u32) * 0x1000000 + (s1 as u32) * 0x10000 + (s2 as u32) * 0x100
            + (s3 as u32);
        if (data.len() as u64) < 8u64 + (track_size as u64) {
            return Err(MidiError::ParseError(ParseError::EndOfData));
        }
        let body: &[u8] = vstd::slice::slice_subrange(data, 8, 8 + track_size as usize);
        let ghost body_seq = body@;
        assert(body_seq =~= spec_track_body(data@));

        let mut events: Vec<SerializableEvent> = Vec::new();
        let mut position: usize = 0;
        let mut running: RunningStatus = None;
        let mut cur_tempo: u32 = tempo;
        let mut done: bool = false;

        proof {
            assert(body_seq.skip(0) =~= body_seq);
            assert forall|evts: Seq<SerializableEvent>, tf: u32|
                spec_parse_events_to(body_seq, time_division, tempo, None, evts, tf)
                    implies spec_parse_events_to(
                body_seq,
                time_division,
                tempo,
                None,
                events@ + evts,
                tf,
            ) by {
                assert(events@ + evts =~= evts);
            };
        }

        while !done && position < body.len()
            invariant
                body@ == body_seq,
                body@.len() == track_size,
                body_seq =~= spec_track_body(data@),
                spec_track_header_ok(data@),
                position <= body@.len(),
                (running matches Some((hi, ch)) ==> hi & 0x0F == 0 && hi >= 0x80 && hi != 0xF0
                    && ch < 0x10),
                !done ==> (spec_parse_events_ok(body_seq, None) <==> spec_parse_events_ok(
                    body_seq.skip(position as int),
                    running,
                )),
                !done ==> (spec_stops_at_missing_status(body_seq, None)
                    <==> spec_stops_at_missing_status(body_seq.skip(position as int), running)),
                !done ==> (forall|evts: Seq<SerializableEvent>, tf: u32|
                    spec_parse_events_to(
                        body_seq.skip(position as int),
                        time_division,
                        cur_tempo,
                        running,
                        evts,
                        tf,
                    ) ==> spec_parse_events_to(
                        body_seq,
                        time_division,
                        tempo,
                        None,
                        events@ + evts,
                        tf,
                    )),
                done ==> spec_parse_events_ok(body_seq, None) && spec_parse_events_to(
                    body_seq,
                    time_division,
                    tempo,
                    None,
                    events@,
                    cur_tempo,
                ) && position == body@.len() && !spec_stops_at_missing_status(body_seq, None),
            decreases body@.len() - position,
        {
            let ghost at_entry = body_seq.skip(position as int);
            let ghost rs_at_entry = running;
            let ghost tempo_at_entry = cur_tempo;
            let ghost evts_pre = events@;
            let ghost pos_pre = position as int;

            let remaining: &[u8] = vstd::slice::slice_subrange(body, position, body.len());
            assert(remaining@ =~= at_entry);
            let (delta_time, delta_bytes) = (match from_bytes_to_vlq(remaining) {
                Ok(p) => p,
                Err(e) => {
                    proof {
                        lemma_events_fail(at_entry, running);
                    }
                    return Err(e);
                },
            });
            let after_delta: &[u8] = vstd::slice::slice_subrange(
                body,
                position + delta_bytes as usize,
                body.len(),
            );
            proof {
                lemma_skip_skip(body_seq, pos_pre, delta_bytes as int);
                assert(after_delta@ =~= at_entry.skip(delta_bytes as int));
            }
            if after_delta.len() == 0 {
                proof {
                    lemma_events_fail(at_entry, running);
                }
                return Err(MidiError::ParseError(ParseError::EndOfData));
            }
            let b: u8 = *vstd::slice::slice_index_get(after_delta, 0);

            let event: SerializableEvent = (match (if b < 0x80 {
                match running {
                    None => Err(MidiError::ParseError(ParseError::InvalidEventBytes(
                        String::from_str(
                            "A data byte stands where a status byte is expected, and no running status is held",
                        ),
                    ))),
                    Some((hi, ch)) => parse_running_status_data(
                        hi,
                        ch,
                        after_delta,
                        delta_time,
                        time_division,
                        cur_tempo,
                    ),
                }
            } else {
                parse_event(b, after_delta, delta_time, time_division, cur_tempo)
            }) {
                Ok(e) => e,
                Err(err) => {
                    proof {
                        lemma_events_fail(at_entry, running);
                        if !(b < 0x80 && running is None) {
                            assert(!spec_stops_at_missing_status(at_entry, running));
                        }
                    }
                    return Err(err);
                },
            });

            let consumed: u32 = if b < 0x80 {
                event.get_event_size() - 1
            } else {
                event.get_event_size()
            };
            proof {
                assert(spec_parse_event_ok(after_delta@, rs_at_entry) == Some(consumed as int));
                lemma_parses_to_kind(
                    after_delta@,
                    delta_time,
                    time_division,
                    tempo_at_entry,
                    rs_at_entry,
                    event,
                    tempo_at_entry,
                );
                lemma_events_step(
                    at_entry,
                    time_division,
                    tempo_at_entry,
                    rs_at_entry,
                    delta_time,
                    delta_bytes,
                    consumed as int,
                    event,
                );
            }

            let is_eot: bool = match &event {
                SerializableEvent::EndOfTrack(_) => true,
                _ => false,
            };
            match &event {
                SerializableEvent::SetTempo(st) => {
                    cur_tempo = st.tempo;
                },
                _ => {},
            }
            if b == 0xFF {
                running = None;
            } else if b >= 0x80 {
                running = Some((b & EVENT_MASK, b & CHANNEL_MASK));
                proof {
                    lemma_channel_mask(b);
                }
            }
            events.push(event);
            position = position + delta_bytes as usize + consumed as usize;

            proof {
                let rest = at_entry.skip(delta_bytes as int);
                assert(cur_tempo == spec_next_tempo(rest, tempo_at_entry));
                assert(running == spec_next_running_status(rest, rs_at_entry));
                lemma_skip_skip(at_entry, delta_bytes as int, consumed as int);
                assert(rest.skip(consumed as int) =~= body_seq.skip(position as int));
                assert(events@ =~= evts_pre + seq![event]);
            }
            if is_eot {
                if position != body.len() {
                    proof {
                        let rest = at_entry.skip(delta_bytes as int);
                        assert(rest.len() != consumed);
                        assert(!spec_parse_events_ok(at_entry, rs_at_entry));
                    }
                    return Err(MidiError::ParseError(ParseError::InvalidEventBytes(
                        String::from_str("Data stands after the end-of-track event"),
                    )));
                }
                done = true;
                proof {
                    let rest = at_entry.skip(delta_bytes as int);
                    assert(rest.len() == consumed);
                    assert(!spec_stops_at_missing_status(at_entry, rs_at_entry));
                    assert(spec_parse_events_to(
                        at_entry,
                        time_division,
                        tempo_at_entry,
                        rs_at_entry,
                        seq![event],
                        cur_tempo,
                    ));
                    assert(evts_pre + seq![event] =~= events@);
                    assert(spec_parse_events_to(
                        body_seq,
                        time_division,
                        tempo,
                        None,
                        events@,
                        cur_tempo,
                    ));
                }
            } else {
                proof {
                    let newpos = position as int;
                    assert forall|evts: Seq<SerializableEvent>, tf: u32|
                        spec_parse_events_to(
                            body_seq.skip(newpos),
                            time_division,
                            cur_tempo,
                            running,
                            evts,
                            tf,
                        ) implies spec_parse_events_to(
                        body_seq,
                        time_division,
                        tempo,
                        None,
                        events@ + evts,
                        tf,
                    ) by {
                        assert(spec_parse_events_to(
                            at_entry,
                            time_division,
                            tempo_at_entry,
                            rs_at_entry,
                            seq![event] + evts,
                            tf,
                        ));
                        assert(evts_pre + (seq![event] + evts) =~= events@ + evts);
                    };
                }
            }
        }
        if !done {
            return Err(MidiError::ParseError(ParseError::InvalidEventBytes(String::from_str(
                "The track ended without an end-of-track event",
            ))));
        }
        Ok((Track { events, track_size }, cur_tempo, time_signature))
    }
}

/// A well-formed track body: every event valid, every stored duration
/// computed from the tempo then in force, and exactly one end-of-track,
/// standing last.
pub open spec fn spec_track_events_valid(
    events: Seq<SerializableEvent>,
    division: TimeDivision,
    tempo: u32,
) -> bool
    decreases events.len(),
{
    if events.len() == 0 {
        false
    } else {
        let e = events[0];
        &&& e.valid()
        &&& e.spec_time_duration() == spec_event_duration(e.spec_delta_time(), division, tempo)
        &&& if events.len() == 1 {
            e is EndOfTrack
        } else {
            !(e is EndOfTrack) && spec_track_events_valid(
                events.drop_first(),
                division,
                (match e {
                    SerializableEvent::SetTempo(st) => st.tempo,
                    _ => tempo,
                }),
            )
        }
    }
}


/// The delta time and wire form of one event, as serialized.
pub open spec fn spec_event_bytes(e: SerializableEvent) -> Seq<u8> {
    spec_vlq_encode(e.spec_delta_time() as int) + e.wire()
}

/// Serializing one more event appends its bytes.
proof fn lemma_serialize_events_snoc(s: Seq<SerializableEvent>, e: SerializableEvent)
    ensures
        spec_serialize_events(s.push(e)) =~= spec_serialize_events(s) + spec_event_bytes(e),
    decreases s.len(),
{
    if s.len() == 0 {
        assert(s.push(e)[0] == e);
        assert(s.push(e).drop_first() =~= Seq::<SerializableEvent>::empty());
        assert(spec_serialize_events(Seq::<SerializableEvent>::empty())
            =~= Seq::<u8>::empty());
        assert(spec_serialize_events(s.push(e)) =~= spec_event_bytes(e));
        assert(spec_serialize_events(s) + spec_event_bytes(e) =~= spec_event_bytes(e));
    } else {
        assert(s.push(e)[0] == s[0]);
        assert(s.push(e).drop_first() =~= s.drop_first().push(e));
        lemma_serialize_events_snoc(s.drop_first(), e);
        assert((spec_event_bytes(s[0]) + spec_serialize_events(s.drop_first()))
            + spec_event_bytes(e) =~= spec_event_bytes(s[0]) + (spec_serialize_events(
            s.drop_first(),
        ) + spec_event_bytes(e)));
    }
}

/// Whether `data` splits into whole `MTrk` chunks, each with a parseable
/// event stream.
pub open spec fn spec_parse_tracks_ok(data: Seq<u8>) -> bool
    decreases data.len(),
{
    if data.len() == 0 {
        true
    } else if !spec_track_header_ok(data) {
        false
    } else {
        spec_parse_events_ok(spec_track_body(data), None) && spec_parse_tracks_ok(
            data.skip(8 + spec_track_declared_size(data)),
        )
    }
}

/// How many whole chunks `data` splits into, while the chunk headers are
/// well formed.
pub open spec fn spec_num_tracks(data: Seq<u8>) -> int
    decreases data.len(),
{
    if data.len() == 0 || !spec_track_header_ok(data) {
        0
    } else {
        1 + spec_num_tracks(data.skip(8 + spec_track_declared_size(data)))
    }
}

/// That parsing `data` chunk by chunk yields exactly `tracks`, threading
/// the tempo from each into the next and ending at `tf`.
pub open spec fn spec_tracks_to(
    data: Seq<u8>,
    division: TimeDivision,
    tempo: u32,
    tracks: Seq<Track>,
    tf: u32,
) -> bool
    decreases data.len(),
{
    if data.len() == 0 {
        tracks.len() == 0 && tf == tempo
    } else if tracks.len() == 0 || !spec_track_header_ok(data) {
        false
    } else {
        let size = spec_track_declared_size(data);
        &&& tracks[0].track_size == size
        &&& exists|t1: u32|
            #[trigger] spec_parse_events_to(
                spec_track_body(data),
                division,
                tempo,
                None,
                tracks[0].events@,
                t1,
            ) && spec_tracks_to(data.skip(8 + size), division, t1, tracks.drop_first(), tf)
    }
}

/// That parsing `data` chunk by chunk yields exactly `tracks`, under some
/// final tempo.
pub open spec fn spec_tracks_to_some(
    data: Seq<u8>,
    division: TimeDivision,
    tempo: u32,
    tracks: Seq<Track>,
) -> bool {
    exists|tf: u32| #[trigger] spec_tracks_to(data, division, tempo, tracks, tf)
}

impl Track {
    /// Parse back-to-back `MTrk` chunks until `data` is exhausted, starting
    /// from `tempo` and threading each track's final tempo into the next.
    pub fn parse_tracks(data: &[u8], time_division: TimeDivision, tempo: u32) -> (r: Result<
        (Vec<Track>, u32),
        MidiError,
    >)
        ensures
            (match r {
                Ok((tracks, tf)) => {
                    &&& spec_parse_tracks_ok(data@)
                    &&& spec_tracks_to(data@, time_division, tempo, tracks@, tf)
                    &&& tracks@.len() == spec_num_tracks(data@)
                },
                Err(_) => !spec_parse_tracks_ok(data@),
            }),
            spec_tracks_stop_at_bad_magic(data@) ==> (r matches Err(e) && e
                == MidiError::ParseError(ParseError::InvalidHeader)),
    {
        let ghost data_seq = data@;
        let mut track_list: Vec<Track> = Vec::new();
        let mut position: usize = 0;
        let mut cur_tempo: u32 = tempo;
        let time_signature = crate::metaevents::TimeSignature::new(4, 4)?;

        proof {
            assert(data_seq.skip(0) =~= data_seq);
            assert forall|trks: Seq<Track>, tf: u32|
                spec_tracks_to(data_seq, time_division, tempo, trks, tf)
                    implies spec_tracks_to(
                data_seq,
                time_division,
                tempo,
                track_list@ + trks,
                tf,
            ) by {
                assert(track_list@ + trks =~= trks);
            };
        }

        while position < data.len()
            invariant
                data@ == data_seq,
                position <= data@.len(),
                spec_parse_tracks_ok(data_seq) <==> spec_parse_tracks_ok(
                    data_seq.skip(position as int),
                ),
                spec_tracks_stop_at_bad_magic(data_seq) <==> spec_tracks_stop_at_bad_magic(
                    data_seq.skip(position as int),
                ),
                spec_num_tracks(data_seq) == track_list@.len() + spec_num_tracks(
                    data_seq.skip(position as int),
                ),
                forall|trks: Seq<Track>, tf: u32|
                    #[trigger] spec_tracks_to(
                        data_seq.skip(position as int),
                        time_division,
                        cur_tempo,
                        trks,
                        tf,
                    ) ==> spec_tracks_to(data_seq, time_division, tempo, track_list@ + trks, tf),
            decreases data@.len() - position,
        {
            let ghost at_entry = data_seq.skip(position as int);
            let ghost pos_pre = position as int;
            let ghost trks_pre = track_list@;
            let ghost tempo_pre = cur_tempo;

            let remaining: &[u8] = vstd::slice::slice_subrange(data, position, data.len());
            assert(remaining@ =~= at_entry);
            let (track, tempo_out, _ts) = (match Track::new(
                remaining,
                time_division,
                cur_tempo,
                time_signature,
            ) {
                Ok(t) => t,
                Err(e) => {
                    proof {
                        if at_entry.len() >= 8 && at_entry[0] == 0x4D && at_entry[1] == 0x54
                            && at_entry[2] == 0x72 && at_entry[3] == 0x6B {
                            assert(!spec_tracks_stop_at_bad_magic(at_entry));
                        }
                    }
                    return Err(e);
                },
            });
            let ghost size = spec_track_declared_size(at_entry);
            cur_tempo = tempo_out;
            position = position + 8 + track.track_size as usize;
            let ghost track_ghost = track;
            track_list.push(track);
            proof {
                lemma_skip_skip(data_seq, pos_pre, 8 + size);
                assert(at_entry.skip(8 + size) =~= data_seq.skip(position as int));
                assert(track_list@ =~= trks_pre + seq![track_ghost]);
                assert forall|trks: Seq<Track>, tf: u32|
                    #[trigger] spec_tracks_to(
                        data_seq.skip(position as int),
                        time_division,
                        cur_tempo,
                        trks,
                        tf,
                    ) implies spec_tracks_to(
                    data_seq,
                    time_division,
                    tempo,
                    track_list@ + trks,
                    tf,
                ) by {
                    assert((seq![track_ghost] + trks)[0] == track_ghost);
                    assert((seq![track_ghost] + trks).drop_first() =~= trks);
                    assert(spec_parse_events_to(
                        spec_track_body(at_entry),
                        time_division,
                        tempo_pre,
                        None,
                        track_ghost.events@,
                        tempo_out,
                    ));
                    assert(spec_tracks_to(
                        at_entry,
                        time_division,
                        tempo_pre,
                        seq![track_ghost] + trks,
                        tf,
                    ));
                    assert(trks_pre + (seq![track_ghost] + trks) =~= track_list@ + trks);
                };
                assert(spec_tracks_stop_at_bad_magic(at_entry) <==> spec_tracks_stop_at_bad_magic(
                    data_seq.skip(position as int),
                ));
            }
        }
        proof {
            assert(data_seq.skip(position as int) =~= Seq::<u8>::empty());
            assert(spec_tracks_to(
                data_seq.skip(position as int),
                time_division,
                cur_tempo,
                Seq::<Track>::empty(),
                cur_tempo,
            ));
            assert(track_list@ + Seq::<Track>::empty() =~= track_list@);
        }
        Ok((track_list, cur_tempo))
    }

    /// Parse back-to-back `MTrk` chunks under the default division of 96
    /// pulses per quarter note and the default tempo.
    #[verifier::spinoff_prover]
    #[verifier::rlimit(60)]
    pub fn get_track_list(data: &[u8]) -> (r: Result<Vec<Track>, MidiError>)
        ensures
            (match r {
                Ok(tracks) => spec_parse_tracks_ok(data@) && spec_tracks_to_some(
                    data@,
                    TimeDivision::PulsesPerQuarterNote(96),
                    DEFAULT_TEMPO,
                    tracks@,
                ),
                Err(_) => !spec_parse_tracks_ok(data@),
            }),
            spec_tracks_stop_at_bad_magic(data@) ==> (r matches Err(e) && e
                == MidiError::ParseError(ParseError::InvalidHeader)),
    {
        let (track_list, final_tempo) = Track::parse_tracks(
            data,
            TimeDivision::PulsesPerQuarterNote(96),
            DEFAULT_TEMPO,
        )?;
        proof {
            assert(spec_tracks_to(
                data@,
                TimeDivision::PulsesPerQuarterNote(96),
                DEFAULT_TEMPO,
                track_list@,
                final_tempo,
            ));
            assert(spec_tracks_to_some(
                data@,
                TimeDivision::PulsesPerQuarterNote(96),
                DEFAULT_TEMPO,
                track_list@,
            ));
        }
        Ok(track_list)
    }

    /// The canonical serialization of this track: the `MTrk` magic, the byte
    /// count of the serialized events, and the events themselves, each with
    /// an explicit status byte. An event whose fields cannot be written, or
    /// a body of more bytes than the length field can hold, is an invalid
    /// state.
    pub fn to_bytes(&self) -> (r: Result<Vec<u8>, MidiError>)
        ensures
            r matches Ok(v) ==> v@ =~= spec_serialize_track(self.events@)
                && spec_serialize_events(self.events@).len() <= 0xFFFFFFFF,
            (forall|i: int| 0 <= i < self.events@.len() ==> (#[trigger] self.events@[i]).valid())
                && spec_serialize_events(self.events@).len() <= 0xFFFFFFFF ==> r is Ok,
    {
        let mut payload: Vec<u8> = Vec::new();
        let mut i: usize = 0;
        proof {
            assert(self.events@.take(0) =~= Seq::<SerializableEvent>::empty());
        }
        while i < self.events.len()
            invariant
                i <= self.events@.len(),
                payload@ =~= spec_serialize_events(self.events@.take(i as int)),
            decreases self.events@.len() - i,
        {
            let ghost done = self.events@.take(i as int);
            let mut event_bytes: Vec<u8> = (match self.events[i].to_bytes_delta_time() {
                Ok(v) => v,
                Err(e) => {
                    return Err(e);
                },
            });
            payload.append(&mut event_bytes);
            i = i + 1;
            proof {
                lemma_serialize_events_snoc(done, self.events@[i as int - 1]);
                assert(done.push(self.events@[i as int - 1]) =~= self.events@.take(i as int));
            }
        }
        proof {
            assert(self.events@.take(self.events@.len() as int) =~= self.events@);
        }
        if (payload.len() as u64) > 0xFFFFFFFFu64 {
            return Err(MidiError::EventError(EventError::InvalidEvent));
        }
        let size: u32 = payload.len() as u32;
        let mut bytes: Vec<u8> = vec![0x4Du8, 0x54u8, 0x72u8, 0x6Bu8];
        bytes.push((size / 0x1000000) as u8);
        bytes.push(((size / 0x10000) % 0x100) as u8);
        bytes.push(((size / 0x100) % 0x100) as u8);
        bytes.push((size % 0x100) as u8);
        bytes.append(&mut payload);
        Ok(bytes)
    }
}

/// The full serialization of a track whose events serialize to `payload`
/// bytes: magic, big-endian length, payload.
pub open spec fn spec_serialize_track(events: Seq<SerializableEvent>) -> Seq<u8> {
    let payload = spec_serialize_events(events);
    seq![0x4Du8, 0x54u8, 0x72u8, 0x6Bu8] + crate::bytereader::spec_u32_bytes_be(
        payload.len() as int,
    ) + payload
}

} // verus!
