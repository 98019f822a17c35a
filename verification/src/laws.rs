//! The laws of the codec: serializing and re-parsing a well-formed event
//! stream gives the stream back, parsed tracks close with one end-of-track,
//! a meta-event clears the running status, and every event's recorded size
//! matches its wire form.

use vstd::prelude::*;
use vstd::utf8::{
    decode_utf8, encode_utf8, encode_utf8_decode_utf8, encode_utf8_valid_utf8, valid_utf8,
};

use crate::events::SerializableEvent;
use crate::messages::lemma_status_byte;
use crate::metadata::TimeDivision;
use crate::metaevents::sequencer_specific::spec_parse_sequencer_specific;
use crate::metaevents::{
    lemma_vlq_round_trip, spec_parse_text_meta, spec_vlq_decode, spec_vlq_encode,
};
use crate::midi_error::MidiError;
use crate::bytereader::spec_u32_be;
use crate::track::{
    lemma_parses_to_kind, spec_event_duration, spec_event_parses_to, spec_final_tempo, spec_next_running_status,
    spec_next_tempo, spec_parse_event_ok, spec_parse_events_ok, spec_parse_events_to,
    spec_serialize_events, spec_serialize_track, spec_track_body, spec_track_declared_size,
    spec_track_events_valid, spec_track_header_ok, RunningStatus,
};

verus! {

/// A text-bearing meta-event laid out on the wire parses back to its own
/// text and sizes, whatever bytes follow it.
proof fn lemma_text_meta_wire(t: u8, text: Seq<char>, ts: u32, rest: Seq<u8>)
    requires
        ts == encode_utf8(text).len(),
        ts <= 0x0FFFFFFF,
    ensures
        ({
            let enc = spec_vlq_encode(ts as int);
            let data = (seq![0xFFu8, t] + enc + encode_utf8(text)) + rest;
            spec_parse_text_meta(data) == Ok::<(Seq<char>, u32, u32), MidiError>(
                (text, ts, (2 + enc.len() + ts) as u32),
            )
        }),
{
    let enc = spec_vlq_encode(ts as int);
    let utf8 = encode_utf8(text);
    let data = (seq![0xFFu8, t] + enc + utf8) + rest;
    let body = data.skip(2);
    assert(body =~= enc + (utf8 + rest));
    lemma_vlq_round_trip(ts, utf8 + rest);
    let n = enc.len() as int;
    assert(spec_vlq_decode(body) == Ok::<(u32, u8), MidiError>((ts, n as u8)));
    assert(body.len() >= n + ts);
    let payload = body.subrange(n, n + ts);
    assert(payload =~= utf8);
    broadcast use encode_utf8_valid_utf8;

    encode_utf8_decode_utf8(text);
    assert(valid_utf8(payload));
    assert(decode_utf8(payload) == text);
}

/// A sequencer-specific meta-event laid out on the wire parses back to its
/// own payload and sizes, whatever bytes follow it.
proof fn lemma_sequencer_specific_wire(payload: Seq<u8>, dl: u32, rest: Seq<u8>)
    requires
        dl == payload.len(),
        dl <= 0x0FFFFFFF,
    ensures
        ({
            let enc = spec_vlq_encode(dl as int);
            let data = (seq![0xFFu8, 0x7Fu8] + enc + payload) + rest;
            spec_parse_sequencer_specific(data) == Ok::<(Seq<u8>, u32, u32), MidiError>(
                (payload, dl, (2 + enc.len() + dl) as u32),
            )
        }),
{
    let enc = spec_vlq_encode(dl as int);
    let data = (seq![0xFFu8, 0x7Fu8] + enc + payload) + rest;
    let body = data.skip(2);
    assert(body =~= enc + (payload + rest));
    lemma_vlq_round_trip(dl, payload + rest);
    let n = enc.len() as int;
    assert(spec_vlq_decode(body) == Ok::<(u32, u8), MidiError>((dl, n as u8)));
    assert(body.len() >= n + dl);
    assert(body.subrange(n, n + dl) =~= payload);
}

/// A well-formed channel voice event on the wire parses back to itself.
#[verifier::spinoff_prover]
#[verifier::rlimit(100)]
proof fn lemma_voice_wire_parses_back(
    e: SerializableEvent,
    rest: Seq<u8>,
    division: TimeDivision,
    tempo: u32,
    rs: RunningStatus,
)
    requires
        e.valid(),
        e.spec_is_channel_voice(),
        e.spec_time_duration() == spec_event_duration(e.spec_delta_time(), division, tempo),
    ensures
        spec_parse_event_ok(e.wire() + rest, rs) == Some(e.wire().len() as int),
        spec_event_parses_to(e.wire() + rest, e.spec_delta_time(), division, tempo, rs, e),
{
    let data = e.wire() + rest;
    assert(forall|i: int| 0 <= i < e.wire().len() ==> data[i] == e.wire()[i]);
    match e {
        SerializableEvent::NoteOn(v) => {
            lemma_status_byte(0x90, v.channel);
            assert(data.skip(1)[0] == data[1]);
            assert(data.skip(1)[1] == data[2]);
        },
        SerializableEvent::NoteOff(v) => {
            lemma_status_byte(0x80, v.channel);
            assert(data.skip(1)[0] == data[1]);
            assert(data.skip(1)[1] == data[2]);
        },
        SerializableEvent::PolyphonicKeyPressure(v) => {
            lemma_status_byte(0xA0, v.channel);
            assert(data.skip(1)[0] == data[1]);
            assert(data.skip(1)[1] == data[2]);
        },
        SerializableEvent::ControlChange(v) => {
            lemma_status_byte(0xB0, v.channel);
            assert(data.skip(1)[0] == data[1]);
            assert(data.skip(1)[1] == data[2]);
        },
        SerializableEvent::ProgramChange(v) => {
            lemma_status_byte(0xC0, v.channel);
            assert(data.skip(1)[0] == data[1]);
        },
        SerializableEvent::ChannelPressure(v) => {
            lemma_status_byte(0xD0, v.channel);
            assert(data.skip(1)[0] == data[1]);
        },
        SerializableEvent::PitchBendChange(v) => {
            lemma_status_byte(0xE0, v.channel);
            assert(data.skip(1)[0] == data[1]);
            assert(data.skip(1)[1] == data[2]);
        },
        _ => {},
    }
}

/// A well-formed fixed-layout meta-event on the wire parses back to itself.
#[verifier::spinoff_prover]
#[verifier::rlimit(100)]
proof fn lemma_fixed_meta_wire_parses_back(
    e: SerializableEvent,
    rest: Seq<u8>,
    division: TimeDivision,
    tempo: u32,
    rs: RunningStatus,
)
    requires
        e.valid(),
        e is SequenceNumber || e is MidiChannelPrefix || e is MidiPort || e is EndOfTrack || e
            is SetTempo || e is SmpteOffset || e is TimeSignature || e is KeySignature,
        e.spec_time_duration() == spec_event_duration(e.spec_delta_time(), division, tempo),
    ensures
        spec_parse_event_ok(e.wire() + rest, rs) == Some(e.wire().len() as int),
        spec_event_parses_to(e.wire() + rest, e.spec_delta_time(), division, tempo, rs, e),
{
    let data = e.wire() + rest;
    assert(forall|i: int| 0 <= i < e.wire().len() ==> data[i] == e.wire()[i]);
    match e {
        SerializableEvent::SequenceNumber(v) => {
            assert(data[3] == (v.sequence_number / 0x100) as u8);
            assert(data[4] == (v.sequence_number % 0x100) as u8);
        },
        SerializableEvent::SetTempo(v) => {
            assert(data[3] == (v.tempo / 0x10000) as u8);
            assert(data[4] == ((v.tempo / 0x100) % 0x100) as u8);
            assert(data[5] == (v.tempo % 0x100) as u8);
        },
        _ => {},
    }
}

/// A well-formed length-prefixed meta-event on the wire parses back to
/// itself.
#[verifier::spinoff_prover]
#[verifier::rlimit(100)]
proof fn lemma_sized_meta_wire_parses_back(
    e: SerializableEvent,
    rest: Seq<u8>,
    division: TimeDivision,
    tempo: u32,
    rs: RunningStatus,
)
    requires
        e.valid(),
        e is Text || e is CopyrightNotice || e is TrackName || e is InstrumentName || e is Lyric
            || e is Marker || e is CuePoint || e is SequencerSpecific,
        e.spec_time_duration() == spec_event_duration(e.spec_delta_time(), division, tempo),
    ensures
        spec_parse_event_ok(e.wire() + rest, rs) == Some(e.wire().len() as int),
        spec_event_parses_to(e.wire() + rest, e.spec_delta_time(), division, tempo, rs, e),
{
    let data = e.wire() + rest;
    assert(forall|i: int| 0 <= i < e.wire().len() ==> data[i] == e.wire()[i]);
    match e {
        SerializableEvent::Text(v) => {
            assert(data =~= (seq![0xFFu8, 0x01u8] + spec_vlq_encode(v.text_size as int)
                + encode_utf8(v.text@)) + rest);
            lemma_text_meta_wire(0x01, v.text@, v.text_size, rest);
        },
        SerializableEvent::CopyrightNotice(v) => {
            assert(data =~= (seq![0xFFu8, 0x02u8] + spec_vlq_encode(v.text_size as int)
                + encode_utf8(v.copyright_notice@)) + rest);
            lemma_text_meta_wire(0x02, v.copyright_notice@, v.text_size, rest);
        },
        SerializableEvent::TrackName(v) => {
            assert(data =~= (seq![0xFFu8, 0x03u8] + spec_vlq_encode(v.text_size as int)
                + encode_utf8(v.track_name@)) + rest);
            lemma_text_meta_wire(0x03, v.track_name@, v.text_size, rest);
        },
        SerializableEvent::InstrumentName(v) => {
            assert(data =~= (seq![0xFFu8, 0x04u8] + spec_vlq_encode(v.text_size as int)
                + encode_utf8(v.instrument_name@)) + rest);
            lemma_text_meta_wire(0x04, v.instrument_name@, v.text_size, rest);
        },
        SerializableEvent::Lyric(v) => {
            assert(data =~= (seq![0xFFu8, 0x05u8] + spec_vlq_encode(v.text_size as int)
                + encode_utf8(v.lyric@)) + rest);
            lemma_text_meta_wire(0x05, v.lyric@, v.text_size, rest);
        },
        SerializableEvent::Marker(v) => {
            assert(data =~= (seq![0xFFu8, 0x06u8] + spec_vlq_encode(v.text_size as int)
                + encode_utf8(v.marker@)) + rest);
            lemma_text_meta_wire(0x06, v.marker@, v.text_size, rest);
        },
        SerializableEvent::CuePoint(v) => {
            assert(data =~= (seq![0xFFu8, 0x07u8] + spec_vlq_encode(v.text_size as int)
                + encode_utf8(v.cue_point@)) + rest);
            lemma_text_meta_wire(0x07, v.cue_point@, v.text_size, rest);
        },
        SerializableEvent::SequencerSpecific(v) => {
            assert(data =~= (seq![0xFFu8, 0x7Fu8] + spec_vlq_encode(v.data_length as int)
                + v.data@) + rest);
            lemma_sequencer_specific_wire(v.data@, v.data_length, rest);
        },
        _ => {},
    }
}

/// Every well-formed event, written on the wire with an explicit status
/// byte, parses back to itself under any running status, whatever bytes
/// follow it; the parse consumes exactly the wire form.
pub proof fn lemma_wire_parses_back(
    e: SerializableEvent,
    rest: Seq<u8>,
    division: TimeDivision,
    tempo: u32,
    rs: RunningStatus,
)
    requires
        e.valid(),
        e.spec_time_duration() == spec_event_duration(e.spec_delta_time(), division, tempo),
    ensures
        spec_parse_event_ok(e.wire() + rest, rs) == Some(e.wire().len() as int),
        spec_event_parses_to(e.wire() + rest, e.spec_delta_time(), division, tempo, rs, e),
{
    if e.spec_is_channel_voice() {
        lemma_voice_wire_parses_back(e, rest, division, tempo, rs);
    } else if e is Text || e is CopyrightNotice || e is TrackName || e is InstrumentName || e
        is Lyric || e is Marker || e is CuePoint || e is SequencerSpecific {
        lemma_sized_meta_wire_parses_back(e, rest, division, tempo, rs);
    } else {
        lemma_fixed_meta_wire_parses_back(e, rest, division, tempo, rs);
    }
}

/// The heart of the codec: parsing the canonical serialization of a
/// well-formed event stream yields exactly that stream, under any starting
/// running status, and leaves the tempo where the stream's set-tempo events
/// put it.
pub proof fn lemma_parse_serialize_events(
    events: Seq<SerializableEvent>,
    division: TimeDivision,
    tempo: u32,
    rs: RunningStatus,
)
    requires
        spec_track_events_valid(events, division, tempo),
    ensures
        spec_parse_events_ok(spec_serialize_events(events), rs),
        spec_parse_events_to(
            spec_serialize_events(events),
            division,
            tempo,
            rs,
            events,
            spec_final_tempo(events, tempo),
        ),
    decreases events.len(),
{
    let e = events[0];
    let enc = spec_vlq_encode(e.spec_delta_time() as int);
    let wire = e.wire();
    let tail = spec_serialize_events(events.drop_first());
    let data = spec_serialize_events(events);
    assert(data =~= enc + (wire + tail));
    lemma_vlq_round_trip(e.spec_delta_time(), wire + tail);
    let n = enc.len() as int;
    assert(spec_vlq_decode(data) == Ok::<(u32, u8), MidiError>((e.spec_delta_time(), n as u8)));
    let rest = data.skip(n);
    assert(rest =~= wire + tail);
    lemma_wire_parses_back(e, tail, division, tempo, rs);
    let consumed = wire.len() as int;
    lemma_parses_to_kind(rest, e.spec_delta_time(), division, tempo, rs, e, tempo);
    if events.len() == 1 {
        assert(spec_serialize_events(events.drop_first()) =~= Seq::<u8>::empty());
        assert(rest.len() == consumed);
        assert(spec_final_tempo(events.drop_first(), tempo) == tempo);
    } else {
        let tempo2 = spec_next_tempo(rest, tempo);
        let rs2 = spec_next_running_status(rest, rs);
        assert(tempo2 == (match e {
            SerializableEvent::SetTempo(st) => st.tempo,
            _ => tempo,
        }));
        lemma_parse_serialize_events(events.drop_first(), division, tempo2, rs2);
        assert(rest.skip(consumed) =~= tail);
        assert(spec_final_tempo(events, tempo) == spec_final_tempo(events.drop_first(), tempo2));
    }
}

/// The same round trip at track level: wrapping a well-formed event stream in an `MTrk`
/// chunk with its computed length gives bytes whose header is well formed,
/// whose declared size is the stream's byte count, and whose body parses
/// back to exactly the stream.
pub proof fn lemma_parse_serialize_track(
    events: Seq<SerializableEvent>,
    division: TimeDivision,
    tempo: u32,
)
    requires
        spec_track_events_valid(events, division, tempo),
        spec_serialize_events(events).len() <= 0xFFFFFFFF,
    ensures
        ({
            let bytes = spec_serialize_track(events);
            &&& spec_track_header_ok(bytes)
            &&& spec_track_declared_size(bytes) == spec_serialize_events(events).len()
            &&& spec_track_body(bytes) == spec_serialize_events(events)
            &&& spec_parse_events_ok(spec_track_body(bytes), None)
            &&& spec_parse_events_to(
                spec_track_body(bytes),
                division,
                tempo,
                None,
                events,
                spec_final_tempo(events, tempo),
            )
        }),
{
    let payload = spec_serialize_events(events);
    let l = payload.len() as int;
    let bytes = spec_serialize_track(events);
    assert(bytes[4] == ((l / 0x1000000) % 0x100) as u8);
    assert(bytes[5] == ((l / 0x10000) % 0x100) as u8);
    assert(bytes[6] == ((l / 0x100) % 0x100) as u8);
    assert(bytes[7] == (l % 0x100) as u8);
    assert(spec_u32_be(bytes[4], bytes[5], bytes[6], bytes[7]) == l);
    assert(spec_track_body(bytes) =~= payload);
    lemma_parse_serialize_events(events, division, tempo, None);
}

/// A parsed track's event sequence closes with exactly one end-of-track
/// event, and no event follows it.
pub proof fn lemma_parsed_track_ends_with_end_of_track(
    data: Seq<u8>,
    division: TimeDivision,
    tempo: u32,
    rs: RunningStatus,
    events: Seq<SerializableEvent>,
    tf: u32,
)
    requires
        spec_parse_events_to(data, division, tempo, rs, events, tf),
    ensures
        events.len() >= 1,
        events[events.len() - 1] is EndOfTrack,
        forall|i: int| 0 <= i < events.len() - 1 ==> !((#[trigger] events[i]) is EndOfTrack),
    decreases data.len(),
{
    let decoded = spec_vlq_decode(data);
    match decoded {
        Err(_) => {},
        Ok((delta, n)) => {
            let rest = data.skip(n as int);
            match spec_parse_event_ok(rest, rs) {
                None => {},
                Some(consumed) => {
                    lemma_parses_to_kind(rest, delta, division, tempo, rs, events[0], tempo);
                    if rest.len() >= 2 && rest[0] == 0xFF && rest[1] == 0x2F {
                    } else {
                        lemma_parsed_track_ends_with_end_of_track(
                            rest.skip(consumed),
                            division,
                            spec_next_tempo(rest, tempo),
                            spec_next_running_status(rest, rs),
                            events.drop_first(),
                            tf,
                        );
                        assert(events[events.len() - 1] == events.drop_first()[events.len() - 2]);
                        assert(forall|i: int|
                            1 <= i < events.len() - 1 ==> events[i] == events.drop_first()[i - 1]);
                    }
                },
            }
        },
    }
}

/// Any meta-event clears the running status.
pub proof fn lemma_meta_clears_running_status(data: Seq<u8>, rs: RunningStatus)
    requires
        data.len() >= 1,
        data[0] == 0xFF,
    ensures
        spec_next_running_status(data, rs) is None,
{
}

/// With no running status held, a token that begins with a
/// data byte parses to nothing, so the channel voice event after a
/// meta-event must begin with an explicit status byte.
pub proof fn lemma_data_byte_needs_running_status(data: Seq<u8>)
    requires
        data.len() >= 1,
        data[0] < 0x80,
    ensures
        spec_parse_event_ok(data, None) is None,
{
}

/// A well-formed event's recorded size is the byte count of its wire
/// form, the serialization without the leading delta time.
pub proof fn lemma_encoded_size_matches_wire(e: SerializableEvent)
    requires
        e.valid(),
    ensures
        e.wire().len() == e.spec_event_size(),
{
}

/// That two events carry the same content: equal fields, with the texts and
/// opaque payloads compared as their character and byte sequences.
pub open spec fn spec_same_event(a: SerializableEvent, b: SerializableEvent) -> bool {
    match (a, b) {
        (SerializableEvent::Text(x), SerializableEvent::Text(y)) => x.text@ == y.text@
            && x.text_size == y.text_size && x.event_size == y.event_size && x.delta_time
            == y.delta_time && x.time_duration == y.time_duration,
        (SerializableEvent::CopyrightNotice(x), SerializableEvent::CopyrightNotice(y)) => x.copyright_notice@
            == y.copyright_notice@ && x.text_size == y.text_size && x.event_size == y.event_size
            && x.delta_time == y.delta_time && x.time_duration == y.time_duration,
        (SerializableEvent::TrackName(x), SerializableEvent::TrackName(y)) => x.track_name@
            == y.track_name@ && x.text_size == y.text_size && x.event_size == y.event_size
            && x.delta_time == y.delta_time && x.time_duration == y.time_duration,
        (SerializableEvent::InstrumentName(x), SerializableEvent::InstrumentName(y)) => x.instrument_name@
            == y.instrument_name@ && x.text_size == y.text_size && x.event_size == y.event_size
            && x.delta_time == y.delta_time && x.time_duration == y.time_duration,
        (SerializableEvent::Lyric(x), SerializableEvent::Lyric(y)) => x.lyric@ == y.lyric@
            && x.text_size == y.text_size && x.event_size == y.event_size && x.delta_time
            == y.delta_time && x.time_duration == y.time_duration,
        (SerializableEvent::Marker(x), SerializableEvent::Marker(y)) => x.marker@ == y.marker@
            && x.text_size == y.text_size && x.event_size == y.event_size && x.delta_time
            == y.delta_time && x.time_duration == y.time_duration,
        (SerializableEvent::CuePoint(x), SerializableEvent::CuePoint(y)) => x.cue_point@
            == y.cue_point@ && x.text_size == y.text_size && x.event_size == y.event_size
            && x.delta_time == y.delta_time && x.time_duration == y.time_duration,
        (SerializableEvent::SequencerSpecific(x), SerializableEvent::SequencerSpecific(y)) => x.data@
            == y.data@ && x.data_length == y.data_length && x.event_size == y.event_size
            && x.delta_time == y.delta_time && x.time_duration == y.time_duration,
        _ => a == b,
    }
}

/// What one token of bytes parses to is unique up to content.
#[verifier::spinoff_prover]
#[verifier::rlimit(100)]
proof fn lemma_parses_to_unique(
    rest: Seq<u8>,
    delta: u32,
    division: TimeDivision,
    tempo: u32,
    rs: RunningStatus,
    a: SerializableEvent,
    b: SerializableEvent,
)
    requires
        rest.len() >= 1,
        spec_event_parses_to(rest, delta, division, tempo, rs, a),
        spec_event_parses_to(rest, delta, division, tempo, rs, b),
    ensures
        spec_same_event(a, b),
{
}

/// Events with the same content serialize to the same bytes.
proof fn lemma_same_event_same_bytes(a: SerializableEvent, b: SerializableEvent)
    requires
        spec_same_event(a, b),
    ensures
        crate::track::spec_event_bytes(a) == crate::track::spec_event_bytes(b),
{
    assert(a.wire() =~= b.wire());
    assert(crate::track::spec_event_bytes(a) =~= crate::track::spec_event_bytes(b));
}

/// Parsing is deterministic: one byte stream parses to one event sequence,
/// up to content, and one final tempo.
pub proof fn lemma_parse_events_deterministic(
    data: Seq<u8>,
    division: TimeDivision,
    tempo: u32,
    rs: RunningStatus,
    ev1: Seq<SerializableEvent>,
    tf1: u32,
    ev2: Seq<SerializableEvent>,
    tf2: u32,
)
    requires
        spec_parse_events_to(data, division, tempo, rs, ev1, tf1),
        spec_parse_events_to(data, division, tempo, rs, ev2, tf2),
    ensures
        ev1.len() == ev2.len(),
        forall|i: int| 0 <= i < ev1.len() ==> spec_same_event(#[trigger] ev1[i], ev2[i]),
        tf1 == tf2,
    decreases data.len(),
{
    match spec_vlq_decode(data) {
        Err(_) => {},
        Ok((delta, n)) => {
            let rest = data.skip(n as int);
            match spec_parse_event_ok(rest, rs) {
                None => {},
                Some(consumed) => {
                    lemma_parses_to_unique(rest, delta, division, tempo, rs, ev1[0], ev2[0]);
                    if rest.len() >= 2 && rest[0] == 0xFF && rest[1] == 0x2F {
                    } else {
                        lemma_parse_events_deterministic(
                            rest.skip(consumed),
                            division,
                            spec_next_tempo(rest, tempo),
                            spec_next_running_status(rest, rs),
                            ev1.drop_first(),
                            tf1,
                            ev2.drop_first(),
                            tf2,
                        );
                        assert(forall|i: int|
                            1 <= i < ev1.len() ==> ev1[i] == ev1.drop_first()[i - 1] && ev2[i]
                                == ev2.drop_first()[i - 1]);
                    }
                },
            }
        },
    }
}

/// Pointwise same content gives the same serialization.
proof fn lemma_serialize_respects_same_events(
    a: Seq<SerializableEvent>,
    b: Seq<SerializableEvent>,
)
    requires
        a.len() == b.len(),
        forall|i: int| 0 <= i < a.len() ==> spec_same_event(#[trigger] a[i], b[i]),
    ensures
        spec_serialize_events(a) == spec_serialize_events(b),
    decreases a.len(),
{
    if a.len() > 0 {
        lemma_same_event_same_bytes(a[0], b[0]);
        assert(forall|i: int|
            0 <= i < a.len() - 1 ==> a.drop_first()[i] == a[i + 1] && b.drop_first()[i] == b[i
                + 1]);
        lemma_serialize_respects_same_events(a.drop_first(), b.drop_first());
    }
}

/// On a byte stream in canonical form, one that is itself the
/// serialization of a well-formed event stream, serializing what the parser
/// yields reproduces the input byte for byte; and the decoded sequence
/// matches the serialized stream, event for event. A stream that uses
/// running status or non-canonical delta encodings lies outside this
/// statement: re-serializing it writes every status byte out and every
/// delta canonically.
pub proof fn lemma_serialize_parse_round_trip(
    events0: Seq<SerializableEvent>,
    division: TimeDivision,
    tempo: u32,
    rs: RunningStatus,
    events: Seq<SerializableEvent>,
    tf: u32,
)
    requires
        spec_track_events_valid(events0, division, tempo),
        spec_parse_events_to(spec_serialize_events(events0), division, tempo, rs, events, tf),
    ensures
        events.len() == events0.len(),
        forall|i: int| 0 <= i < events.len() ==> spec_same_event(#[trigger] events[i], events0[i]),
        tf == spec_final_tempo(events0, tempo),
        spec_serialize_events(events) == spec_serialize_events(events0),
{
    lemma_parse_serialize_events(events0, division, tempo, rs);
    lemma_parse_events_deterministic(
        spec_serialize_events(events0),
        division,
        tempo,
        rs,
        events,
        tf,
        events0,
        spec_final_tempo(events0, tempo),
    );
    lemma_serialize_respects_same_events(events, events0);
}

/// A well-formed header, serialized, parses back to itself, whatever bytes
/// follow it.
#[verifier::spinoff_prover]
proof fn lemma_header_parses_back(h: crate::metadata::MetaData, rest: Seq<u8>)
    requires
        crate::midi::spec_header_valid(h),
    ensures
        crate::metadata::spec_parse_metadata(crate::midi::spec_serialize_header(h) + rest)
            == Ok::<crate::metadata::MetaData, MidiError>(h),
        (crate::midi::spec_serialize_header(h) + rest).skip(14) =~= rest,
        crate::midi::spec_serialize_header(h).len() == 14,
{
    let hdr = crate::midi::spec_serialize_header(h);
    let data = hdr + rest;
    assert(forall|i: int| 0 <= i < hdr.len() ==> data[i] == hdr[i]);
    assert(h.num_of_tracks / 0x100 * 0x100 + h.num_of_tracks % 0x100 == h.num_of_tracks);
    match h.time_division {
        crate::metadata::TimeDivision::PulsesPerQuarterNote(p) => {
            assert(data[12] == (p / 0x100) as u8);
            assert(data[13] == (p % 0x100) as u8);
            assert(p / 0x100 * 0x100 + p % 0x100 == p);
        },
        crate::metadata::TimeDivision::SMPTE(fps, ticks_per_frame) => {
            assert(data[12] == (256 - fps) as u8);
        },
    }
}

/// A list of well-formed tracks, serialized chunk after chunk, parses back
/// to itself.
#[verifier::spinoff_prover]
#[verifier::rlimit(100)]
pub proof fn lemma_parse_serialize_tracks(
    tracks: Seq<crate::track::Track>,
    division: TimeDivision,
    tempo: u32,
)
    requires
        crate::midi::spec_file_tracks_valid(tracks, division, tempo),
    ensures
        ({
            let bytes = crate::midi::spec_serialize_tracks(tracks);
            &&& crate::track::spec_parse_tracks_ok(bytes)
            &&& crate::track::spec_num_tracks(bytes) == tracks.len()
            &&& crate::track::spec_tracks_to(
                bytes,
                division,
                tempo,
                tracks,
                crate::midi::spec_file_final_tempo(tracks, tempo),
            )
        }),
    decreases tracks.len(),
{
    let bytes = crate::midi::spec_serialize_tracks(tracks);
    if tracks.len() == 0 {
        assert(bytes.len() == 0);
    } else {
        let t = tracks[0];
        let chunk = spec_serialize_track(t.events@);
        let tail_tracks = tracks.drop_first();
        let tempo2 = spec_final_tempo(t.events@, tempo);
        let tail_bytes = crate::midi::spec_serialize_tracks(tail_tracks);
        assert(bytes =~= chunk + tail_bytes);
        lemma_parse_serialize_track(t.events@, division, tempo);
        assert(forall|i: int| 0 <= i < chunk.len() ==> bytes[i] == chunk[i]);
        assert(chunk.len() == 8 + spec_serialize_events(t.events@).len());
        assert(spec_track_header_ok(bytes));
        assert(spec_track_declared_size(bytes) == spec_track_declared_size(chunk));
        assert(spec_track_body(bytes) =~= spec_track_body(chunk));
        assert(bytes.skip(8 + spec_track_declared_size(bytes)) =~= tail_bytes);
        lemma_parse_serialize_tracks(tail_tracks, division, tempo2);
        assert(crate::track::spec_tracks_to(
            bytes,
            division,
            tempo,
            tracks,
            crate::midi::spec_file_final_tempo(tracks, tempo),
        )) by {
            assert(crate::track::spec_parse_events_to(
                spec_track_body(bytes),
                division,
                tempo,
                None,
                tracks[0].events@,
                tempo2,
            ));
            assert(crate::track::spec_tracks_to(
                bytes.skip(8 + spec_track_declared_size(bytes)),
                division,
                tempo2,
                tail_tracks,
                crate::midi::spec_file_final_tempo(tracks, tempo),
            ));
        };
    }
}

/// The round trip at file level: serializing a well-formed file and parsing the bytes
/// back yields the same header and the same tracks.
pub proof fn lemma_parse_serialize_file(
    header: crate::metadata::MetaData,
    tracks: Seq<crate::track::Track>,
    tempo: u32,
)
    requires
        crate::midi::spec_header_valid(header),
        crate::midi::spec_file_tracks_valid(tracks, header.time_division, tempo),
        tracks.len() == header.num_of_tracks,
    ensures
        ({
            let bytes = crate::midi::spec_serialize_file(header, tracks);
            &&& crate::metadata::spec_parse_metadata(bytes) == Ok::<
                crate::metadata::MetaData,
                MidiError,
            >(header)
            &&& crate::track::spec_parse_tracks_ok(bytes.skip(14))
            &&& crate::track::spec_num_tracks(bytes.skip(14)) == header.num_of_tracks
            &&& crate::track::spec_tracks_to(
                bytes.skip(14),
                header.time_division,
                tempo,
                tracks,
                crate::midi::spec_file_final_tempo(tracks, tempo),
            )
        }),
{
    let track_bytes = crate::midi::spec_serialize_tracks(tracks);
    lemma_header_parses_back(header, track_bytes);
    let bytes = crate::midi::spec_serialize_file(header, tracks);
    assert(bytes =~= crate::midi::spec_serialize_header(header) + track_bytes);
    assert(bytes.skip(14) =~= track_bytes);
    lemma_parse_serialize_tracks(tracks, header.time_division, tempo);
}

} // verus!
