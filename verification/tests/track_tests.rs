use midi::events::SerializableEvent;
use midi::metaevents::key_signature::{Accidentals, Key, Mode};
use midi::metadata::TimeDivision;
use midi::metaevents::TimeSignature;
use midi::midi_error::{MidiError, ParseError};
use midi::track::Track;

fn track_bytes(payload: &[u8]) -> Vec<u8> {
    let mut bytes: Vec<u8> = b"MTrk".to_vec();
    bytes.extend_from_slice(&(payload.len() as u32).to_be_bytes());
    bytes.extend_from_slice(payload);
    bytes
}

fn parse_track(payload: &[u8]) -> Result<(Track, u32, TimeSignature), MidiError> {
    let bytes = track_bytes(payload);
    Track::new(
        &bytes,
        TimeDivision::PulsesPerQuarterNote(96),
        500000,
        TimeSignature::new(4, 4).unwrap(),
    )
}

#[test]
fn running_status_reuses_the_held_status() {
    // A Note On, then its data bytes again without a status byte
    let payload = [
        0x00, 0x90, 0x3C, 0x40, 0x60, 0x3C, 0x00, 0x00, 0xFF, 0x2F, 0x00,
    ];
    let (track, _tempo, _ts) = parse_track(&payload).unwrap();
    assert_eq!(track.events.len(), 3);
    match &track.events[0] {
        SerializableEvent::NoteOn(e) => {
            assert_eq!(e.channel, 0);
            assert_eq!(e.midi_note, 60);
            assert_eq!(e.velocity, 64);
            assert_eq!(e.delta_time, 0);
        },
        other => panic!("expected a note on, got {:?}", other),
    }
    match &track.events[1] {
        SerializableEvent::NoteOn(e) => {
            assert_eq!(e.channel, 0);
            assert_eq!(e.midi_note, 60);
            assert_eq!(e.velocity, 0);
            assert_eq!(e.delta_time, 96);
        },
        other => panic!("expected a running-status note on, got {:?}", other),
    }
    assert!(matches!(&track.events[2], SerializableEvent::EndOfTrack(_)));
}

#[test]
fn running_status_without_a_held_status_is_rejected() {
    let payload = [0x00, 0x3C, 0x40, 0x00, 0xFF, 0x2F, 0x00];
    let result = parse_track(&payload);
    assert!(matches!(
        result,
        Err(MidiError::ParseError(ParseError::InvalidEventBytes(_)))
    ));
}

#[test]
fn meta_event_clears_the_running_status() {
    // Note On, then a marker meta-event, then data bytes with no explicit
    // status: the meta-event cleared the running status, so this must fail
    let payload = [
        0x00, 0x90, 0x3C, 0x40, 0x00, 0xFF, 0x06, 0x02, 0x48, 0x69, 0x00, 0x3C, 0x40, 0x00, 0xFF,
        0x2F, 0x00,
    ];
    let result = parse_track(&payload);
    assert!(matches!(
        result,
        Err(MidiError::ParseError(ParseError::InvalidEventBytes(_)))
    ));
}

#[test]
fn set_tempo_event_carries_microseconds() {
    let payload = [0x00, 0xFF, 0x51, 0x03, 0x07, 0xA1, 0x20, 0x00, 0xFF, 0x2F, 0x00];
    let (track, tempo, _ts) = parse_track(&payload).unwrap();
    match &track.events[0] {
        SerializableEvent::SetTempo(e) => {
            assert_eq!(e.delta_time, 0);
            assert_eq!(e.tempo, 500000);
            // 500000 microseconds per quarter note is 120 beats per minute
            assert_eq!(60_000_000 / e.tempo, 120);
        },
        other => panic!("expected a set tempo, got {:?}", other),
    }
    assert_eq!(tempo, 500000);
}

#[test]
fn time_signature_event_decodes_its_payload() {
    let payload = [0x00, 0xFF, 0x58, 0x04, 0x06, 0x03, 0x24, 0x08, 0x00, 0xFF, 0x2F, 0x00];
    let (track, _tempo, _ts) = parse_track(&payload).unwrap();
    match &track.events[0] {
        SerializableEvent::TimeSignature(e) => {
            assert_eq!(e.numerator, 6);
            assert_eq!(e.denominator, 8);
            assert_eq!(e.metronome_clicks, 0x24);
            assert_eq!(e.num_of_32nd_notes_per_quarter, 8);
        },
        other => panic!("expected a time signature, got {:?}", other),
    }
}

#[test]
fn key_signature_event_decodes_its_payload() {
    let payload = [0x00, 0xFF, 0x59, 0x02, 0xFF, 0x00, 0x00, 0xFF, 0x2F, 0x00];
    let (track, _tempo, _ts) = parse_track(&payload).unwrap();
    match &track.events[0] {
        SerializableEvent::KeySignature(e) => {
            assert_eq!(e.key_signature.num_of_accidentals, -1);
            assert_eq!(e.key_signature.mode, Mode::Major);
            assert_eq!(e.key_signature.key, Key::F);
            assert_eq!(e.key_signature.accidental, Accidentals::Natural);
        },
        other => panic!("expected a key signature, got {:?}", other),
    }
}

#[test]
fn every_parsed_track_ends_with_one_end_of_track() {
    let payload = [
        0x00, 0x90, 0x3C, 0x40, 0x10, 0x80, 0x3C, 0x00, 0x00, 0xFF, 0x2F, 0x00,
    ];
    let (track, _tempo, _ts) = parse_track(&payload).unwrap();
    assert!(matches!(
        track.events.last().unwrap(),
        SerializableEvent::EndOfTrack(_)
    ));
    for event in &track.events[..track.events.len() - 1] {
        assert!(!matches!(event, SerializableEvent::EndOfTrack(_)));
    }
}

#[test]
fn data_after_end_of_track_is_rejected() {
    let payload = [0x00, 0xFF, 0x2F, 0x00, 0x00, 0x90, 0x3C, 0x40];
    let result = parse_track(&payload);
    assert!(matches!(
        result,
        Err(MidiError::ParseError(ParseError::InvalidEventBytes(_)))
    ));
}

#[test]
fn a_track_without_end_of_track_is_rejected() {
    let payload = [0x00, 0x90, 0x3C, 0x40];
    let result = parse_track(&payload);
    assert!(matches!(
        result,
        Err(MidiError::ParseError(ParseError::InvalidEventBytes(_)))
    ));
}

#[test]
fn an_unknown_meta_type_is_rejected() {
    let payload = [0x00, 0xFF, 0x60, 0x00, 0x00, 0xFF, 0x2F, 0x00];
    let result = parse_track(&payload);
    assert!(matches!(
        result,
        Err(MidiError::ParseError(ParseError::NotImplemented(_)))
    ));
}

#[test]
fn a_system_status_byte_is_rejected() {
    let payload = [0x00, 0xF0, 0x01, 0xF7, 0x00, 0xFF, 0x2F, 0x00];
    let result = parse_track(&payload);
    assert!(matches!(
        result,
        Err(MidiError::ParseError(ParseError::NotImplemented(_)))
    ));
}

#[test]
fn a_wrong_chunk_magic_is_rejected() {
    let mut bytes = b"MTrj".to_vec();
    bytes.extend_from_slice(&4u32.to_be_bytes());
    bytes.extend_from_slice(&[0x00, 0xFF, 0x2F, 0x00]);
    let result = Track::new(
        &bytes,
        TimeDivision::PulsesPerQuarterNote(96),
        500000,
        TimeSignature::new(4, 4).unwrap(),
    );
    assert!(matches!(
        result,
        Err(MidiError::ParseError(ParseError::InvalidHeader))
    ));
}

#[test]
fn serialize_then_parse_gives_the_events_back() {
    // An assortment of event kinds, written out and read back
    let payload = [
        0x00, 0xFF, 0x03, 0x05, 0x44, 0x72, 0x75, 0x6D, 0x73, // track name "Drums"
        0x00, 0xFF, 0x51, 0x03, 0x07, 0xA1, 0x20, // tempo 500000
        0x00, 0xC0, 0x09, // program change
        0x00, 0x90, 0x3C, 0x40, // note on
        0x81, 0x40, 0x80, 0x3C, 0x00, // note off after 192 ticks
        0x00, 0xE5, 0x10, 0x7F, // pitch bend on channel 5
        0x00, 0xFF, 0x2F, 0x00, // end of track
    ];
    let (track, _tempo, _ts) = parse_track(&payload).unwrap();
    let bytes = track.to_bytes().unwrap();
    assert_eq!(bytes, track_bytes(&payload));

    let (track2, _tempo2, _ts2) = Track::new(
        &bytes,
        TimeDivision::PulsesPerQuarterNote(96),
        500000,
        TimeSignature::new(4, 4).unwrap(),
    )
    .unwrap();
    assert_eq!(track.events, track2.events);
    assert_eq!(track.track_size, track2.track_size);
}

#[test]
fn encoded_size_matches_the_serialized_form() {
    let payload = [
        0x00, 0xFF, 0x06, 0x02, 0x48, 0x69, // marker "Hi"
        0x00, 0x91, 0x45, 0x21, // note on
        0x00, 0xD1, 0x33, // channel pressure
        0x00, 0xFF, 0x2F, 0x00,
    ];
    let (track, _tempo, _ts) = parse_track(&payload).unwrap();
    for event in &track.events {
        let wire = event.to_bytes().unwrap();
        assert_eq!(event.get_event_size() as usize, wire.len());
    }
}

#[test]
fn get_track_list_reads_consecutive_chunks() {
    let mut bytes = track_bytes(&[0x00, 0x90, 0x3C, 0x40, 0x00, 0x80, 0x3C, 0x00, 0x00, 0xFF, 0x2F, 0x00]);
    bytes.extend_from_slice(&track_bytes(&[0x00, 0xFF, 0x2F, 0x00]));
    let tracks = Track::get_track_list(&bytes).unwrap();
    assert_eq!(tracks.len(), 2);
    assert_eq!(tracks[0].events.len(), 3);
    assert_eq!(tracks[1].events.len(), 1);
}

#[test]
fn tempo_threads_from_track_to_track() {
    let mut bytes = track_bytes(&[0x00, 0xFF, 0x51, 0x03, 0x03, 0x0D, 0x40, 0x00, 0xFF, 0x2F, 0x00]);
    bytes.extend_from_slice(&track_bytes(&[0x60, 0xFF, 0x2F, 0x00]));
    let (tracks, tempo) = Track::parse_tracks(
        &bytes,
        TimeDivision::PulsesPerQuarterNote(96),
        500000,
    )
    .unwrap();
    assert_eq!(tempo, 200000);
    // The second track's end-of-track spans 96 ticks at 200000 microseconds
    // per quarter note of 96 ticks: exactly 200000 microseconds
    match &tracks[1].events[0] {
        SerializableEvent::EndOfTrack(e) => assert_eq!(e.get_time_duration(), 200000),
        other => panic!("expected an end of track, got {:?}", other),
    }
}
