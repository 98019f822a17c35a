use midi::events::SerializableEvent;
use midi::metadata::{FileFormat, TimeDivision};
use midi::midi::MidiFile;
use midi::midi_error::{MidiError, ParseError};
use midi::Midi;

const MINIMAL_FORMAT_0: [u8; 26] = [
    0x4D, 0x54, 0x68, 0x64, 0x00, 0x00, 0x00, 0x06, 0x00, 0x00, 0x00, 0x01, 0x00, 0x60, 0x4D,
    0x54, 0x72, 0x6B, 0x00, 0x00, 0x00, 0x04, 0x00, 0xFF, 0x2F, 0x00,
];

#[test]
fn minimal_format_0_file_parses() {
    let file = MidiFile::new_from_data(&MINIMAL_FORMAT_0).unwrap();
    assert_eq!(file.header.file_format, FileFormat::SINGLE_TRACK);
    assert_eq!(file.header.num_of_tracks, 1);
    assert_eq!(file.header.time_division, TimeDivision::PulsesPerQuarterNote(96));
    assert_eq!(file.tracks.len(), 1);
    assert_eq!(file.tracks[0].events.len(), 1);
    match &file.tracks[0].events[0] {
        SerializableEvent::EndOfTrack(e) => assert_eq!(e.delta_time, 0),
        other => panic!("expected an end of track, got {:?}", other),
    }
}

#[test]
fn track_count_matches_the_header() {
    let file = MidiFile::new_from_data(&MINIMAL_FORMAT_0).unwrap();
    assert_eq!(file.tracks.len(), file.header.num_of_tracks as usize);
}

#[test]
fn a_track_count_mismatch_is_rejected() {
    // The header promises two tracks but only one chunk follows
    let mut data: Vec<u8> = vec![
        0x4D, 0x54, 0x68, 0x64, 0x00, 0x00, 0x00, 0x06, 0x00, 0x01, 0x00, 0x02, 0x00, 0x60,
    ];
    data.extend_from_slice(&[0x4D, 0x54, 0x72, 0x6B, 0x00, 0x00, 0x00, 0x04, 0x00, 0xFF, 0x2F, 0x00]);
    let result = MidiFile::new_from_data(&data);
    assert!(matches!(
        result,
        Err(MidiError::ParseError(ParseError::InvalidNumOfTracks))
    ));
}

#[test]
fn serialize_after_parse_is_byte_identical() {
    let file = MidiFile::new_from_data(&MINIMAL_FORMAT_0).unwrap();
    let bytes = file.to_bytes().unwrap();
    assert_eq!(bytes, MINIMAL_FORMAT_0.to_vec());
}

#[test]
fn parse_after_serialize_gives_the_file_back() {
    // A two-track file with several event kinds, all statuses explicit
    let mut data: Vec<u8> = vec![
        0x4D, 0x54, 0x68, 0x64, 0x00, 0x00, 0x00, 0x06, 0x00, 0x01, 0x00, 0x02, 0x00, 0x60,
    ];
    let payload1: &[u8] = &[
        0x00, 0xFF, 0x58, 0x04, 0x04, 0x02, 0x18, 0x08, // time signature 4/4
        0x00, 0xFF, 0x51, 0x03, 0x07, 0xA1, 0x20, // tempo 500000
        0x00, 0xFF, 0x2F, 0x00,
    ];
    let payload2: &[u8] = &[
        0x00, 0x92, 0x40, 0x50, // note on, channel 2
        0x83, 0x00, 0x82, 0x40, 0x00, // note off after 384 ticks
        0x00, 0xFF, 0x2F, 0x00,
    ];
    for payload in [payload1, payload2] {
        data.extend_from_slice(b"MTrk");
        data.extend_from_slice(&(payload.len() as u32).to_be_bytes());
        data.extend_from_slice(payload);
    }

    let file = MidiFile::new_from_data(&data).unwrap();
    let bytes = file.to_bytes().unwrap();
    assert_eq!(bytes, data);

    let file2 = MidiFile::new_from_data(&bytes).unwrap();
    assert_eq!(file, file2);
}

#[test]
fn smpte_division_reaches_the_file_header() {
    let data: Vec<u8> = vec![
        0x4D, 0x54, 0x68, 0x64, 0x00, 0x00, 0x00, 0x06, 0x00, 0x00, 0x00, 0x01, 0xE8, 0x02, 0x4D,
        0x54, 0x72, 0x6B, 0x00, 0x00, 0x00, 0x04, 0x00, 0xFF, 0x2F, 0x00,
    ];
    let file = MidiFile::new_from_data(&data).unwrap();
    assert_eq!(file.header.time_division, TimeDivision::SMPTE(24, 2));
}

#[test]
fn midi_facade_parses_bytes_and_keeps_its_name() {
    let m = Midi::new_from_bytes(String::from("minimal.mid"), &MINIMAL_FORMAT_0).unwrap();
    assert_eq!(m.midi_file, "minimal.mid");
    assert_eq!(m.meta_data.num_of_tracks, 1);
    assert_eq!(m.tempo, 500000);
    assert_eq!(m.time_signature.numerator, 4);
    assert_eq!(m.time_signature.denominator, 4);
    assert_eq!(m.track_list.len(), 1);
}

#[test]
fn a_truncated_file_is_rejected() {
    let result = MidiFile::new_from_data(&MINIMAL_FORMAT_0[..20]);
    assert!(result.is_err());
}

#[test]
fn midi_facade_rejects_a_track_count_mismatch() {
    // The header promises two tracks but only one chunk follows
    let mut data: Vec<u8> = vec![
        0x4D, 0x54, 0x68, 0x64, 0x00, 0x00, 0x00, 0x06, 0x00, 0x01, 0x00, 0x02, 0x00, 0x60,
    ];
    data.extend_from_slice(&[0x4D, 0x54, 0x72, 0x6B, 0x00, 0x00, 0x00, 0x04, 0x00, 0xFF, 0x2F, 0x00]);
    let result = Midi::new_from_bytes(String::from("short.mid"), &data);
    assert!(matches!(
        result,
        Err(MidiError::ParseError(ParseError::InvalidNumOfTracks))
    ));
}
