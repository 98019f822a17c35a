use midi::metadata::TimeDivision;
use midi::metaevents::copyright_notice::CopyRightNoticeEvent;
use midi::metaevents::key_signature::{
    get_key_signature_from_num_of_accidentals, get_num_of_accidentals_from_key_signature,
    Accidentals, Key, KeySignature, KeySignatureEvent, Mode,
};
use midi::metaevents::marker::MarkerEvent;
use midi::metaevents::sequence_number::SequenceNumber;
use midi::metaevents::set_tempo::SetTempoEvent;
use midi::metaevents::time_signature::TimeSignatureEvent;
use midi::metaevents::track_name::TrackNameEvent;
use midi::metaevents::{from_bytes_to_vlq, from_vlq_to_bytes, get_utf8_from_bytes};
use midi::midi_error::{EventError, MidiError, ParseError};

const METAEVENT_BYTE: u8 = 0xFF;

#[test]
fn get_utf8_bytes_success() {
    let test_text = String::from("This is some testing text!! Yay! 1234567890,/\\!@#$%^&*()';\"[]");

    let mut data: Vec<u8> = vec![];
    data.extend_from_slice(test_text.as_bytes());

    let result = get_utf8_from_bytes(&data);
    assert!(result.is_ok());

    let text_data = result.unwrap();
    assert_eq!(text_data, test_text);
}

#[test]
fn get_utf8_bytes_multibyte_characters() {
    // A two-byte encoding must come back as one character, not two
    let data: Vec<u8> = vec![0xC3, 0xBC];
    let text = get_utf8_from_bytes(&data).unwrap();
    assert_eq!(text.chars().count(), 1);
    assert_eq!(text, "\u{fc}");
}

#[test]
fn get_utf8_bytes_invalid_encoding() {
    let data: Vec<u8> = vec![0xFF, 0xFE, 0x41];
    let result = get_utf8_from_bytes(&data);
    assert!(matches!(
        result,
        Err(MidiError::EventError(EventError::InvalidEncoding))
    ));
}

#[test]
fn vlq_round_trips_at_boundaries() {
    for value in [0u32, 1, 127, 128, 16383, 16384, 0x1FFFFF, 0x200000, 0x0FFFFFFF] {
        let bytes = from_vlq_to_bytes(value);
        assert!(bytes.len() >= 1 && bytes.len() <= 4);
        let (decoded, consumed) = from_bytes_to_vlq(&bytes).unwrap();
        assert_eq!(decoded, value);
        assert_eq!(consumed as usize, bytes.len());
    }
}

#[test]
fn vlq_zero_encodes_as_one_zero_byte() {
    assert_eq!(from_vlq_to_bytes(0), vec![0x00]);
}

#[test]
fn vlq_refuses_a_fifth_continuation_byte() {
    let result = from_bytes_to_vlq(&[0x81, 0x82, 0x83, 0x84, 0x05]);
    assert!(matches!(
        result,
        Err(MidiError::ParseError(ParseError::InvalidVlq))
    ));
}

#[test]
fn vlq_refuses_four_continuation_bytes_at_the_end() {
    // Four continuation bytes already demand a fifth byte, so this is the
    // overlong error even though the data stops there
    let result = from_bytes_to_vlq(&[0x81, 0x82, 0x83, 0x84]);
    assert!(matches!(
        result,
        Err(MidiError::ParseError(ParseError::InvalidVlq))
    ));
}

#[test]
fn vlq_reports_truncated_data() {
    let result = from_bytes_to_vlq(&[0x81, 0x82]);
    assert!(matches!(
        result,
        Err(MidiError::ParseError(ParseError::EndOfData))
    ));
}

#[test]
fn create_copyright_notice_struct_from_bytes_success_one_byte_vlq() {
    let test_text = String::from("(C) Kyle Gagnon");
    let test_text_len = from_vlq_to_bytes(test_text.len() as u32);

    let mut bytes: Vec<u8> = vec![METAEVENT_BYTE, 0x02];

    bytes.extend_from_slice(&test_text_len);
    bytes.extend_from_slice(test_text.as_bytes());

    let result =
        CopyRightNoticeEvent::from_bytes(&bytes, 0, TimeDivision::PulsesPerQuarterNote(96), 120);
    assert!(result.is_ok());

    let text_event = result.unwrap();
    let event_size = 2 + test_text_len.len() as u32 + test_text.len() as u32;
    assert_eq!(text_event.copyright_notice, test_text);
    assert_eq!(text_event.text_size, test_text.len() as u32);
    assert_eq!(text_event.get_event_size(), event_size);
}

#[test]
fn create_copyright_notice_struct_from_bytes_success_two_bytes_vlq() {
    let test_text = std::iter::repeat('A').take(128).collect::<String>();
    let test_text_len = from_vlq_to_bytes(test_text.len() as u32);

    let mut bytes: Vec<u8> = vec![METAEVENT_BYTE, 0x02];

    bytes.extend_from_slice(&test_text_len);
    bytes.extend_from_slice(test_text.as_bytes());

    let result =
        CopyRightNoticeEvent::from_bytes(&bytes, 0, TimeDivision::PulsesPerQuarterNote(96), 120);
    assert!(result.is_ok());

    let text_event = result.unwrap();
    let event_size = 2 + test_text_len.len() as u32 + test_text.len() as u32;
    assert_eq!(text_event.copyright_notice, test_text);
    assert_eq!(text_event.text_size, test_text.len() as u32);
    assert_eq!(text_event.get_event_size(), event_size);
}

#[test]
fn create_marker_struct_from_bytes_success_one_byte_vlq() {
    let test_text = String::from("First Verse");
    let test_text_len = from_vlq_to_bytes(test_text.len() as u32);

    let mut bytes: Vec<u8> = vec![METAEVENT_BYTE, 0x06];

    bytes.extend_from_slice(&test_text_len);
    bytes.extend_from_slice(test_text.as_bytes());

    let result = MarkerEvent::from_bytes(&bytes, 0, TimeDivision::PulsesPerQuarterNote(96), 120);
    assert!(result.is_ok());

    let text_event = result.unwrap();
    let event_size = 2 + test_text_len.len() as u32 + test_text.len() as u32;
    assert_eq!(text_event.marker, test_text);
    assert_eq!(text_event.text_size, test_text.len() as u32);
    assert_eq!(text_event.get_event_size(), event_size);
}

#[test]
fn create_marker_struct_from_bytes_success_two_bytes_vlq() {
    let test_text = std::iter::repeat('A').take(128).collect::<String>();
    let test_text_len = from_vlq_to_bytes(test_text.len() as u32);

    let mut bytes: Vec<u8> = vec![METAEVENT_BYTE, 0x06];

    bytes.extend_from_slice(&test_text_len);
    bytes.extend_from_slice(test_text.as_bytes());

    let result = MarkerEvent::from_bytes(&bytes, 0, TimeDivision::PulsesPerQuarterNote(96), 120);
    assert!(result.is_ok());

    let text_event = result.unwrap();
    let event_size = 2 + test_text_len.len() as u32 + test_text.len() as u32;
    assert_eq!(text_event.marker, test_text);
    assert_eq!(text_event.text_size, test_text.len() as u32);
    assert_eq!(text_event.get_event_size(), event_size);
}

#[test]
fn create_track_name_struct_from_bytes_success_one_byte_vlq() {
    let test_text = String::from("F Horn 1 & 2");
    let test_text_len = from_vlq_to_bytes(test_text.len() as u32);

    let mut bytes: Vec<u8> = vec![METAEVENT_BYTE, 0x03];

    bytes.extend_from_slice(&test_text_len);
    bytes.extend_from_slice(test_text.as_bytes());

    let result = TrackNameEvent::from_bytes(&bytes, 0, TimeDivision::PulsesPerQuarterNote(96), 120);
    assert!(result.is_ok());

    let text_event = result.unwrap();
    let event_size = 2 + test_text_len.len() as u32 + test_text.len() as u32;
    assert_eq!(text_event.track_name, test_text);
    assert_eq!(text_event.text_size, test_text.len() as u32);
    assert_eq!(text_event.get_event_size(), event_size);
}

#[test]
fn create_track_name_struct_from_bytes_success_two_bytes_vlq() {
    let test_text = std::iter::repeat('A').take(128).collect::<String>();
    let test_text_len = from_vlq_to_bytes(test_text.len() as u32);

    let mut bytes: Vec<u8> = vec![METAEVENT_BYTE, 0x03];

    bytes.extend_from_slice(&test_text_len);
    bytes.extend_from_slice(test_text.as_bytes());

    let result = TrackNameEvent::from_bytes(&bytes, 0, TimeDivision::PulsesPerQuarterNote(96), 120);
    assert!(result.is_ok());

    let text_event = result.unwrap();
    let event_size = 2 + test_text_len.len() as u32 + test_text.len() as u32;
    assert_eq!(text_event.track_name, test_text);
    assert_eq!(text_event.text_size, test_text.len() as u32);
    assert_eq!(text_event.get_event_size(), event_size);
}

#[test]
fn create_sequence_number_event_new_success() {
    let test_number: u16 = 5;
    let result = SequenceNumber::new(test_number);
    assert!(result.is_ok());
    let sequnece_number = result.unwrap();
    assert_eq!(sequnece_number.sequence_number, test_number)
}

#[test]
fn create_sequence_number_event_data_success() {
    let test_number: Vec<u8> = vec![0x00, 0x05];
    let mut data = vec![0xFF, 0x00, 0x02];
    data.extend_from_slice(&test_number);
    let result = SequenceNumber::from_bytes(&data, 0, TimeDivision::PulsesPerQuarterNote(96), 120);
    assert!(result.is_ok());

    let seq_num = result.unwrap();
    assert_eq!(
        seq_num.sequence_number,
        u16::from_be_bytes([test_number[0], test_number[1]])
    );
}

#[test]
fn create_tempo_event_success() {
    // Set the tempo to 96 beats per minute, i.e. 625000 microseconds per
    // quarter note
    let tempo: u32 = (60_000_000.0_f64 / 96.0_f64).round() as u32;

    let tempo_event = SetTempoEvent::new(tempo);
    assert!(tempo_event.is_ok());

    let tempo_event = tempo_event.unwrap();
    assert_eq!(tempo_event.tempo, tempo);
}

#[test]
fn create_tempo_event_success_to_bytes() {
    // Set the tempo to 96 beats per minute
    let tempo: u32 = (60_000_000.0_f64 / 96.0_f64).round() as u32;

    let tempo_event = SetTempoEvent::new(tempo);
    assert!(tempo_event.is_ok());

    let tempo_event = tempo_event.unwrap();
    assert_eq!(tempo_event.tempo, tempo);

    let tempo_event_bytes = tempo_event.to_bytes();
    assert!(tempo_event_bytes.is_ok());

    let tempo_event_bytes = tempo_event_bytes.unwrap();

    let micro_bytes = tempo.to_be_bytes();
    let mut tempo_event_bytes_expected = vec![0xFF, 0x51, 0x03];
    tempo_event_bytes_expected.extend_from_slice(&[
        micro_bytes[1],
        micro_bytes[2],
        micro_bytes[3],
    ]);

    assert_eq!(tempo_event_bytes, tempo_event_bytes_expected);
}

#[test]
fn create_tempo_event_success_from_bytes() {
    // Set the tempo to 96 beats per minute
    let tempo: u32 = (60_000_000.0_f64 / 96.0_f64).round() as u32;

    let micro_bytes = tempo.to_be_bytes();
    let mut tempo_event_bytes = vec![0xFF, 0x51, 0x03];
    tempo_event_bytes.extend_from_slice(&[micro_bytes[1], micro_bytes[2], micro_bytes[3]]);

    let tempo_event = SetTempoEvent::from_bytes(
        &tempo_event_bytes,
        0,
        TimeDivision::PulsesPerQuarterNote(96),
        500000,
    );
    assert!(tempo_event.is_ok());

    let tempo_event = tempo_event.unwrap();
    assert_eq!(tempo_event.tempo, tempo);
}

#[test]
fn key_signature_table_round_trips() {
    for n in -7i8..=7i8 {
        let (key, accidental) = get_key_signature_from_num_of_accidentals(n).unwrap();
        assert_eq!(get_num_of_accidentals_from_key_signature(key, accidental), n);
    }
    assert!(matches!(
        get_key_signature_from_num_of_accidentals(8),
        Err(MidiError::EventError(EventError::InvalidKeySignature(_)))
    ));
}

#[test]
fn key_signature_event_from_bytes_flat_major() {
    let data = vec![0xFF, 0x59, 0x02, 0xFF, 0x00];
    let event =
        KeySignatureEvent::from_bytes(&data, 0, TimeDivision::PulsesPerQuarterNote(96), 500000)
            .unwrap();
    assert_eq!(event.key_signature.num_of_accidentals, -1);
    assert_eq!(event.key_signature.key, Key::F);
    assert_eq!(event.key_signature.accidental, Accidentals::Natural);
    assert_eq!(event.key_signature.mode, Mode::Major);
}

#[test]
fn key_signature_event_rejects_out_of_range_count() {
    let data = vec![0xFF, 0x59, 0x02, 0x08, 0x00];
    let result =
        KeySignatureEvent::from_bytes(&data, 0, TimeDivision::PulsesPerQuarterNote(96), 500000);
    assert!(matches!(
        result,
        Err(MidiError::EventError(EventError::InvalidKeySignature(_)))
    ));
}

#[test]
fn key_signature_new_derives_count() {
    let ks = KeySignature::new(Key::E, Accidentals::Flat, Mode::Minor).unwrap();
    assert_eq!(ks.num_of_accidentals, -3);
}

#[test]
fn time_signature_event_defaults_are_canonical() {
    let event = TimeSignatureEvent::new(4, 4).unwrap();
    assert_eq!(event.metronome_clicks, 24);
    assert_eq!(event.num_of_32nd_notes_per_quarter, 8);
    let bytes = event.to_bytes().unwrap();
    assert_eq!(bytes, vec![0xFF, 0x58, 0x04, 0x04, 0x02, 24, 0x08]);
}

#[test]
fn midi_channel_prefix_emits_length_one() {
    let event = midi::metaevents::midi_channel_prefix::MidiChannelPrefixEvent::new(3).unwrap();
    assert_eq!(event.to_bytes().unwrap(), vec![0xFF, 0x20, 0x01, 0x03]);
    assert_eq!(
        event.to_bytes_delta_time().unwrap(),
        vec![0x00, 0xFF, 0x20, 0x01, 0x03]
    );
}

#[test]
fn key_signature_event_accepts_both_extremes() {
    let seven_sharps =
        KeySignatureEvent::from_bytes(&[0xFF, 0x59, 0x02, 0x07, 0x01], 0, TimeDivision::PulsesPerQuarterNote(96), 500000)
            .unwrap();
    assert_eq!(seven_sharps.key_signature.num_of_accidentals, 7);
    assert_eq!(seven_sharps.key_signature.key, Key::C);
    assert_eq!(seven_sharps.key_signature.accidental, Accidentals::Sharp);
    assert_eq!(seven_sharps.key_signature.mode, Mode::Minor);

    let seven_flats =
        KeySignatureEvent::from_bytes(&[0xFF, 0x59, 0x02, 0xF9, 0x00], 0, TimeDivision::PulsesPerQuarterNote(96), 500000)
            .unwrap();
    assert_eq!(seven_flats.key_signature.num_of_accidentals, -7);
    assert_eq!(seven_flats.key_signature.key, Key::C);
    assert_eq!(seven_flats.key_signature.accidental, Accidentals::Flat);
    assert_eq!(seven_flats.to_bytes().unwrap(), vec![0xFF, 0x59, 0x02, 0xF9, 0x00]);
}
