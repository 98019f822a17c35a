use midi::metadata::{
    validate_fps_byte, validate_header_chunk_bytes, FileFormat, MetaData, TimeDivision,
    HEADER_CHUNK_MTHD_BYTES,
};
use midi::midi_error::{MidiError, ParseError};

const HEADER_SIZE_BYTES: [u8; 4] = [0x00, 0x00, 0x00, 0x06];

#[test]
fn validate_header_chunk_bytes_success() {
    let header_chunk_bytes = u32::from_be_bytes([0x4D, 0x54, 0x68, 0x64]);
    let validate_result = validate_header_chunk_bytes(header_chunk_bytes);
    assert!(validate_result.is_ok());
}

#[test]
fn validate_header_chunk_bytes_fail() {
    let header_chunk_bytes = u32::from_be_bytes([0x54, 0x68, 0x64, 0x00]);
    let validate_result = validate_header_chunk_bytes(header_chunk_bytes);
    assert!(validate_result.is_err());
    assert!(matches!(
        validate_result,
        Err(MidiError::ParseError(ParseError::InvalidHeader))
    ));
}

#[test]
fn validate_file_format_success_single_track() {
    let mut header_chunk_file_format = HEADER_CHUNK_MTHD_BYTES.to_be_bytes().to_vec();
    header_chunk_file_format.extend_from_slice(&HEADER_SIZE_BYTES);
    header_chunk_file_format.extend_from_slice(&[0x00, 0x00, 0x00, 0x01, 0x00, 0x60]);

    let metadata_result = MetaData::new(&header_chunk_file_format);
    assert!(metadata_result.is_ok());
    let metadata_result = metadata_result.unwrap();
    assert_eq!(metadata_result.file_format, FileFormat::SINGLE_TRACK);
}

#[test]
fn validate_file_format_fail_invalid_track() {
    let mut header_chunk_file_format = HEADER_CHUNK_MTHD_BYTES.to_be_bytes().to_vec();
    header_chunk_file_format.extend_from_slice(&HEADER_SIZE_BYTES);
    header_chunk_file_format.extend_from_slice(&[0x00, 0x03, 0x00, 0x01, 0x00, 0x60]);

    let metadata_result = MetaData::new(&header_chunk_file_format);
    assert!(metadata_result.is_err());
    assert!(matches!(
        metadata_result,
        Err(MidiError::ParseError(ParseError::InvalidFileFormat))
    ));
}

#[test]
fn validate_num_of_tracks_success_01() {
    let mut header_chunk_num_of_tracks = HEADER_CHUNK_MTHD_BYTES.to_be_bytes().to_vec();
    header_chunk_num_of_tracks.extend_from_slice(&HEADER_SIZE_BYTES);
    header_chunk_num_of_tracks.extend_from_slice(&[0x00, 0x01, 0x00, 0x01, 0x00, 0x60]);

    let metadata_result = MetaData::new(&header_chunk_num_of_tracks);
    assert!(metadata_result.is_ok());
    let metadata_result = metadata_result.unwrap();
    assert_eq!(metadata_result.num_of_tracks, 1);
}

#[test]
fn validate_num_of_tracks_fail_00() {
    let mut header_chunk_num_of_tracks = HEADER_CHUNK_MTHD_BYTES.to_be_bytes().to_vec();
    header_chunk_num_of_tracks.extend_from_slice(&HEADER_SIZE_BYTES);
    header_chunk_num_of_tracks.extend_from_slice(&[0x00, 0x01, 0x00, 0x00, 0x00, 0x06]);

    let metadata_result = MetaData::new(&header_chunk_num_of_tracks);
    assert!(metadata_result.is_err());
    assert!(matches!(
        metadata_result,
        Err(MidiError::ParseError(ParseError::InvalidNumOfTracks))
    ));
}

#[test]
fn validate_time_division_success_pulses() {
    let mut header_chunk_time_div: Vec<u8> = HEADER_CHUNK_MTHD_BYTES.to_be_bytes().to_vec();
    header_chunk_time_div.extend_from_slice(&HEADER_SIZE_BYTES);
    header_chunk_time_div.extend_from_slice(&[0x00, 0x01, 0x00, 0x01, 0x00, 0x60]);

    let metadata_result = MetaData::new(&header_chunk_time_div);
    assert!(metadata_result.is_ok());
    assert_eq!(
        metadata_result.unwrap().time_division,
        TimeDivision::PulsesPerQuarterNote(96)
    );
}

#[test]
fn validate_time_division_smpte_format_sucess() {
    let mut header_chunk_time_div: Vec<u8> = HEADER_CHUNK_MTHD_BYTES.to_be_bytes().to_vec();
    header_chunk_time_div.extend_from_slice(&HEADER_SIZE_BYTES);
    header_chunk_time_div.extend_from_slice(&[0x00, 0x01, 0x00, 0x01, 0xE8, 0x08]);

    let metadata_result = MetaData::new(&header_chunk_time_div);
    assert!(metadata_result.is_ok());
    assert_eq!(metadata_result.unwrap().time_division, TimeDivision::SMPTE(24, 8));
}

#[test]
fn validate_time_division_smpte_invalid_fps() {
    let mut header_chunk_time_div: Vec<u8> = HEADER_CHUNK_MTHD_BYTES.to_be_bytes().to_vec();
    header_chunk_time_div.extend_from_slice(&HEADER_SIZE_BYTES);
    // 0xE5 negates to 27 frames per second, which SMPTE does not define
    header_chunk_time_div.extend_from_slice(&[0x00, 0x01, 0x00, 0x01, 0xE5, 0x08]);

    let metadata_result = MetaData::new(&header_chunk_time_div);
    assert!(matches!(
        metadata_result,
        Err(MidiError::ParseError(ParseError::InvalidFPS))
    ));
    assert!(validate_fps_byte(25).is_ok());
    assert!(validate_fps_byte(27).is_err());
}

#[test]
fn validate_header_too_short() {
    let metadata_result = MetaData::new(&[0x4D, 0x54, 0x68, 0x64]);
    assert!(matches!(
        metadata_result,
        Err(MidiError::ParseError(ParseError::EndOfData))
    ));
}

#[test]
fn validate_time_division_smpte_all_frame_rates() {
    for (byte, fps) in [(0xE8u8, 24u8), (0xE7, 25), (0xE3, 29), (0xE2, 30)] {
        let mut data: Vec<u8> = HEADER_CHUNK_MTHD_BYTES.to_be_bytes().to_vec();
        data.extend_from_slice(&HEADER_SIZE_BYTES);
        data.extend_from_slice(&[0x00, 0x01, 0x00, 0x01, byte, 0x04]);
        let metadata = MetaData::new(&data).unwrap();
        assert_eq!(metadata.time_division, TimeDivision::SMPTE(fps, 4));
    }
}

#[test]
fn validate_header_length_must_be_six() {
    let mut data: Vec<u8> = HEADER_CHUNK_MTHD_BYTES.to_be_bytes().to_vec();
    data.extend_from_slice(&[0x00, 0x00, 0x00, 0x07]);
    data.extend_from_slice(&[0x00, 0x01, 0x00, 0x01, 0x00, 0x60]);
    let metadata_result = MetaData::new(&data);
    assert!(matches!(
        metadata_result,
        Err(MidiError::ParseError(ParseError::InvalidDataBounds))
    ));
}

#[test]
fn validate_time_division_zero_pulses_is_rejected() {
    let mut data: Vec<u8> = HEADER_CHUNK_MTHD_BYTES.to_be_bytes().to_vec();
    data.extend_from_slice(&HEADER_SIZE_BYTES);
    data.extend_from_slice(&[0x00, 0x01, 0x00, 0x01, 0x00, 0x00]);
    let metadata_result = MetaData::new(&data);
    assert!(matches!(
        metadata_result,
        Err(MidiError::ParseError(ParseError::InvalidHeader))
    ));
}
