use midi::bytereader::ByteReader;
use midi::midi::file_header::{MidiFileFormat, MidiFileHeader};

#[test]
fn test_new() {
    let header = MidiFileHeader::new(MidiFileFormat::SingleTrack, 0, 0);
    assert_eq!(header.format, MidiFileFormat::SingleTrack);
    assert_eq!(header.num_tracks, 0);
    assert_eq!(header.division, 0);
}

#[test]
fn test_new_from_reader() {
    let data = b"MThd\x00\x00\x00\x06\x00\x01\x00\x01\x00\x80";
    let mut reader = ByteReader::new(data);
    let header = MidiFileHeader::new_from_reader(&mut reader).unwrap();
    assert_eq!(header.division, 0x0080);
}

#[test]
fn test_new_from_reader_invalid_header() {
    let data = b"Invalid\x00\x00\x00\x06\x00\x01\x00\x01\x00\x80";
    let mut reader = ByteReader::new(data);
    let result = MidiFileHeader::new_from_reader(&mut reader);
    assert!(result.is_err());
}

#[test]
fn test_new_from_reader_invalid_header_length() {
    let data = b"MThd\x00\x00\x00\x07\x00\x01\x00\x01\x00\x80";
    let mut reader = ByteReader::new(data);
    let result = MidiFileHeader::new_from_reader(&mut reader);
    assert!(result.is_err());
}

#[test]
fn test_format_from_u16() {
    let format = MidiFileHeader::format_from_u16(0).unwrap();
    assert_eq!(format, MidiFileFormat::SingleTrack);

    let format = MidiFileHeader::format_from_u16(1).unwrap();
    assert_eq!(format, MidiFileFormat::MultiTrack);

    let format = MidiFileHeader::format_from_u16(2).unwrap();
    assert_eq!(format, MidiFileFormat::MultiSong);

    let format = MidiFileHeader::format_from_u16(3);
    assert!(format.is_err());
}

#[test]
fn test_new_from_reader_valid_format() {
    let data = b"MThd\x00\x00\x00\x06\x00\x00\x00\x01\x00\x80";
    let mut reader = ByteReader::new(data);
    let header = MidiFileHeader::new_from_reader(&mut reader).unwrap();
    assert_eq!(header.format, MidiFileFormat::SingleTrack);
}

#[test]
fn test_new_from_reader_invalid_format() {
    let data = b"MThd\x00\x00\x00\x06\x00\x03\x00\x01\x00\x80";
    let mut reader = ByteReader::new(data);
    let result = MidiFileHeader::new_from_reader(&mut reader);
    assert!(result.is_err());
}

#[test]
fn test_new_from_reader_valid_number_tracks() {
    let data = b"MThd\x00\x00\x00\x06\x00\x00\x00\x01\x00\x80";
    let mut reader = ByteReader::new(data);
    let header = MidiFileHeader::new_from_reader(&mut reader).unwrap();
    assert_eq!(header.num_tracks, 1);
}

#[test]
fn test_new_from_reader_invalid_number_tracks() {
    let data = b"MThd\x00\x00\x00\x06\x00\x00\x00\x02\x00\x80";
    let mut reader = ByteReader::new(data);
    let result = MidiFileHeader::new_from_reader(&mut reader);
    assert!(result.is_err());
}

#[test]
fn test_new_from_reader_zero_tracks_rejected() {
    // Even a multi-track file must declare at least one track
    let data = b"MThd\x00\x00\x00\x06\x00\x01\x00\x00\x00\x80";
    let mut reader = ByteReader::new(data);
    let result = MidiFileHeader::new_from_reader(&mut reader);
    assert_eq!(result.unwrap_err().code(), 0x04);
}

#[test]
fn test_new_from_reader_invalid_smpte_rate() {
    // 0xE5 negates to 27 frames per second, which SMPTE does not define
    let data = b"MThd\x00\x00\x00\x06\x00\x01\x00\x01\xE5\x04";
    let mut reader = ByteReader::new(data);
    let result = MidiFileHeader::new_from_reader(&mut reader);
    assert_eq!(result.unwrap_err().code(), 0x05);
}

#[test]
fn test_new_from_reader_valid_smpte_rate() {
    let data = b"MThd\x00\x00\x00\x06\x00\x01\x00\x01\xE8\x04";
    let mut reader = ByteReader::new(data);
    let header = MidiFileHeader::new_from_reader(&mut reader).unwrap();
    assert_eq!(header.division, 0xE804);
}
