use midi::is_msb_zero;
use midi::bytereader::ByteReader;

#[test]
fn test_get_next_byte() {
    let data = [0x01, 0x02, 0x03, 0x04];
    let mut reader = ByteReader::new(&data);

    assert_eq!(reader.get_next_byte(), Some(0x01));
    assert_eq!(reader.get_next_byte(), Some(0x02));
    assert_eq!(reader.get_next_byte(), Some(0x03));
    assert_eq!(reader.get_next_byte(), Some(0x04));
    assert_eq!(reader.get_next_byte(), None);
}

#[test]
fn test_peek() {
    let data = [0x01, 0x02, 0x03, 0x04];
    let reader = ByteReader::new(&data);

    assert_eq!(reader.peek(), Ok(0x01));
    assert_eq!(reader.peek(), Ok(0x01));
}

#[test]
fn test_get_next_bytes() {
    let data = [0x01, 0x02, 0x03, 0x04];
    let mut reader = ByteReader::new(&data);

    assert_eq!(reader.get_next_bytes(2), Ok(vec![0x01, 0x02]));
    assert_eq!(reader.get_next_bytes(2), Ok(vec![0x03, 0x04]));
    assert!(reader.get_next_bytes(1).is_err());
}

#[test]
fn test_seek() {
    let data = [0x01, 0x02, 0x03, 0x04];
    let mut reader = ByteReader::new(&data);

    reader.seek(2).unwrap();
    assert_eq!(reader.get_next_byte(), Some(0x03));
}

#[test]
fn test_seek_error() {
    let data = [0x01, 0x02, 0x03, 0x04];
    let mut reader = ByteReader::new(&data);

    assert!(reader.seek(5).is_err());
    assert!(reader.seek(4).is_ok());
}

#[test]
fn test_move_pos() {
    let data = [0x01, 0x02, 0x03, 0x04];
    let mut reader = ByteReader::new(&data);

    reader.move_pos(2).unwrap();
    assert_eq!(reader.get_next_byte(), Some(0x03));
}

#[test]
fn test_num_bytes_remaining() {
    let data = [0x01, 0x02, 0x03, 0x04];
    let mut reader = ByteReader::new(&data);

    reader.move_pos(2).unwrap();
    assert_eq!(reader.num_bytes_remaining(), 2);
}

#[test]
fn test_peek_next_bytes() {
    let data = [0x01, 0x02, 0x03, 0x04];
    let reader = ByteReader::new(&data);

    assert_eq!(reader.peek_next_bytes(2), Some(vec![0x01, 0x02]));
    assert_eq!(reader.peek_next_bytes(2), Some(vec![0x01, 0x02]));
    assert_eq!(reader.peek_next_bytes(5), None);
}

#[test]
fn test_move_pos_error() {
    let data = [0x01, 0x02, 0x03, 0x04];
    let mut reader = ByteReader::new(&data);

    assert!(reader.move_pos(-1).is_err());
    assert!(reader.move_pos(5).is_err());

    reader.move_pos(2).unwrap();
    assert!(reader.move_pos(-3).is_err());
    assert!(reader.move_pos(1).is_ok());
    assert!(reader.move_pos(1000).is_err());
}

#[test]
fn test_get_next_u32() {
    let data = [0x01, 0x02, 0x03, 0x04];
    let mut reader = ByteReader::new(&data);

    assert_eq!(reader.get_next_u32(), Ok(0x01020304));
}

#[test]
fn test_get_next_u16() {
    let data = [0x01, 0x02];
    let mut reader = ByteReader::new(&data);

    assert_eq!(reader.get_next_u16(), Ok(0x0102));
}

#[test]
fn test_error_codes() {
    let data = [0x01];
    let reader = ByteReader::new(&data);
    let mut past_end = ByteReader::new(&data);
    past_end.get_next_byte();
    assert_eq!(past_end.peek().unwrap_err().code(), 0x00);
    assert_eq!(reader.peek().unwrap(), 0x01);

    let mut bounded = ByteReader::new(&data);
    assert_eq!(bounded.seek(9).unwrap_err().code(), 0x01);
}

#[test]
fn msb_test_separates_data_from_status_bytes() {
    assert!(is_msb_zero(0x00));
    assert!(is_msb_zero(0x7F));
    assert!(!is_msb_zero(0x80));
    assert!(!is_msb_zero(0xFF));
}
