//! The file-level metadata read from the `MThd` header chunk.

use vstd::prelude::*;

use crate::bytereader::{spec_u16_be, spec_u32_be};
use crate::midi_error::{MidiError, ParseError};

verus! {

/// The `MThd` magic, `M T h d`, as a big-endian u32.
pub const HEADER_CHUNK_MTHD_BYTES: u32 = 0x4D546864;

/// The format field of the header: one track, several parallel tracks, or
/// several independent single-track songs.
#[derive(Debug, Clone, PartialEq, Eq, Structural)]
#[allow(non_camel_case_types)]
pub enum FileFormat {
    SINGLE_TRACK,
    MULTI_TRACK,
    MULTI_SONG,
}

/// How delta-time ticks relate to musical or wall-clock time.
#[derive(Debug, Clone, PartialEq, Copy, Eq, Structural)]
pub enum TimeDivision {
    /// Ticks per quarter note; the 16-bit field has its high bit clear.
    PulsesPerQuarterNote(u16),
    /// Frames per second and ticks per frame; the high bit of the first byte
    /// is set and the frame rate is its negated two's-complement value.
    SMPTE(u8, u8),
}

/// The three fields of the `MThd` chunk.
#[derive(Debug, Clone, PartialEq, Eq, Structural)]
pub struct MetaData {
    pub num_of_tracks: u16,
    pub file_format: FileFormat,
    pub time_division: TimeDivision,
}

/// The division that the two division bytes of the header denote, or the
/// error that makes them unacceptable.
pub open spec fn spec_parse_division(b0: u8, b1: u8) -> Result<TimeDivision, MidiError> {
    if b0 < 0x80 {
        if spec_u16_be(b0, b1) == 0 {
            Err(MidiError::ParseError(ParseError::InvalidHeader))
        } else {
            Ok(TimeDivision::PulsesPerQuarterNote(spec_u16_be(b0, b1) as u16))
        }
    } else {
        let fps = (256 - b0) as u8;
        if fps == 24 || fps == 25 || fps == 29 || fps == 30 {
            Ok(TimeDivision::SMPTE(fps, b1))
        } else {
            Err(MidiError::ParseError(ParseError::InvalidFPS))
        }
    }
}

/// The metadata that a well-formed 14-byte header denotes, or the first
/// error that the header parser reports on it: the magic, the length field
/// of exactly six, the format, the track count, and a division with at
/// least one pulse per quarter note or a defined SMPTE rate.
pub open spec fn spec_parse_metadata(data: Seq<u8>) -> Result<MetaData, MidiError> {
    if data.len() < 14 {
        Err(MidiError::ParseError(ParseError::EndOfData))
    } else if !(data[0] == 0x4D && data[1] == 0x54 && data[2] == 0x68 && data[3] == 0x64) {
        Err(MidiError::ParseError(ParseError::InvalidHeader))
    } else if spec_u32_be(data[4], data[5], data[6], data[7]) != 6 {
        Err(MidiError::ParseError(ParseError::InvalidDataBounds))
    } else {
        let format_num = spec_u16_be(data[8], data[9]);
        let num_of_tracks = spec_u16_be(data[10], data[11]);
        if format_num > 2 {
            Err(MidiError::ParseError(ParseError::InvalidFileFormat))
        } else if num_of_tracks == 0 || (format_num == 0 && num_of_tracks != 1) {
            Err(MidiError::ParseError(ParseError::InvalidNumOfTracks))
        } else {
            match spec_parse_division(data[12], data[13]) {
                Ok(division) => Ok(
                    MetaData {
                        num_of_tracks: num_of_tracks as u16,
                        file_format: if format_num == 0 {
                            FileFormat::SINGLE_TRACK
                        } else if format_num == 1 {
                            FileFormat::MULTI_TRACK
                        } else {
                            FileFormat::MULTI_SONG
                        },
                        time_division: division,
                    },
                ),
                Err(e) => Err(e),
            }
        }
    }
}

impl MetaData {
    /// Parse the 14-byte `MThd` header at the front of `file_contents`.
    pub fn new(file_contents: &[u8]) -> (r: Result<Self, MidiError>)
        ensures
            r == spec_parse_metadata(file_contents@),
    {
        if file_contents.len() < 14 {
            return Err(MidiError::ParseError(ParseError::EndOfData));
        }
        let b0: u8 = *vstd::slice::slice_index_get(file_contents, 0);
        let b1: u8 = *vstd::slice::slice_index_get(file_contents, 1);
        let b2: u8 = *vstd::slice::slice_index_get(file_contents, 2);
        let b3: u8 = *vstd::slice::slice_index_get(file_contents, 3);
        let magic: u32 = (b0 as u32) * 0x1000000 + (b1 as u32) * 0x10000 + (b2 as u32) * 0x100
            + (b3 as u32);
        validate_header_chunk_bytes(magic)?;

        let l0: u8 = *vstd::slice::slice_index_get(file_contents, 4);
        let l1: u8 = *vstd::slice::slice_index_get(file_contents, 5);
        let l2: u8 = *vstd::slice::slice_index_get(file_contents, 6);
        let l3: u8 = *vstd::slice::slice_index_get(file_contents, 7);
        let header_length: u32 = (l0 as u32) * 0x1000000 + (l1 as u32) * 0x10000 + (l2 as u32)
            * 0x100 + (l3 as u32);
        if header_length != 6 {
            return Err(MidiError::ParseError(ParseError::InvalidDataBounds));
        }

        let f0: u8 = *vstd::slice::slice_index_get(file_contents, 8);
        let f1: u8 = *vstd::slice::slice_index_get(file_contents, 9);
        let format_num: u16 = (f0 as u16) * 0x100 + (f1 as u16);
        let file_format: FileFormat = match format_num {
            0 => FileFormat::SINGLE_TRACK,
            1 => FileFormat::MULTI_TRACK,
            2 => FileFormat::MULTI_SONG,
            _ => {
                return Err(MidiError::ParseError(ParseError::InvalidFileFormat));
            },
        };

        let t0: u8 = *vstd::slice::slice_index_get(file_contents, 10);
        let t1: u8 = *vstd::slice::slice_index_get(file_contents, 11);
        let num_of_tracks: u16 = (t0 as u16) * 0x100 + (t1 as u16);
        if num_of_tracks == 0 || (format_num == 0 && num_of_tracks != 1) {
            return Err(MidiError::ParseError(ParseError::InvalidNumOfTracks));
        }
        let d0: u8 = *vstd::slice::slice_index_get(file_contents, 12);
        let d1: u8 = *vstd::slice::slice_index_get(file_contents, 13);
        let time_division: TimeDivision = Self::parse_division(d0, d1)?;

        Ok(MetaData { num_of_tracks, file_format, time_division })
    }

    /// Interpret the two division bytes of the header.
    fn parse_division(d0: u8, d1: u8) -> (r: Result<TimeDivision, MidiError>)
        ensures
            r == spec_parse_division(d0, d1),
    {
        if d0 < 0x80 {
            let pulses: u16 = (d0 as u16) * 0x100 + (d1 as u16);
            if pulses == 0 {
                // A division of zero pulses per quarter note names no tick
                // length at all
                return Err(MidiError::ParseError(ParseError::InvalidHeader));
            }
            Ok(TimeDivision::PulsesPerQuarterNote(pulses))
        } else {
            // The negated two's-complement value of the first byte is the
            // frame rate.
            let fps: u8 = (0x100u16 - d0 as u16) as u8;
            validate_fps_byte(fps)?;
            Ok(TimeDivision::SMPTE(fps, d1))
        }
    }
}

/// Accept exactly the `MThd` magic.
pub fn validate_header_chunk_bytes(header_chunk_bytes: u32) -> (r: Result<(), MidiError>)
    ensures
        header_chunk_bytes == HEADER_CHUNK_MTHD_BYTES ==> r is Ok,
        header_chunk_bytes != HEADER_CHUNK_MTHD_BYTES ==> r == Err::<(), MidiError>(
            MidiError::ParseError(ParseError::InvalidHeader),
        ),
{
    if header_chunk_bytes == HEADER_CHUNK_MTHD_BYTES {
        Ok(())
    } else {
        Err(MidiError::ParseError(ParseError::InvalidHeader))
    }
}

/// Accept exactly the four SMPTE frame rates.
pub fn validate_fps_byte(fps_byte: u8) -> (r: Result<(), MidiError>)
    ensures
        (fps_byte == 24 || fps_byte == 25 || fps_byte == 29 || fps_byte == 30) <==> r is Ok,
        r is Err ==> r == Err::<(), MidiError>(MidiError::ParseError(ParseError::InvalidFPS)),
{
    match fps_byte {
        24 | 25 | 29 | 30 => Ok(()),
        _ => Err(MidiError::ParseError(ParseError::InvalidFPS)),
    }
}

} // verus!
