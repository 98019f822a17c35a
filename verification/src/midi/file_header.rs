//! The `MThd` file header, read through a ByteReader.

use vstd::prelude::*;
use vstd::string::StringExecFns;

use crate::bytereader::{spec_u16_be, spec_u32_be, ByteReader};
use crate::errors::{MidiParseError, MidiParseResult};

verus! {

/// The format field of the header.
#[derive(Debug, PartialEq, Eq, Structural, Clone, Copy)]
pub enum MidiFileFormat {
    SingleTrack,
    MultiTrack,
    MultiSong,
}

/// The three fields of the `MThd` chunk, the division kept as its raw
/// 16-bit value.
#[derive(Debug, PartialEq, Eq, Structural, Clone)]
pub struct MidiFileHeader {
    pub format: MidiFileFormat,
    pub num_tracks: u16,
    pub division: u16,
}

/// The format a field value up to 2 denotes.
pub open spec fn spec_format_of(n: int) -> MidiFileFormat {
    if n == 0 {
        MidiFileFormat::SingleTrack
    } else if n == 1 {
        MidiFileFormat::MultiTrack
    } else {
        MidiFileFormat::MultiSong
    }
}

/// What reading a file header at position `p` of `s` yields: the header, or
/// the code of the error reported on it.
pub open spec fn spec_read_file_header(s: Seq<u8>, p: int) -> Result<MidiFileHeader, u32> {
    if p + 4 > s.len() {
        Err(0x00)
    } else if !(s[p] == 0x4D && s[p + 1] == 0x54 && s[p + 2] == 0x68 && s[p + 3] == 0x64) {
        Err(0x02)
    } else if p + 8 > s.len() {
        Err(0x00)
    } else if spec_u32_be(s[p + 4], s[p + 5], s[p + 6], s[p + 7]) != 6 {
        Err(0x01)
    } else if p + 10 > s.len() {
        Err(0x00)
    } else if spec_u16_be(s[p + 8], s[p + 9]) > 2 {
        Err(0x03)
    } else if p + 12 > s.len() {
        Err(0x00)
    } else if spec_u16_be(s[p + 10], s[p + 11]) == 0 || (spec_u16_be(s[p + 8], s[p + 9]) == 0
        && spec_u16_be(s[p + 10], s[p + 11]) != 1) {
        Err(0x04)
    } else if p + 14 > s.len() {
        Err(0x00)
    } else if s[p + 12] >= 0x80 && !(256 - s[p + 12] == 24 || 256 - s[p + 12] == 25 || 256 - s[p
        + 12] == 29 || 256 - s[p + 12] == 30) {
        Err(0x05)
    } else {
        Ok(
            MidiFileHeader {
                format: spec_format_of(spec_u16_be(s[p + 8], s[p + 9])),
                num_tracks: spec_u16_be(s[p + 10], s[p + 11]) as u16,
                division: spec_u16_be(s[p + 12], s[p + 13]) as u16,
            },
        )
    }
}

impl MidiFileHeader {
    /// Create a new MidiFileHeader struct from its three fields.
    pub fn new(format: MidiFileFormat, num_tracks: u16, division: u16) -> (r: MidiFileHeader)
        ensures
            r == (MidiFileHeader { format, num_tracks, division }),
    {
        MidiFileHeader { format, num_tracks, division }
    }

    /// Parse a MIDI file header from a ByteReader: the `MThd` magic, a
    /// length of exactly 6, the format, a track count of at least one (and
    /// exactly one for a single-track file), and the division, whose SMPTE
    /// frame rate, if it names one, must be 24, 25, 29 or 30.
    pub fn new_from_reader(reader: &mut ByteReader) -> (r: MidiParseResult<MidiFileHeader>)
        ensures
            final(reader).bytes() == old(reader).bytes(),
            (match (r, spec_read_file_header(old(reader).bytes(), old(reader).cur())) {
                (Ok(h), Ok(h2)) => h == h2 && final(reader).cur() == old(reader).cur() + 14,
                (Err(e), Err(code)) => e.spec_code() == code,
                _ => false,
            }),
    {
        // Validate the header
        let header = reader.get_next_bytes(4)?;
        assert(header@.len() == 4);
        if !(header[0] == 0x4D && header[1] == 0x54 && header[2] == 0x68 && header[3] == 0x64) {
            return Err(MidiParseError::InvalidHeader(String::from_str("Invalid header")));
        }
        // Validate the header length
        let header_length = reader.get_next_u32()?;
        if header_length != 6 {
            return Err(MidiParseError::InvalidDataBounds(String::from_str(
                "Invalid header length",
            )));
        }
        // The first word after the length is the format
        let format_num = reader.get_next_u16()?;
        let format = MidiFileHeader::format_from_u16(format_num)?;

        // The next word is the number of tracks; there must be at least
        // one, and a single-track file holds exactly one track chunk
        let num_tracks = reader.get_next_u16()?;
        if num_tracks == 0 || (matches!(format, MidiFileFormat::SingleTrack) && num_tracks != 1) {
            return Err(MidiParseError::InvalidNumOfTracks(String::from_str(
                "There must be at least one track chunk, and a single track MIDI file only one",
            )));
        }
        // The next word is the division; an SMPTE division must name one of
        // the four defined frame rates
        let division = reader.get_next_u16()?;
        let division_high: u8 = (division / 0x100) as u8;
        if division_high >= 0x80 {
            let fps: u8 = (0x100u16 - division_high as u16) as u8;
            if !(fps == 24 || fps == 25 || fps == 29 || fps == 30) {
                return Err(MidiParseError::InvalidFps(String::from_str(
                    "The SMPTE frame rate must be 24, 25, 29 or 30",
                )));
            }
        }
        Ok(MidiFileHeader { format, num_tracks, division })
    }

    /// Convert a format field value to the MidiFileFormat enum.
    pub fn format_from_u16(format: u16) -> (r: MidiParseResult<MidiFileFormat>)
        ensures
            format <= 2 ==> r == Ok::<MidiFileFormat, MidiParseError>(
                spec_format_of(format as int),
            ),
            format > 2 ==> (r matches Err(e) && e is InvalidFileFormat),
    {
        match format {
            0 => Ok(MidiFileFormat::SingleTrack),
            1 => Ok(MidiFileFormat::MultiTrack),
            2 => Ok(MidiFileFormat::MultiSong),
            _ => Err(MidiParseError::InvalidFileFormat(String::from_str("Invalid file format"))),
        }
    }
}

} // verus!
