//! Errors reported by the byte-level reader and the file-header parser.

use vstd::prelude::*;

verus! {

/// Errors that can arise while walking raw bytes or reading the file header.
#[derive(Debug, PartialEq)]
pub enum MidiParseError {
    /// The reader ran past the end of the data.
    EndOfData(String),
    /// A seek or relative move targeted a position outside the data.
    InvalidDataBounds(String),
    /// A chunk's magic bytes did not match.
    InvalidHeader(String),
    /// The header's format field was not 0, 1 or 2.
    InvalidFileFormat(String),
    /// The header's track count was unacceptable.
    InvalidNumOfTracks(String),
    /// An SMPTE frame rate other than 24, 25, 29 or 30.
    InvalidFps(String),
}

pub type MidiParseResult<T> = Result<T, MidiParseError>;

impl MidiParseError {
    /// The numeric code of each error kind.
    pub open spec fn spec_code(&self) -> u32 {
        match self {
            MidiParseError::EndOfData(_) => 0x00,
            MidiParseError::InvalidDataBounds(_) => 0x01,
            MidiParseError::InvalidHeader(_) => 0x02,
            MidiParseError::InvalidFileFormat(_) => 0x03,
            MidiParseError::InvalidNumOfTracks(_) => 0x04,
            MidiParseError::InvalidFps(_) => 0x05,
        }
    }

    /// Report the numeric code of this error.
    pub fn code(&self) -> (r: u32)
        ensures
            r == self.spec_code(),
    {
        match self {
            MidiParseError::EndOfData(_) => 0x00,
            MidiParseError::InvalidDataBounds(_) => 0x01,
            MidiParseError::InvalidHeader(_) => 0x02,
            MidiParseError::InvalidFileFormat(_) => 0x03,
            MidiParseError::InvalidNumOfTracks(_) => 0x04,
            MidiParseError::InvalidFps(_) => 0x05,
        }
    }
}

} // verus!
