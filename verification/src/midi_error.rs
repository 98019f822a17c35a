//! The error taxonomy of the track and event parsers.

use vstd::prelude::*;

verus! {

/// Structural problems found while parsing chunks and event streams.
#[derive(Debug, PartialEq)]
pub enum ParseError {
    /// A chunk's magic bytes did not match `MThd` or `MTrk`.
    InvalidHeader,
    /// A header length field other than the six bytes `MThd` declares.
    InvalidDataBounds,
    /// Zero tracks, or a track count that disagrees with the format or the data.
    InvalidNumOfTracks,
    /// The format field was not 0, 1 or 2.
    InvalidFileFormat,
    /// An SMPTE frame rate other than 24, 25, 29 or 30.
    InvalidFPS,
    /// A variable-length quantity would need a fifth byte.
    InvalidVlq,
    /// The data ended in the middle of an event.
    EndOfData,
    /// A framing or byte-count violation at event level.
    InvalidEventBytes(String),
    /// A meta-event type byte this library does not know.
    NotImplemented(String),
}

/// Problems with the payload of an otherwise well-framed event.
#[derive(Debug, PartialEq)]
pub enum EventError {
    /// An event payload that contradicts its own framing rules.
    InvalidEvent,
    /// A sharps/flats count outside [-7, 7] or a mode byte other than 0 or 1.
    InvalidKeySignature(String),
    /// A text payload that is not valid UTF-8.
    InvalidEncoding,
}

/// Any error the parser can surface to a caller.
#[derive(Debug, PartialEq)]
pub enum MidiError {
    ParseError(ParseError),
    EventError(EventError),
}

} // verus!
