//! A parser and serializer for Standard MIDI Files (SMF).

use vstd::prelude::*;

use crate::metadata::{spec_parse_metadata, MetaData};
use crate::metaevents::{TimeSignature, DEFAULT_TEMPO};
use crate::midi_error::MidiError;
use crate::midi_error::ParseError;
use crate::track::{spec_num_tracks, spec_parse_tracks_ok, spec_tracks_to, Track};

pub mod bytereader;
pub mod messages;
pub mod note;
pub mod track;
pub mod errors;
pub mod events;
pub mod laws;
pub mod metadata;
pub mod metaevents;
pub mod midi;
pub mod midi_error;

verus! {

/// A parsed file together with the name it was read from, the tempo left
/// in force by its tracks, and a default overall time signature.
#[derive(Debug, Clone, PartialEq)]
pub struct Midi {
    pub midi_file: String,
    pub meta_data: MetaData,
    pub tempo: u32,
    pub time_signature: TimeSignature,
    pub track_list: Vec<Track>,
}

impl Midi {
    /// Parse a whole file already read into memory; `midi_file` names where
    /// the bytes came from. The header is read from the first fourteen
    /// bytes and the `MTrk` chunks from the rest, under the header's time
    /// division, starting at the default tempo; the number of chunks must
    /// equal the header's track count.
    pub fn new_from_bytes(midi_file: String, file_contents: &[u8]) -> (r: Result<Midi, MidiError>)
        ensures
            (match r {
                Ok(m) => {
                    &&& spec_parse_metadata(file_contents@) == Ok::<MetaData, MidiError>(
                        m.meta_data,
                    )
                    &&& spec_parse_tracks_ok(file_contents@.skip(14))
                    &&& spec_tracks_to(
                        file_contents@.skip(14),
                        m.meta_data.time_division,
                        DEFAULT_TEMPO,
                        m.track_list@,
                        m.tempo,
                    )
                    &&& m.track_list@.len() == m.meta_data.num_of_tracks
                    &&& m.midi_file == midi_file
                    &&& m.time_signature == (TimeSignature { numerator: 4, denominator: 4 })
                },
                Err(_) => !(spec_parse_metadata(file_contents@) matches Ok(h)
                    && spec_parse_tracks_ok(file_contents@.skip(14)) && spec_num_tracks(
                    file_contents@.skip(14),
                ) == h.num_of_tracks),
            }),
    {
        let meta_data = MetaData::new(file_contents)?;
        let rest: &[u8] = vstd::slice::slice_subrange(file_contents, 14, file_contents.len());
        assert(rest@ =~= file_contents@.skip(14));
        let (track_list, tempo) = (match Track::parse_tracks(
            rest,
            meta_data.time_division,
            DEFAULT_TEMPO,
        ) {
            Ok(p) => p,
            Err(e) => {
                return Err(e);
            },
        });
        if track_list.len() != meta_data.num_of_tracks as usize {
            return Err(MidiError::ParseError(ParseError::InvalidNumOfTracks));
        }
        let time_signature = TimeSignature::new(4, 4)?;
        Ok(Midi { midi_file, meta_data, tempo, time_signature, track_list })
    }
}

/// True when the most significant bit of `byte` is clear, i.e. the byte is a
/// MIDI data byte rather than a status byte.
pub fn is_msb_zero(byte: u8) -> (r: bool)
    ensures
        r == (byte < 0x80),
{
    proof {
        assert((byte & 0b1000_0000) == 0 <==> byte < 0x80) by (bit_vector);
    }
    (byte & 0b1000_0000) == 0
}

} // verus!
