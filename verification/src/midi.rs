//! The file facade: compose the header with its tracks, and write the
//! whole file back out byte for byte.

use vstd::prelude::*;

pub mod file_header;

use crate::metadata::{spec_parse_metadata, FileFormat, MetaData, TimeDivision};
use crate::metaevents::DEFAULT_TEMPO;
use crate::midi_error::{EventError, MidiError, ParseError};
use crate::track::{
    spec_num_tracks, spec_parse_tracks_ok, spec_serialize_events, spec_serialize_track,
    spec_tracks_to, spec_tracks_to_some, Track,
};

verus! {

/// The whole of a Standard MIDI File: its header and its tracks, in order.
#[derive(Debug, Clone, PartialEq)]
pub struct MidiFile {
    pub header: MetaData,
    pub tracks: Vec<Track>,
}

/// The numeric value of a format field.
pub open spec fn spec_format_num(f: FileFormat) -> int {
    match f {
        FileFormat::SINGLE_TRACK => 0,
        FileFormat::MULTI_TRACK => 1,
        FileFormat::MULTI_SONG => 2,
    }
}

/// The two division bytes of a header.
pub open spec fn spec_division_bytes(d: TimeDivision) -> Seq<u8> {
    match d {
        TimeDivision::PulsesPerQuarterNote(p) => seq![(p / 0x100) as u8, (p % 0x100) as u8],
        TimeDivision::SMPTE(fps, ticks_per_frame) => seq![(256 - fps) as u8, ticks_per_frame],
    }
}

/// The fourteen header bytes of a file: the `MThd` magic, a length of six,
/// the format, the track count, and the division.
pub open spec fn spec_serialize_header(h: MetaData) -> Seq<u8> {
    seq![
        0x4Du8,
        0x54u8,
        0x68u8,
        0x64u8,
        0u8,
        0u8,
        0u8,
        6u8,
        0u8,
        spec_format_num(h.file_format) as u8,
        (h.num_of_tracks / 0x100) as u8,
        (h.num_of_tracks % 0x100) as u8,
    ] + spec_division_bytes(h.time_division)
}

/// The serialization of a list of tracks, chunk after chunk.
pub open spec fn spec_serialize_tracks(tracks: Seq<Track>) -> Seq<u8>
    decreases tracks.len(),
{
    if tracks.len() == 0 {
        Seq::empty()
    } else {
        spec_serialize_track(tracks[0].events@) + spec_serialize_tracks(tracks.drop_first())
    }
}

/// The serialization of a whole file: the header, then the tracks.
pub open spec fn spec_serialize_file(header: MetaData, tracks: Seq<Track>) -> Seq<u8> {
    spec_serialize_header(header) + spec_serialize_tracks(tracks)
}

/// A track whose serializer cannot refuse it: every event well formed and
/// the body small enough for the chunk's length field.
pub open spec fn spec_track_serializable(t: Track) -> bool {
    &&& forall|i: int| 0 <= i < t.events@.len() ==> (#[trigger] t.events@[i]).valid()
    &&& spec_serialize_events(t.events@).len() <= 0xFFFFFFFF
}

/// Serializing one more track appends its chunk.
proof fn lemma_serialize_tracks_snoc(s: Seq<Track>, t: Track)
    ensures
        spec_serialize_tracks(s.push(t)) =~= spec_serialize_tracks(s) + spec_serialize_track(
            t.events@,
        ),
    decreases s.len(),
{
    if s.len() == 0 {
        assert(s.push(t)[0] == t);
        assert(s.push(t).drop_first() =~= Seq::<Track>::empty());
        assert(spec_serialize_tracks(Seq::<Track>::empty()) =~= Seq::<u8>::empty());
        assert(spec_serialize_tracks(s.push(t)) =~= spec_serialize_track(t.events@));
        assert(spec_serialize_tracks(s) + spec_serialize_track(t.events@) =~= spec_serialize_track(
            t.events@,
        ));
    } else {
        assert(s.push(t)[0] == s[0]);
        assert(s.push(t).drop_first() =~= s.drop_first().push(t));
        lemma_serialize_tracks_snoc(s.drop_first(), t);
        assert((spec_serialize_track(s[0].events@) + spec_serialize_tracks(s.drop_first()))
            + spec_serialize_track(t.events@) =~= spec_serialize_track(s[0].events@) + (
        spec_serialize_tracks(s.drop_first()) + spec_serialize_track(t.events@)));
    }
}

impl MidiFile {
    /// Parse a whole file from a byte buffer: the header, then one `MTrk`
    /// chunk per declared track until the data is exhausted. The parsed
    /// track count must equal the header's.
    pub fn new_from_data(data: &[u8]) -> (r: Result<MidiFile, MidiError>)
        ensures
            (match r {
                Ok(f) => {
                    &&& spec_parse_metadata(data@) == Ok::<MetaData, MidiError>(f.header)
                    &&& spec_parse_tracks_ok(data@.skip(14))
                    &&& spec_tracks_to_some(
                        data@.skip(14),
                        f.header.time_division,
                        DEFAULT_TEMPO,
                        f.tracks@,
                    )
                    &&& f.tracks@.len() == f.header.num_of_tracks
                },
                Err(_) => !(spec_parse_metadata(data@) matches Ok(h) && spec_parse_tracks_ok(
                    data@.skip(14),
                ) && spec_num_tracks(data@.skip(14)) == h.num_of_tracks),
            }),
    {
        let header = MetaData::new(data)?;
        let rest: &[u8] = vstd::slice::slice_subrange(data, 14, data.len());
        assert(rest@ =~= data@.skip(14));
        let (tracks, final_tempo) = (match Track::parse_tracks(
            rest,
            header.time_division,
            DEFAULT_TEMPO,
        ) {
            Ok(p) => p,
            Err(e) => {
                return Err(e);
            },
        });
        if tracks.len() != header.num_of_tracks as usize {
            return Err(MidiError::ParseError(ParseError::InvalidNumOfTracks));
        }
        proof {
            assert(spec_tracks_to(
                data@.skip(14),
                header.time_division,
                DEFAULT_TEMPO,
                tracks@,
                final_tempo,
            ));
            assert(spec_tracks_to_some(
                data@.skip(14),
                header.time_division,
                DEFAULT_TEMPO,
                tracks@,
            ));
        }
        Ok(MidiFile { header, tracks })
    }

    /// The byte-exact serialization of this file: the header, then each
    /// track wrapped in an `MTrk` chunk with its computed length. A track
    /// the serializer cannot write is an invalid state.
    pub fn to_bytes(&self) -> (r: Result<Vec<u8>, MidiError>)
        ensures
            r matches Ok(v) ==> v@ =~= spec_serialize_file(self.header, self.tracks@),
            (forall|i: int|
                0 <= i < self.tracks@.len() ==> spec_track_serializable(
                    #[trigger] self.tracks@[i],
                )) ==> r is Ok,
    {
        let mut bytes: Vec<u8> = vec![0x4Du8, 0x54u8, 0x68u8, 0x64u8, 0u8, 0u8, 0u8, 6u8];
        let format_num: u8 = match self.header.file_format {
            FileFormat::SINGLE_TRACK => 0,
            FileFormat::MULTI_TRACK => 1,
            FileFormat::MULTI_SONG => 2,
        };
        bytes.push(0);
        bytes.push(format_num);
        bytes.push((self.header.num_of_tracks / 0x100) as u8);
        bytes.push((self.header.num_of_tracks % 0x100) as u8);
        match self.header.time_division {
            TimeDivision::PulsesPerQuarterNote(p) => {
                bytes.push((p / 0x100) as u8);
                bytes.push((p % 0x100) as u8);
            },
            TimeDivision::SMPTE(fps, ticks_per_frame) => {
                bytes.push((0x100u16 - fps as u16) as u8);
                bytes.push(ticks_per_frame);
            },
        }
        assert(bytes@ =~= spec_serialize_header(self.header));
        let mut i: usize = 0;
        proof {
            assert(self.tracks@.take(0) =~= Seq::<Track>::empty());
            assert(bytes@ =~= spec_serialize_header(self.header) + spec_serialize_tracks(
                self.tracks@.take(0),
            ));
        }
        while i < self.tracks.len()
            invariant
                i <= self.tracks@.len(),
                bytes@ =~= spec_serialize_header(self.header) + spec_serialize_tracks(
                    self.tracks@.take(i as int),
                ),
            decreases self.tracks@.len() - i,
        {
            let ghost done = self.tracks@.take(i as int);
            let mut track_bytes: Vec<u8> = (match self.tracks[i].to_bytes() {
                Ok(v) => v,
                Err(e) => {
                    return Err(e);
                },
            });
            bytes.append(&mut track_bytes);
            i = i + 1;
            proof {
                lemma_serialize_tracks_snoc(done, self.tracks@[i as int - 1]);
                assert(done.push(self.tracks@[i as int - 1]) =~= self.tracks@.take(i as int));
            }
        }
        proof {
            assert(self.tracks@.take(self.tracks@.len() as int) =~= self.tracks@);
        }
        Ok(bytes)
    }
}

/// A header the serializer writes losslessly: at least one track, exactly
/// one for a single-track file, and a division the two wire bytes can hold.
pub open spec fn spec_header_valid(h: MetaData) -> bool {
    &&& h.num_of_tracks >= 1
    &&& (h.file_format is SINGLE_TRACK ==> h.num_of_tracks == 1)
    &&& (match h.time_division {
        TimeDivision::PulsesPerQuarterNote(p) => 1 <= p <= 0x7FFF,
        TimeDivision::SMPTE(fps, ticks_per_frame) => fps == 24 || fps == 25 || fps == 29 || fps
            == 30,
    })
}

/// A list of tracks the serializer writes losslessly: each track's events
/// well formed under the tempo the previous tracks left, and each recorded
/// size the byte count of its serialized events.
pub open spec fn spec_file_tracks_valid(tracks: Seq<Track>, division: TimeDivision, tempo: u32) -> bool
    decreases tracks.len(),
{
    if tracks.len() == 0 {
        true
    } else {
        let t = tracks[0];
        &&& crate::track::spec_track_events_valid(t.events@, division, tempo)
        &&& t.track_size == spec_serialize_events(t.events@).len()
        &&& spec_serialize_events(t.events@).len() <= 0xFFFFFFFF
        &&& spec_file_tracks_valid(
            tracks.drop_first(),
            division,
            crate::track::spec_final_tempo(t.events@, tempo),
        )
    }
}

/// The tempo in force after a list of tracks.
pub open spec fn spec_file_final_tempo(tracks: Seq<Track>, tempo: u32) -> u32
    decreases tracks.len(),
{
    if tracks.len() == 0 {
        tempo
    } else {
        spec_file_final_tempo(
            tracks.drop_first(),
            crate::track::spec_final_tempo(tracks[0].events@, tempo),
        )
    }
}

} // verus!
