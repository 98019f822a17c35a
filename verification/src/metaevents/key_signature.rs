//! The Key Signature meta-event and the circle-of-fifths tables.

use vstd::prelude::*;
use vstd::string::StringExecFns;

use crate::metadata::TimeDivision;
use crate::metaevents::{
    calculate_time_duration, from_vlq_to_bytes, spec_time_duration, spec_vlq_encode,
};
use crate::midi_error::{EventError, MidiError, ParseError};

verus! {

/// The meta-event type byte of a key signature.
pub const KEY_SIGNATURE_TYPE: u8 = 0x59;

/// The on-wire size: `0xFF 0x59 0x02 <sharps/flats> <mode>`.
pub const KEY_SIGNATURE_SIZE: u32 = 5;

/// Major or minor mode.
#[derive(Debug, Clone, Copy, PartialEq, Eq, Structural)]
pub enum Mode {
    Major,
    Minor,
}

impl Mode {
    /// The mode byte of this mode.
    pub open spec fn spec_number(self) -> u8 {
        match self {
            Mode::Major => 0,
            Mode::Minor => 1,
        }
    }

    /// The on-wire byte of this mode: 0 for major, 1 for minor.
    pub fn to_number(&self) -> (r: u8)
        ensures
            r == self.spec_number(),
    {
        match self {
            Mode::Major => 0,
            Mode::Minor => 1,
        }
    }
}

/// Whether the key letter is altered.
#[derive(Debug, Clone, Copy, PartialEq, Eq, Structural)]
pub enum Accidentals {
    Flat,
    Natural,
    Sharp,
}

/// The seven key letters.
#[derive(Debug, Clone, Copy, PartialEq, Eq, Structural)]
pub enum Key {
    C,
    D,
    E,
    F,
    G,
    A,
    B,
}

/// A key signature: its letter, accidental, mode, and signed count of
/// sharps (positive) or flats (negative).
#[derive(Debug, Clone, PartialEq, Eq, Structural)]
pub struct KeySignature {
    pub key: Key,
    pub accidental: Accidentals,
    pub mode: Mode,
    pub num_of_accidentals: i8,
}

/// The signed value a data byte denotes as a two's-complement i8.
pub open spec fn spec_signed_byte(b: u8) -> int {
    if b < 0x80 {
        b as int
    } else {
        b - 256
    }
}

/// The byte that stores a signed sharps/flats count.
pub open spec fn spec_byte_of_signed(n: int) -> u8
    recommends
        -128 <= n < 128,
{
    if n >= 0 {
        n as u8
    } else {
        (n + 256) as u8
    }
}

/// The key and accidental on the circle of fifths for a signed count of
/// sharps or flats, for counts in [-7, 7].
pub open spec fn spec_key_signature_of(n: int) -> Option<(Key, Accidentals)> {
    if n == 0 {
        Some((Key::C, Accidentals::Natural))
    } else if n == 1 {
        Some((Key::G, Accidentals::Natural))
    } else if n == 2 {
        Some((Key::D, Accidentals::Natural))
    } else if n == 3 {
        Some((Key::A, Accidentals::Natural))
    } else if n == 4 {
        Some((Key::E, Accidentals::Natural))
    } else if n == 5 {
        Some((Key::B, Accidentals::Natural))
    } else if n == 6 {
        Some((Key::F, Accidentals::Sharp))
    } else if n == 7 {
        Some((Key::C, Accidentals::Sharp))
    } else if n == -1 {
        Some((Key::F, Accidentals::Natural))
    } else if n == -2 {
        Some((Key::B, Accidentals::Flat))
    } else if n == -3 {
        Some((Key::E, Accidentals::Flat))
    } else if n == -4 {
        Some((Key::A, Accidentals::Flat))
    } else if n == -5 {
        Some((Key::D, Accidentals::Flat))
    } else if n == -6 {
        Some((Key::G, Accidentals::Flat))
    } else if n == -7 {
        Some((Key::C, Accidentals::Flat))
    } else {
        None
    }
}

/// The signed sharps/flats count of any key and accidental pair; total, so
/// enharmonic spellings map to their equivalent signature.
pub open spec fn spec_accidentals_of(key: Key, accidental: Accidentals) -> i8 {
    match (key, accidental) {
        (Key::C, Accidentals::Natural) => 0i8,
        (Key::G, Accidentals::Natural) => 1i8,
        (Key::D, Accidentals::Natural) => 2i8,
        (Key::A, Accidentals::Natural) => 3i8,
        (Key::E, Accidentals::Natural) => 4i8,
        (Key::B, Accidentals::Natural) => 5i8,
        (Key::F, Accidentals::Sharp) => 6i8,
        (Key::C, Accidentals::Sharp) => 7i8,
        (Key::F, Accidentals::Natural) => -1i8,
        (Key::B, Accidentals::Flat) => -2i8,
        (Key::E, Accidentals::Flat) => -3i8,
        (Key::A, Accidentals::Flat) => -4i8,
        (Key::D, Accidentals::Flat) => -5i8,
        (Key::G, Accidentals::Flat) => -6i8,
        (Key::C, Accidentals::Flat) => -7i8,
        (Key::D, Accidentals::Sharp) => -3i8,
        (Key::E, Accidentals::Sharp) => -1i8,
        (Key::F, Accidentals::Flat) => 4i8,
        (Key::G, Accidentals::Sharp) => -4i8,
        (Key::A, Accidentals::Sharp) => -2i8,
        (Key::B, Accidentals::Sharp) => 0i8,
    }
}

/// The two tables invert each other on the canonical range: reading a count
/// in [-7, 7] off the circle of fifths and mapping the pair back gives the
/// same count.
pub proof fn lemma_key_signature_round_trip(n: i8)
    requires
        -7 <= n <= 7,
    ensures
        spec_key_signature_of(n as int) matches Some(p) && spec_accidentals_of(p.0, p.1) == n,
{
}

/// The key and accidental a signed count in [-7, 7] denotes.
pub fn get_key_signature_from_num_of_accidentals(byte: i8) -> (r: Result<
    (Key, Accidentals),
    MidiError,
>)
    ensures
        -7 <= byte <= 7 ==> (r matches Ok(p) && spec_key_signature_of(byte as int) == Some(p)),
        !(-7 <= byte <= 7) ==> (r matches Err(e) && e matches MidiError::EventError(
            EventError::InvalidKeySignature(_),
        )),
{
    match byte {
        0 => Ok((Key::C, Accidentals::Natural)),
        1 => Ok((Key::G, Accidentals::Natural)),
        2 => Ok((Key::D, Accidentals::Natural)),
        3 => Ok((Key::A, Accidentals::Natural)),
        4 => Ok((Key::E, Accidentals::Natural)),
        5 => Ok((Key::B, Accidentals::Natural)),
        6 => Ok((Key::F, Accidentals::Sharp)),
        7 => Ok((Key::C, Accidentals::Sharp)),
        -1 => Ok((Key::F, Accidentals::Natural)),
        -2 => Ok((Key::B, Accidentals::Flat)),
        -3 => Ok((Key::E, Accidentals::Flat)),
        -4 => Ok((Key::A, Accidentals::Flat)),
        -5 => Ok((Key::D, Accidentals::Flat)),
        -6 => Ok((Key::G, Accidentals::Flat)),
        -7 => Ok((Key::C, Accidentals::Flat)),
        _ => Err(MidiError::EventError(EventError::InvalidKeySignature(String::from_str(
            "The sharps/flats count must be between -7 and 7",
        )))),
    }
}

/// The signed count of any key and accidental pair.
pub fn get_num_of_accidentals_from_key_signature(key: Key, accidental: Accidentals) -> (r: i8)
    ensures
        r == spec_accidentals_of(key, accidental),
{
    match (key, accidental) {
        (Key::C, Accidentals::Natural) => 0,
        (Key::G, Accidentals::Natural) => 1,
        (Key::D, Accidentals::Natural) => 2,
        (Key::A, Accidentals::Natural) => 3,
        (Key::E, Accidentals::Natural) => 4,
        (Key::B, Accidentals::Natural) => 5,
        (Key::F, Accidentals::Sharp) => 6,
        (Key::C, Accidentals::Sharp) => 7,
        (Key::F, Accidentals::Natural) => -1,
        (Key::B, Accidentals::Flat) => -2,
        (Key::E, Accidentals::Flat) => -3,
        (Key::A, Accidentals::Flat) => -4,
        (Key::D, Accidentals::Flat) => -5,
        (Key::G, Accidentals::Flat) => -6,
        (Key::C, Accidentals::Flat) => -7,
        // Spellings that name no standard signature map to their enharmonic
        // equivalents
        (Key::D, Accidentals::Sharp) => -3,
        (Key::E, Accidentals::Sharp) => -1,
        (Key::F, Accidentals::Flat) => 4,
        (Key::G, Accidentals::Sharp) => -4,
        (Key::A, Accidentals::Sharp) => -2,
        (Key::B, Accidentals::Sharp) => 0,
    }
}

impl KeySignature {
    /// Build a key signature from its parts, deriving the signed count.
    pub fn new(key: Key, accidental: Accidentals, mode: Mode) -> (r: Result<Self, MidiError>)
        ensures
            r matches Ok(ks) && ks == (KeySignature {
                key,
                accidental,
                mode,
                num_of_accidentals: spec_accidentals_of(key, accidental),
            }),
    {
        Ok(KeySignature {
            key,
            accidental,
            mode,
            num_of_accidentals: get_num_of_accidentals_from_key_signature(key, accidental),
        })
    }
}

/// The Key Signature meta-event.
#[derive(Debug, Clone, PartialEq, Eq, Structural)]
pub struct KeySignatureEvent {
    pub key_signature: KeySignature,
    pub event_size: u32,
    pub delta_time: u32,
    pub time_duration: u64,
}

impl KeySignatureEvent {
    /// The on-wire encoding, delta time excluded.
    pub open spec fn wire(self) -> Seq<u8> {
        seq![
            0xFFu8,
            KEY_SIGNATURE_TYPE,
            0x02u8,
            spec_byte_of_signed(self.key_signature.num_of_accidentals as int),
            self.key_signature.mode.spec_number(),
        ]
    }

    /// A canonical signature within [-7, 7] and a size that matches the wire
    /// form.
    pub open spec fn valid(self) -> bool {
        &&& -7 <= self.key_signature.num_of_accidentals <= 7
        &&& spec_key_signature_of(self.key_signature.num_of_accidentals as int) == Some(
            (self.key_signature.key, self.key_signature.accidental),
        )
        &&& self.event_size == KEY_SIGNATURE_SIZE
        &&& self.delta_time <= 0x0FFFFFFF
    }

    /// Parse from `data`, whose first bytes must be `0xFF 0x59 0x02`.
    pub fn from_bytes(
        data: &[u8],
        delta_time: u32,
        time_division: TimeDivision,
        tempo: u32,
    ) -> (r: Result<Self, MidiError>)
        ensures
            data@.len() >= 5 && data@[2] == 0x02 && -7 <= spec_signed_byte(data@[3]) <= 7
                && data@[4] <= 1 ==> (r matches Ok(e) && ({
                &&& Some((e.key_signature.key, e.key_signature.accidental))
                    == spec_key_signature_of(spec_signed_byte(data@[3]))
                &&& e.key_signature.num_of_accidentals == spec_signed_byte(data@[3])
                &&& e.key_signature.mode.spec_number() == data@[4]
                &&& e.event_size == KEY_SIGNATURE_SIZE
                &&& e.delta_time == delta_time
                &&& e.time_duration == spec_time_duration(delta_time, time_division, tempo)
            })),
            data@.len() < 5 ==> r == Err::<Self, MidiError>(
                MidiError::ParseError(ParseError::EndOfData),
            ),
            data@.len() >= 5 && data@[2] != 0x02 ==> (r matches Err(e) && e
                matches MidiError::ParseError(ParseError::InvalidEventBytes(_))),
            data@.len() >= 5 && data@[2] == 0x02 && !(-7 <= spec_signed_byte(data@[3]) <= 7
                && data@[4] <= 1) ==> (r matches Err(e) && e matches MidiError::EventError(
                EventError::InvalidKeySignature(_),
            )),
    {
        if data.len() < 5 {
            return Err(MidiError::ParseError(ParseError::EndOfData));
        }
        let time_duration = calculate_time_duration(delta_time, time_division, tempo);
        let len_byte: u8 = *vstd::slice::slice_index_get(data, 2);
        if len_byte != 0x02 {
            return Err(MidiError::ParseError(ParseError::InvalidEventBytes(String::from_str(
                "A key signature carries exactly two payload bytes",
            ))));
        }
        let sf_byte: u8 = *vstd::slice::slice_index_get(data, 3);
        let sf: i8 = if sf_byte < 0x80 {
            sf_byte as i8
        } else {
            ((sf_byte as i16) - 256) as i8
        };
        let (key, accidental) = get_key_signature_from_num_of_accidentals(sf)?;
        let mode_byte: u8 = *vstd::slice::slice_index_get(data, 4);
        let mode: Mode = match mode_byte {
            0 => Mode::Major,
            1 => Mode::Minor,
            _ => {
                return Err(MidiError::EventError(EventError::InvalidKeySignature(
                    String::from_str("The mode byte must be 0 for major or 1 for minor"),
                )));
            },
        };
        Ok(KeySignatureEvent {
            key_signature: KeySignature { key, accidental, mode, num_of_accidentals: sf },
            event_size: KEY_SIGNATURE_SIZE,
            delta_time,
            time_duration,
        })
    }

    /// Build a key-signature event at delta time zero.
    pub fn new(key_signature: KeySignature) -> (r: Result<Self, MidiError>)
        ensures
            r matches Ok(e) && e == (KeySignatureEvent {
                key_signature,
                event_size: KEY_SIGNATURE_SIZE,
                delta_time: 0u32,
                time_duration: 0u64,
            }),
    {
        Ok(KeySignatureEvent {
            key_signature,
            event_size: KEY_SIGNATURE_SIZE,
            delta_time: 0,
            time_duration: 0,
        })
    }

    /// The on-wire encoding without the leading delta time.
    pub fn to_bytes(&self) -> (r: Result<Vec<u8>, MidiError>)
        ensures
            r matches Ok(v) && v@ =~= self.wire(),
    {
        let sf: i8 = self.key_signature.num_of_accidentals;
        let sf_byte: u8 = if sf >= 0 {
            sf as u8
        } else {
            ((sf as i16) + 256) as u8
        };
        let bytes: Vec<u8> = vec![
            0xFFu8,
            KEY_SIGNATURE_TYPE,
            0x02u8,
            sf_byte,
            self.key_signature.mode.to_number(),
        ];
        Ok(bytes)
    }

    /// The on-wire encoding, prefixed by the delta time.
    pub fn to_bytes_delta_time(&self) -> (r: Result<Vec<u8>, MidiError>)
        ensures
            r matches Ok(v) && v@ =~= spec_vlq_encode(self.delta_time as int) + self.wire(),
    {
        let mut bytes: Vec<u8> = from_vlq_to_bytes(self.delta_time);
        let sf: i8 = self.key_signature.num_of_accidentals;
        let sf_byte: u8 = if sf >= 0 {
            sf as u8
        } else {
            ((sf as i16) + 256) as u8
        };
        bytes.push(0xFF);
        bytes.push(KEY_SIGNATURE_TYPE);
        bytes.push(0x02);
        bytes.push(sf_byte);
        bytes.push(self.key_signature.mode.to_number());
        Ok(bytes)
    }

    /// The name of this event kind.
    pub fn get_event_name(&self) -> (r: String)
        ensures
            r@ == "Key Signature"@,
    {
        String::from_str("Key Signature")
    }

    /// Meta-events never use running status.
    pub fn is_running_status_allowed(&self) -> (r: bool)
        ensures
            !r,
    {
        false
    }

    /// The meta-event type byte of this event kind.
    pub fn event_type(&self) -> (r: u8)
        ensures
            r == KEY_SIGNATURE_TYPE,
    {
        KEY_SIGNATURE_TYPE
    }

    /// Meta-events report channel zero.
    pub fn get_channel(&self) -> (r: u8)
        ensures
            r == 0,
    {
        0
    }

    /// The byte count of the on-wire form, delta time excluded.
    pub fn get_event_size(&self) -> (r: u32)
        ensures
            r == self.event_size,
    {
        self.event_size
    }

    /// Ticks since the previous event of the track.
    pub fn get_delta_time(&self) -> (r: u32)
        ensures
            r == self.delta_time,
    {
        self.delta_time
    }

    /// The wall-clock microseconds this event's delta time spans.
    pub fn get_time_duration(&self) -> (r: u64)
        ensures
            r == self.time_duration,
    {
        self.time_duration
    }
}

} // verus!
