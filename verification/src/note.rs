//! A pitch-class and octave view of raw MIDI note numbers.

use vstd::prelude::*;

use crate::metaevents::key_signature::KeySignature;

verus! {

/// The twelve pitch classes, with both spellings of the five accidentals.
#[derive(Debug, Clone, Copy, PartialEq, Eq, Structural)]
pub enum PitchClass {
    C,
    CSharp,
    DFlat,
    D,
    DSharp,
    EFlat,
    E,
    F,
    FSharp,
    GFlat,
    G,
    GSharp,
    AFlat,
    A,
    ASharp,
    BFlat,
    B,
}

/// The semitone offset of a pitch class within its octave.
pub open spec fn spec_pitch_base(pitch: PitchClass) -> int {
    match pitch {
        PitchClass::C => 0,
        PitchClass::CSharp | PitchClass::DFlat => 1,
        PitchClass::D => 2,
        PitchClass::DSharp | PitchClass::EFlat => 3,
        PitchClass::E => 4,
        PitchClass::F => 5,
        PitchClass::FSharp | PitchClass::GFlat => 6,
        PitchClass::G => 7,
        PitchClass::GSharp | PitchClass::AFlat => 8,
        PitchClass::A => 9,
        PitchClass::ASharp | PitchClass::BFlat => 10,
        PitchClass::B => 11,
    }
}

/// The pitch class of a semitone offset spelled with sharps.
pub open spec fn spec_sharp_pitch(n: int) -> PitchClass {
    if n == 0 {
        PitchClass::C
    } else if n == 1 {
        PitchClass::CSharp
    } else if n == 2 {
        PitchClass::D
    } else if n == 3 {
        PitchClass::DSharp
    } else if n == 4 {
        PitchClass::E
    } else if n == 5 {
        PitchClass::F
    } else if n == 6 {
        PitchClass::FSharp
    } else if n == 7 {
        PitchClass::G
    } else if n == 8 {
        PitchClass::GSharp
    } else if n == 9 {
        PitchClass::A
    } else if n == 10 {
        PitchClass::ASharp
    } else {
        PitchClass::B
    }
}

/// The pitch class of a semitone offset spelled with flats.
pub open spec fn spec_flat_pitch(n: int) -> PitchClass {
    if n == 0 {
        PitchClass::C
    } else if n == 1 {
        PitchClass::DFlat
    } else if n == 2 {
        PitchClass::D
    } else if n == 3 {
        PitchClass::EFlat
    } else if n == 4 {
        PitchClass::E
    } else if n == 5 {
        PitchClass::F
    } else if n == 6 {
        PitchClass::GFlat
    } else if n == 7 {
        PitchClass::G
    } else if n == 8 {
        PitchClass::AFlat
    } else if n == 9 {
        PitchClass::A
    } else if n == 10 {
        PitchClass::BFlat
    } else {
        PitchClass::B
    }
}

/// A note as a pitch class and an octave, with octave -2 holding MIDI note 0.
#[derive(Debug, Clone, Copy, PartialEq)]
pub struct Note {
    pitch: PitchClass,
    octave: i8,
}

impl Note {
    /// The pitch class of this note.
    pub closed spec fn spec_pitch(self) -> PitchClass {
        self.pitch
    }

    /// The octave of this note.
    pub closed spec fn spec_octave(self) -> int {
        self.octave as int
    }

    /// The raw MIDI note number this note denotes.
    pub closed spec fn spec_midi_note(self) -> int {
        12 * (self.octave + 2) + spec_pitch_base(self.pitch)
    }

    #[verifier::type_invariant]
    spec fn wf(self) -> bool {
        -2 <= self.octave && 0 <= self.spec_midi_note() <= 255
    }

    /// The note of a raw MIDI note number, spelled by the key signature:
    /// flats in a flat key, sharps otherwise.
    pub fn new_from_midi_note_key_signature(midi_note: u8, key_signature: KeySignature) -> (r: Note)
        ensures
            r.spec_midi_note() == midi_note,
            r.spec_octave() == midi_note as int / 12 - 2,
            key_signature.num_of_accidentals >= 0 ==> r.spec_pitch() == spec_sharp_pitch(
                midi_note as int % 12,
            ),
            key_signature.num_of_accidentals < 0 ==> r.spec_pitch() == spec_flat_pitch(
                midi_note as int % 12,
            ),
    {
        let pitch_class_number: u8 = midi_note % 12;
        let octave: i8 = (midi_note / 12) as i8 - 2;

        let pitch: PitchClass = if key_signature.num_of_accidentals >= 0 {
            match pitch_class_number {
                0 => PitchClass::C,
                1 => PitchClass::CSharp,
                2 => PitchClass::D,
                3 => PitchClass::DSharp,
                4 => PitchClass::E,
                5 => PitchClass::F,
                6 => PitchClass::FSharp,
                7 => PitchClass::G,
                8 => PitchClass::GSharp,
                9 => PitchClass::A,
                10 => PitchClass::ASharp,
                _ => PitchClass::B,
            }
        } else {
            match pitch_class_number {
                0 => PitchClass::C,
                1 => PitchClass::DFlat,
                2 => PitchClass::D,
                3 => PitchClass::EFlat,
                4 => PitchClass::E,
                5 => PitchClass::F,
                6 => PitchClass::GFlat,
                7 => PitchClass::G,
                8 => PitchClass::AFlat,
                9 => PitchClass::A,
                10 => PitchClass::BFlat,
                _ => PitchClass::B,
            }
        };

        Note { pitch, octave }
    }

    /// The note of a raw MIDI note number, spelled with sharps.
    pub fn new_from_midi_note(midi_note: u8) -> (r: Note)
        ensures
            r.spec_midi_note() == midi_note,
            r.spec_octave() == midi_note as int / 12 - 2,
            r.spec_pitch() == spec_sharp_pitch(midi_note as int % 12),
    {
        let pitch_class_number: u8 = midi_note % 12;
        let octave: i8 = (midi_note / 12) as i8 - 2;

        let pitch: PitchClass = match pitch_class_number {
            0 => PitchClass::C,
            1 => PitchClass::CSharp,
            2 => PitchClass::D,
            3 => PitchClass::DSharp,
            4 => PitchClass::E,
            5 => PitchClass::F,
            6 => PitchClass::FSharp,
            7 => PitchClass::G,
            8 => PitchClass::GSharp,
            9 => PitchClass::A,
            10 => PitchClass::ASharp,
            _ => PitchClass::B,
        };

        Note { pitch, octave }
    }

    /// The raw MIDI note number of this note.
    pub fn to_midi_note(&self) -> (r: u8)
        ensures
            r == self.spec_midi_note(),
    {
        proof {
            use_type_invariant(&*self);
        }
        let base_number: u8 = match self.pitch {
            PitchClass::C => 0,
            PitchClass::CSharp | PitchClass::DFlat => 1,
            PitchClass::D => 2,
            PitchClass::DSharp | PitchClass::EFlat => 3,
            PitchClass::E => 4,
            PitchClass::F => 5,
            PitchClass::FSharp | PitchClass::GFlat => 6,
            PitchClass::G => 7,
            PitchClass::GSharp | PitchClass::AFlat => 8,
            PitchClass::A => 9,
            PitchClass::ASharp | PitchClass::BFlat => 10,
            PitchClass::B => 11,
        };

        ((self.octave as i16 + 2) * 12 + base_number as i16) as u8
    }
}

} // verus!
