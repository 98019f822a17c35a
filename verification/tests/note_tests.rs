use midi::metaevents::key_signature::{Accidentals, Key, KeySignature, Mode};
use midi::note::{Note, PitchClass};

#[test]
fn midi_note_round_trips_through_a_note() {
    for midi_note in [0u8, 11, 12, 59, 60, 61, 127] {
        let note = Note::new_from_midi_note(midi_note);
        assert_eq!(note.to_midi_note(), midi_note);
    }
}

#[test]
fn sharp_keys_spell_accidentals_with_sharps() {
    let sharp_key = KeySignature::new(Key::D, Accidentals::Natural, Mode::Major).unwrap();
    let note = Note::new_from_midi_note_key_signature(61, sharp_key);
    assert_eq!(note.to_midi_note(), 61);
    let plain = Note::new_from_midi_note(61);
    assert_eq!(note, plain);
}

#[test]
fn flat_keys_spell_accidentals_with_flats() {
    let flat_key = KeySignature::new(Key::F, Accidentals::Natural, Mode::Major).unwrap();
    let note = Note::new_from_midi_note_key_signature(61, flat_key);
    assert_eq!(note.to_midi_note(), 61);
    let sharp_spelling = Note::new_from_midi_note(61);
    // Same pitch, different spelling
    assert_ne!(note, sharp_spelling);
}

#[test]
fn naturals_spell_the_same_in_both_kinds_of_key() {
    let flat_key = KeySignature::new(Key::B, Accidentals::Flat, Mode::Major).unwrap();
    let with_flats = Note::new_from_midi_note_key_signature(60, flat_key);
    let with_sharps = Note::new_from_midi_note(60);
    assert_eq!(with_flats, with_sharps);
    assert_eq!(with_flats.to_midi_note(), 60);
}

#[test]
fn pitch_classes_share_enharmonic_midi_notes() {
    assert_eq!(
        Note::new_from_midi_note(61).to_midi_note(),
        Note::new_from_midi_note_key_signature(
            61,
            KeySignature::new(Key::E, Accidentals::Flat, Mode::Major).unwrap()
        )
        .to_midi_note()
    );
    let _ = PitchClass::CSharp;
}
