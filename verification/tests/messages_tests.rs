use midi::messages::channel_pressure::ChannelPressureEvent;
use midi::messages::control_change::ControlChangeEvent;
use midi::messages::note_on::NoteOnEvent;
use midi::messages::pitch_bend_change::PitchBendChangeEvent;
use midi::messages::program_change::ProgramChangeEvent;
use midi::metadata::TimeDivision;
use midi::midi_error::{EventError, MidiError, ParseError};

const DIVISION: TimeDivision = TimeDivision::PulsesPerQuarterNote(96);

#[test]
fn note_on_from_bytes_reads_status_and_data() {
    let event = NoteOnEvent::from_bytes(&[0x91, 60, 64], 5, DIVISION, 500000).unwrap();
    assert_eq!(event.channel, 1);
    assert_eq!(event.midi_note, 60);
    assert_eq!(event.velocity, 64);
    assert_eq!(event.get_delta_time(), 5);
    assert_eq!(event.get_event_size(), 3);
    assert_eq!(event.to_bytes().unwrap(), vec![0x91, 60, 64]);
    assert_eq!(event.to_bytes_delta_time().unwrap(), vec![5, 0x91, 60, 64]);
}

#[test]
fn note_on_rejects_a_data_byte_with_its_high_bit_set() {
    let result = NoteOnEvent::from_bytes(&[0x90, 0x80, 64], 0, DIVISION, 500000);
    assert!(matches!(
        result,
        Err(MidiError::ParseError(ParseError::InvalidEventBytes(_)))
    ));
}

#[test]
fn note_on_new_validates_its_fields() {
    let event = NoteOnEvent::new(60, 64, 0).unwrap();
    assert_eq!(event.midi_note, 60);
    assert!(matches!(
        NoteOnEvent::new(0x80, 64, 0),
        Err(MidiError::EventError(EventError::InvalidEvent))
    ));
    assert!(matches!(
        NoteOnEvent::new(60, 64, 16),
        Err(MidiError::EventError(EventError::InvalidEvent))
    ));
}

#[test]
fn note_on_round_trips_through_a_note() {
    let event = NoteOnEvent::new(61, 100, 2).unwrap();
    let note = event.get_note();
    let back = NoteOnEvent::new_from_note(note, 100, 2).unwrap();
    assert_eq!(back.midi_note, 61);
}

#[test]
fn note_on_new_from_status_keeps_the_delta_time() {
    let event = NoteOnEvent::new_from_status(&[60, 0], 96, 3, DIVISION, 500000).unwrap();
    assert_eq!(event.channel, 3);
    assert_eq!(event.midi_note, 60);
    assert_eq!(event.velocity, 0);
    assert_eq!(event.get_delta_time(), 96);
}

#[test]
fn control_change_new_from_status_keeps_the_delta_time() {
    let event = ControlChangeEvent::new_from_status(&[7, 100], 48, 4, DIVISION, 500000).unwrap();
    assert_eq!(event.channel, 4);
    assert_eq!(event.control, 7);
    assert_eq!(event.control_value, 100);
    assert_eq!(event.get_delta_time(), 48);
}

#[test]
fn program_change_spans_two_bytes() {
    let event = ProgramChangeEvent::from_bytes(&[0xC5, 0x09], 0, DIVISION, 500000).unwrap();
    assert_eq!(event.channel, 5);
    assert_eq!(event.program, 9);
    assert_eq!(event.get_event_size(), 2);
    assert_eq!(event.to_bytes().unwrap(), vec![0xC5, 0x09]);
}

#[test]
fn channel_pressure_spans_two_bytes() {
    let event = ChannelPressureEvent::from_bytes(&[0xD2, 0x33], 0, DIVISION, 500000).unwrap();
    assert_eq!(event.channel, 2);
    assert_eq!(event.pressure_value, 0x33);
    assert_eq!(event.get_event_size(), 2);
}

#[test]
fn pitch_bend_keeps_both_data_bytes() {
    let event = PitchBendChangeEvent::from_bytes(&[0xE0, 0x7F, 0x7F], 0, DIVISION, 500000).unwrap();
    assert_eq!(event.pitch_bend_lsb, 0x7F);
    assert_eq!(event.pitch_bend_msb, 0x7F);
    assert_eq!(event.event_type(), 0xE0);
    // The logical 14-bit position is (msb << 7) | lsb
    let position: u16 = ((event.pitch_bend_msb as u16) << 7) | event.pitch_bend_lsb as u16;
    assert_eq!(position, 0x3FFF);
    assert_eq!(event.to_bytes().unwrap(), vec![0xE0, 0x7F, 0x7F]);

    let centered = PitchBendChangeEvent::from_bytes(&[0xE0, 0x00, 0x00], 0, DIVISION, 500000).unwrap();
    assert_eq!(centered.pitch_bend_lsb, 0);
    assert_eq!(centered.pitch_bend_msb, 0);
}

#[test]
fn voice_events_allow_running_status_and_metas_do_not() {
    let on = NoteOnEvent::from_bytes(&[0x90, 1, 2], 0, DIVISION, 500000).unwrap();
    assert!(on.is_running_status_allowed());
    let eot = midi::metaevents::end_of_track::EndOfTrack::new().unwrap();
    assert!(!eot.is_running_status_allowed());
    assert_eq!(eot.get_channel(), 0);
}

#[test]
fn time_duration_uses_integer_microseconds() {
    // 96 ticks at 96 pulses per quarter and 500000 microseconds per quarter
    // is exactly one quarter note
    let event = NoteOnEvent::from_bytes(&[0x90, 60, 64], 96, DIVISION, 500000).unwrap();
    assert_eq!(event.get_time_duration(), 500000);
    // Under an SMPTE division of 24 frames of 40 ticks, a quarter spans 240
    // ticks
    let event = NoteOnEvent::from_bytes(
        &[0x90, 60, 64],
        240,
        TimeDivision::SMPTE(24, 40),
        500000,
    )
    .unwrap();
    assert_eq!(event.get_time_duration(), 500000);
}
