//! The closed sum of every event a track can hold, with one serializer that
//! matches on the tag.

use vstd::prelude::*;

use crate::messages::channel_pressure::{ChannelPressureEvent, CHANNEL_PRESSURE_TYPE};
use crate::messages::control_change::{ControlChangeEvent, CONTROL_CHANGE_TYPE};
use crate::messages::note_off::{NoteOffEvent, NOTE_OFF_TYPE};
use crate::messages::note_on::{NoteOnEvent, NOTE_ON_TYPE};
use crate::messages::pitch_bend_change::{PitchBendChangeEvent, PITCH_BEND_CHANGE_TYPE};
use crate::messages::polyphonic_key_pressure::{
    PolyphonicKeyPressureEvent, POLYPHONIC_KEY_PRESSURE_TYPE,
};
use crate::messages::program_change::{ProgramChangeEvent, PROGRAM_CHANGE_TYPE};
use crate::metaevents::copyright_notice::{CopyRightNoticeEvent, COPYRIGHT_NOTICE_TYPE};
use crate::metaevents::cue_point::{CuePointEvent, CUE_POINT_TYPE};
use crate::metaevents::end_of_track::{EndOfTrack, END_OF_TRACK_TYPE};
use crate::metaevents::instrument_name::{InstrumentNameEvent, INSTRUMENT_NAME_TYPE};
use crate::metaevents::key_signature::{KeySignatureEvent, KEY_SIGNATURE_TYPE};
use crate::metaevents::lyric::{LyricEvent, LYRIC_TYPE};
use crate::metaevents::marker::{MarkerEvent, MARKER_TYPE};
use crate::metaevents::midi_channel_prefix::{MidiChannelPrefixEvent, MIDI_CHANNEL_PREFIX_TYPE};
use crate::metaevents::midi_port::{MidiPortEvent, MIDI_PORT_TYPE};
use crate::metaevents::sequence_number::{SequenceNumber, SEQUENCE_NUMBER_TYPE};
use crate::metaevents::sequencer_specific::{SequencerSpecificEvent, SEQUENCER_SPECIFIC_TYPE};
use crate::metaevents::set_tempo::{SetTempoEvent, SET_TEMPO_TYPE};
use crate::metaevents::smpte_offset::{SMPTEOffsetEvent, SMPTE_OFFSET_TYPE};
use crate::metaevents::spec_vlq_encode;
use crate::metaevents::text::{TextEvent, TEXT_TYPE};
use crate::metaevents::time_signature::{TimeSignatureEvent, TIME_SIGNATURE_TYPE};
use crate::metaevents::track_name::{TrackNameEvent, TRACK_NAME_TYPE};
use crate::midi_error::MidiError;

verus! {

/// Any event of a track: one of the seven channel voice kinds or one of the
/// meta kinds.
#[derive(Debug, Clone, PartialEq)]
pub enum SerializableEvent {
    NoteOn(NoteOnEvent),
    NoteOff(NoteOffEvent),
    PolyphonicKeyPressure(PolyphonicKeyPressureEvent),
    ControlChange(ControlChangeEvent),
    ProgramChange(ProgramChangeEvent),
    ChannelPressure(ChannelPressureEvent),
    PitchBendChange(PitchBendChangeEvent),
    SequenceNumber(SequenceNumber),
    Text(TextEvent),
    CopyrightNotice(CopyRightNoticeEvent),
    TrackName(TrackNameEvent),
    InstrumentName(InstrumentNameEvent),
    Lyric(LyricEvent),
    Marker(MarkerEvent),
    CuePoint(CuePointEvent),
    MidiChannelPrefix(MidiChannelPrefixEvent),
    MidiPort(MidiPortEvent),
    EndOfTrack(EndOfTrack),
    SetTempo(SetTempoEvent),
    SmpteOffset(SMPTEOffsetEvent),
    TimeSignature(TimeSignatureEvent),
    KeySignature(KeySignatureEvent),
    SequencerSpecific(SequencerSpecificEvent),
}

impl SerializableEvent {
    /// The on-wire encoding of this event, delta time excluded.
    pub open spec fn wire(self) -> Seq<u8> {
        match self {
            SerializableEvent::NoteOn(e) => e.wire(),
            SerializableEvent::NoteOff(e) => e.wire(),
            SerializableEvent::PolyphonicKeyPressure(e) => e.wire(),
            SerializableEvent::ControlChange(e) => e.wire(),
            SerializableEvent::ProgramChange(e) => e.wire(),
            SerializableEvent::ChannelPressure(e) => e.wire(),
            SerializableEvent::PitchBendChange(e) => e.wire(),
            SerializableEvent::SequenceNumber(e) => e.wire(),
            SerializableEvent::Text(e) => e.wire(),
            SerializableEvent::CopyrightNotice(e) => e.wire(),
            SerializableEvent::TrackName(e) => e.wire(),
            SerializableEvent::InstrumentName(e) => e.wire(),
            SerializableEvent::Lyric(e) => e.wire(),
            SerializableEvent::Marker(e) => e.wire(),
            SerializableEvent::CuePoint(e) => e.wire(),
            SerializableEvent::MidiChannelPrefix(e) => e.wire(),
            SerializableEvent::MidiPort(e) => e.wire(),
            SerializableEvent::EndOfTrack(e) => e.wire(),
            SerializableEvent::SetTempo(e) => e.wire(),
            SerializableEvent::SmpteOffset(e) => e.wire(),
            SerializableEvent::TimeSignature(e) => e.wire(),
            SerializableEvent::KeySignature(e) => e.wire(),
            SerializableEvent::SequencerSpecific(e) => e.wire(),
        }
    }

    /// Whether the carried event is well formed: its fields fit the wire
    /// format and its recorded size matches it.
    pub open spec fn valid(self) -> bool {
        match self {
            SerializableEvent::NoteOn(e) => e.valid(),
            SerializableEvent::NoteOff(e) => e.valid(),
            SerializableEvent::PolyphonicKeyPressure(e) => e.valid(),
            SerializableEvent::ControlChange(e) => e.valid(),
            SerializableEvent::ProgramChange(e) => e.valid(),
            SerializableEvent::ChannelPressure(e) => e.valid(),
            SerializableEvent::PitchBendChange(e) => e.valid(),
            SerializableEvent::SequenceNumber(e) => e.valid(),
            SerializableEvent::Text(e) => e.valid(),
            SerializableEvent::CopyrightNotice(e) => e.valid(),
            SerializableEvent::TrackName(e) => e.valid(),
            SerializableEvent::InstrumentName(e) => e.valid(),
            SerializableEvent::Lyric(e) => e.valid(),
            SerializableEvent::Marker(e) => e.valid(),
            SerializableEvent::CuePoint(e) => e.valid(),
            SerializableEvent::MidiChannelPrefix(e) => e.valid(),
            SerializableEvent::MidiPort(e) => e.valid(),
            SerializableEvent::EndOfTrack(e) => e.valid(),
            SerializableEvent::SetTempo(e) => e.valid(),
            SerializableEvent::SmpteOffset(e) => e.valid(),
            SerializableEvent::TimeSignature(e) => e.valid(),
            SerializableEvent::KeySignature(e) => e.valid(),
            SerializableEvent::SequencerSpecific(e) => e.valid(),
        }
    }

    /// The delta time carried by this event.
    pub open spec fn spec_delta_time(self) -> u32 {
        match self {
            SerializableEvent::NoteOn(e) => e.delta_time,
            SerializableEvent::NoteOff(e) => e.delta_time,
            SerializableEvent::PolyphonicKeyPressure(e) => e.delta_time,
            SerializableEvent::ControlChange(e) => e.delta_time,
            SerializableEvent::ProgramChange(e) => e.delta_time,
            SerializableEvent::ChannelPressure(e) => e.delta_time,
            SerializableEvent::PitchBendChange(e) => e.delta_time,
            SerializableEvent::SequenceNumber(e) => e.delta_time,
            SerializableEvent::Text(e) => e.delta_time,
            SerializableEvent::CopyrightNotice(e) => e.delta_time,
            SerializableEvent::TrackName(e) => e.delta_time,
            SerializableEvent::InstrumentName(e) => e.delta_time,
            SerializableEvent::Lyric(e) => e.delta_time,
            SerializableEvent::Marker(e) => e.delta_time,
            SerializableEvent::CuePoint(e) => e.delta_time,
            SerializableEvent::MidiChannelPrefix(e) => e.delta_time,
            SerializableEvent::MidiPort(e) => e.delta_time,
            SerializableEvent::EndOfTrack(e) => e.delta_time,
            SerializableEvent::SetTempo(e) => e.delta_time,
            SerializableEvent::SmpteOffset(e) => e.delta_time,
            SerializableEvent::TimeSignature(e) => e.delta_time,
            SerializableEvent::KeySignature(e) => e.delta_time,
            SerializableEvent::SequencerSpecific(e) => e.delta_time,
        }
    }

    /// The recorded byte count of this event's wire form.
    pub open spec fn spec_event_size(self) -> u32 {
        match self {
            SerializableEvent::NoteOn(e) => e.event_size,
            SerializableEvent::NoteOff(e) => e.event_size,
            SerializableEvent::PolyphonicKeyPressure(e) => e.event_size,
            SerializableEvent::ControlChange(e) => e.event_size,
            SerializableEvent::ProgramChange(e) => e.event_size,
            SerializableEvent::ChannelPressure(e) => e.event_size,
            SerializableEvent::PitchBendChange(e) => e.event_size,
            SerializableEvent::SequenceNumber(e) => e.event_size,
            SerializableEvent::Text(e) => e.event_size,
            SerializableEvent::CopyrightNotice(e) => e.event_size,
            SerializableEvent::TrackName(e) => e.event_size,
            SerializableEvent::InstrumentName(e) => e.event_size,
            SerializableEvent::Lyric(e) => e.event_size,
            SerializableEvent::Marker(e) => e.event_size,
            SerializableEvent::CuePoint(e) => e.event_size,
            SerializableEvent::MidiChannelPrefix(e) => e.event_size,
            SerializableEvent::MidiPort(e) => e.event_size,
            SerializableEvent::EndOfTrack(e) => e.event_size,
            SerializableEvent::SetTempo(e) => e.event_size,
            SerializableEvent::SmpteOffset(e) => e.event_size,
            SerializableEvent::TimeSignature(e) => e.event_size,
            SerializableEvent::KeySignature(e) => e.event_size,
            SerializableEvent::SequencerSpecific(e) => e.event_size,
        }
    }

    /// The recorded wall-clock duration of this event's delta time.
    pub open spec fn spec_time_duration(self) -> u64 {
        match self {
            SerializableEvent::NoteOn(e) => e.time_duration,
            SerializableEvent::NoteOff(e) => e.time_duration,
            SerializableEvent::PolyphonicKeyPressure(e) => e.time_duration,
            SerializableEvent::ControlChange(e) => e.time_duration,
            SerializableEvent::ProgramChange(e) => e.time_duration,
            SerializableEvent::ChannelPressure(e) => e.time_duration,
            SerializableEvent::PitchBendChange(e) => e.time_duration,
            SerializableEvent::SequenceNumber(e) => e.time_duration,
            SerializableEvent::Text(e) => e.time_duration,
            SerializableEvent::CopyrightNotice(e) => e.time_duration,
            SerializableEvent::TrackName(e) => e.time_duration,
            SerializableEvent::InstrumentName(e) => e.time_duration,
            SerializableEvent::Lyric(e) => e.time_duration,
            SerializableEvent::Marker(e) => e.time_duration,
            SerializableEvent::CuePoint(e) => e.time_duration,
            SerializableEvent::MidiChannelPrefix(e) => e.time_duration,
            SerializableEvent::MidiPort(e) => e.time_duration,
            SerializableEvent::EndOfTrack(e) => e.time_duration,
            SerializableEvent::SetTempo(e) => e.time_duration,
            SerializableEvent::SmpteOffset(e) => e.time_duration,
            SerializableEvent::TimeSignature(e) => e.time_duration,
            SerializableEvent::KeySignature(e) => e.time_duration,
            SerializableEvent::SequencerSpecific(e) => e.time_duration,
        }
    }

    /// Whether this is a channel voice event, the kind running status may
    /// compress.
    pub open spec fn spec_is_channel_voice(self) -> bool {
        match self {
            SerializableEvent::NoteOn(_) => true,
            SerializableEvent::NoteOff(_) => true,
            SerializableEvent::PolyphonicKeyPressure(_) => true,
            SerializableEvent::ControlChange(_) => true,
            SerializableEvent::ProgramChange(_) => true,
            SerializableEvent::ChannelPressure(_) => true,
            SerializableEvent::PitchBendChange(_) => true,
            _ => false,
        }
    }

    /// The status nibble of a channel voice event, or the meta type byte of
    /// a meta-event.
    pub open spec fn spec_event_type(self) -> u8 {
        match self {
            SerializableEvent::NoteOn(_) => NOTE_ON_TYPE,
            SerializableEvent::NoteOff(_) => NOTE_OFF_TYPE,
            SerializableEvent::PolyphonicKeyPressure(_) => POLYPHONIC_KEY_PRESSURE_TYPE,
            SerializableEvent::ControlChange(_) => CONTROL_CHANGE_TYPE,
            SerializableEvent::ProgramChange(_) => PROGRAM_CHANGE_TYPE,
            SerializableEvent::ChannelPressure(_) => CHANNEL_PRESSURE_TYPE,
            SerializableEvent::PitchBendChange(_) => PITCH_BEND_CHANGE_TYPE,
            SerializableEvent::SequenceNumber(_) => SEQUENCE_NUMBER_TYPE,
            SerializableEvent::Text(_) => TEXT_TYPE,
            SerializableEvent::CopyrightNotice(_) => COPYRIGHT_NOTICE_TYPE,
            SerializableEvent::TrackName(_) => TRACK_NAME_TYPE,
            SerializableEvent::InstrumentName(_) => INSTRUMENT_NAME_TYPE,
            SerializableEvent::Lyric(_) => LYRIC_TYPE,
            SerializableEvent::Marker(_) => MARKER_TYPE,
            SerializableEvent::CuePoint(_) => CUE_POINT_TYPE,
            SerializableEvent::MidiChannelPrefix(_) => MIDI_CHANNEL_PREFIX_TYPE,
            SerializableEvent::MidiPort(_) => MIDI_PORT_TYPE,
            SerializableEvent::EndOfTrack(_) => END_OF_TRACK_TYPE,
            SerializableEvent::SetTempo(_) => SET_TEMPO_TYPE,
            SerializableEvent::SmpteOffset(_) => SMPTE_OFFSET_TYPE,
            SerializableEvent::TimeSignature(_) => TIME_SIGNATURE_TYPE,
            SerializableEvent::KeySignature(_) => KEY_SIGNATURE_TYPE,
            SerializableEvent::SequencerSpecific(_) => SEQUENCER_SPECIFIC_TYPE,
        }
    }

    /// The channel of a channel voice event; meta-events report zero.
    pub open spec fn spec_channel(self) -> u8 {
        match self {
            SerializableEvent::NoteOn(e) => e.channel,
            SerializableEvent::NoteOff(e) => e.channel,
            SerializableEvent::PolyphonicKeyPressure(e) => e.channel,
            SerializableEvent::ControlChange(e) => e.channel,
            SerializableEvent::ProgramChange(e) => e.channel,
            SerializableEvent::ChannelPressure(e) => e.channel,
            SerializableEvent::PitchBendChange(e) => e.channel,
            _ => 0,
        }
    }

    /// The on-wire encoding without the leading delta time; only a
    /// time-signature event whose denominator fits no wire byte is refused.
    pub fn to_bytes(&self) -> (r: Result<Vec<u8>, MidiError>)
        ensures
            r matches Ok(v) ==> v@ =~= self.wire(),
            self.valid() ==> r is Ok,
    {
        match self {
            SerializableEvent::NoteOn(e) => e.to_bytes(),
            SerializableEvent::NoteOff(e) => e.to_bytes(),
            SerializableEvent::PolyphonicKeyPressure(e) => e.to_bytes(),
            SerializableEvent::ControlChange(e) => e.to_bytes(),
            SerializableEvent::ProgramChange(e) => e.to_bytes(),
            SerializableEvent::ChannelPressure(e) => e.to_bytes(),
            SerializableEvent::PitchBendChange(e) => e.to_bytes(),
            SerializableEvent::SequenceNumber(e) => e.to_bytes(),
            SerializableEvent::Text(e) => e.to_bytes(),
            SerializableEvent::CopyrightNotice(e) => e.to_bytes(),
            SerializableEvent::TrackName(e) => e.to_bytes(),
            SerializableEvent::InstrumentName(e) => e.to_bytes(),
            SerializableEvent::Lyric(e) => e.to_bytes(),
            SerializableEvent::Marker(e) => e.to_bytes(),
            SerializableEvent::CuePoint(e) => e.to_bytes(),
            SerializableEvent::MidiChannelPrefix(e) => e.to_bytes(),
            SerializableEvent::MidiPort(e) => e.to_bytes(),
            SerializableEvent::EndOfTrack(e) => e.to_bytes(),
            SerializableEvent::SetTempo(e) => e.to_bytes(),
            SerializableEvent::SmpteOffset(e) => e.to_bytes(),
            SerializableEvent::TimeSignature(e) => e.to_bytes(),
            SerializableEvent::KeySignature(e) => e.to_bytes(),
            SerializableEvent::SequencerSpecific(e) => e.to_bytes(),
        }
    }

    /// The on-wire encoding, prefixed by the delta time.
    pub fn to_bytes_delta_time(&self) -> (r: Result<Vec<u8>, MidiError>)
        ensures
            r matches Ok(v) ==> v@ =~= spec_vlq_encode(self.spec_delta_time() as int)
                + self.wire(),
            self.valid() ==> r is Ok,
    {
        match self {
            SerializableEvent::NoteOn(e) => e.to_bytes_delta_time(),
            SerializableEvent::NoteOff(e) => e.to_bytes_delta_time(),
            SerializableEvent::PolyphonicKeyPressure(e) => e.to_bytes_delta_time(),
            SerializableEvent::ControlChange(e) => e.to_bytes_delta_time(),
            SerializableEvent::ProgramChange(e) => e.to_bytes_delta_time(),
            SerializableEvent::ChannelPressure(e) => e.to_bytes_delta_time(),
            SerializableEvent::PitchBendChange(e) => e.to_bytes_delta_time(),
            SerializableEvent::SequenceNumber(e) => e.to_bytes_delta_time(),
            SerializableEvent::Text(e) => e.to_bytes_delta_time(),
            SerializableEvent::CopyrightNotice(e) => e.to_bytes_delta_time(),
            SerializableEvent::TrackName(e) => e.to_bytes_delta_time(),
            SerializableEvent::InstrumentName(e) => e.to_bytes_delta_time(),
            SerializableEvent::Lyric(e) => e.to_bytes_delta_time(),
            SerializableEvent::Marker(e) => e.to_bytes_delta_time(),
            SerializableEvent::CuePoint(e) => e.to_bytes_delta_time(),
            SerializableEvent::MidiChannelPrefix(e) => e.to_bytes_delta_time(),
            SerializableEvent::MidiPort(e) => e.to_bytes_delta_time(),
            SerializableEvent::EndOfTrack(e) => e.to_bytes_delta_time(),
            SerializableEvent::SetTempo(e) => e.to_bytes_delta_time(),
            SerializableEvent::SmpteOffset(e) => e.to_bytes_delta_time(),
            SerializableEvent::TimeSignature(e) => e.to_bytes_delta_time(),
            SerializableEvent::KeySignature(e) => e.to_bytes_delta_time(),
            SerializableEvent::SequencerSpecific(e) => e.to_bytes_delta_time(),
        }
    }

    /// The recorded byte count of the on-wire form, delta time excluded.
    pub fn get_event_size(&self) -> (r: u32)
        ensures
            r == self.spec_event_size(),
    {
        match self {
            SerializableEvent::NoteOn(e) => e.get_event_size(),
            SerializableEvent::NoteOff(e) => e.get_event_size(),
            SerializableEvent::PolyphonicKeyPressure(e) => e.get_event_size(),
            SerializableEvent::ControlChange(e) => e.get_event_size(),
            SerializableEvent::ProgramChange(e) => e.get_event_size(),
            SerializableEvent::ChannelPressure(e) => e.get_event_size(),
            SerializableEvent::PitchBendChange(e) => e.get_event_size(),
            SerializableEvent::SequenceNumber(e) => e.get_event_size(),
            SerializableEvent::Text(e) => e.get_event_size(),
            SerializableEvent::CopyrightNotice(e) => e.get_event_size(),
            SerializableEvent::TrackName(e) => e.get_event_size(),
            SerializableEvent::InstrumentName(e) => e.get_event_size(),
            SerializableEvent::Lyric(e) => e.get_event_size(),
            SerializableEvent::Marker(e) => e.get_event_size(),
            SerializableEvent::CuePoint(e) => e.get_event_size(),
            SerializableEvent::MidiChannelPrefix(e) => e.get_event_size(),
            SerializableEvent::MidiPort(e) => e.get_event_size(),
            SerializableEvent::EndOfTrack(e) => e.get_event_size(),
            SerializableEvent::SetTempo(e) => e.get_event_size(),
            SerializableEvent::SmpteOffset(e) => e.get_event_size(),
            SerializableEvent::TimeSignature(e) => e.get_event_size(),
            SerializableEvent::KeySignature(e) => e.get_event_size(),
            SerializableEvent::SequencerSpecific(e) => e.get_event_size(),
        }
    }

    /// The delta time carried by this event.
    pub fn get_delta_time(&self) -> (r: u32)
        ensures
            r == self.spec_delta_time(),
    {
        match self {
            SerializableEvent::NoteOn(e) => e.get_delta_time(),
            SerializableEvent::NoteOff(e) => e.get_delta_time(),
            SerializableEvent::PolyphonicKeyPressure(e) => e.get_delta_time(),
            SerializableEvent::ControlChange(e) => e.get_delta_time(),
            SerializableEvent::ProgramChange(e) => e.get_delta_time(),
            SerializableEvent::ChannelPressure(e) => e.get_delta_time(),
            SerializableEvent::PitchBendChange(e) => e.get_delta_time(),
            SerializableEvent::SequenceNumber(e) => e.get_delta_time(),
            SerializableEvent::Text(e) => e.get_delta_time(),
            SerializableEvent::CopyrightNotice(e) => e.get_delta_time(),
            SerializableEvent::TrackName(e) => e.get_delta_time(),
            SerializableEvent::InstrumentName(e) => e.get_delta_time(),
            SerializableEvent::Lyric(e) => e.get_delta_time(),
            SerializableEvent::Marker(e) => e.get_delta_time(),
            SerializableEvent::CuePoint(e) => e.get_delta_time(),
            SerializableEvent::MidiChannelPrefix(e) => e.get_delta_time(),
            SerializableEvent::MidiPort(e) => e.get_delta_time(),
            SerializableEvent::EndOfTrack(e) => e.get_delta_time(),
            SerializableEvent::SetTempo(e) => e.get_delta_time(),
            SerializableEvent::SmpteOffset(e) => e.get_delta_time(),
            SerializableEvent::TimeSignature(e) => e.get_delta_time(),
            SerializableEvent::KeySignature(e) => e.get_delta_time(),
            SerializableEvent::SequencerSpecific(e) => e.get_delta_time(),
        }
    }

    /// Whether this event may use running status: true exactly for channel
    /// voice events.
    pub fn is_running_status_allowed(&self) -> (r: bool)
        ensures
            r == self.spec_is_channel_voice(),
    {
        match self {
            SerializableEvent::NoteOn(_) => true,
            SerializableEvent::NoteOff(_) => true,
            SerializableEvent::PolyphonicKeyPressure(_) => true,
            SerializableEvent::ControlChange(_) => true,
            SerializableEvent::ProgramChange(_) => true,
            SerializableEvent::ChannelPressure(_) => true,
            SerializableEvent::PitchBendChange(_) => true,
            _ => false,
        }
    }

    /// The status nibble of a channel voice event, or the meta type byte of
    /// a meta-event.
    pub fn event_type(&self) -> (r: u8)
        ensures
            r == self.spec_event_type(),
    {
        match self {
            SerializableEvent::NoteOn(e) => e.event_type(),
            SerializableEvent::NoteOff(e) => e.event_type(),
            SerializableEvent::PolyphonicKeyPressure(e) => e.event_type(),
            SerializableEvent::ControlChange(e) => e.event_type(),
            SerializableEvent::ProgramChange(e) => e.event_type(),
            SerializableEvent::ChannelPressure(e) => e.event_type(),
            SerializableEvent::PitchBendChange(e) => e.event_type(),
            SerializableEvent::SequenceNumber(e) => e.event_type(),
            SerializableEvent::Text(e) => e.event_type(),
            SerializableEvent::CopyrightNotice(e) => e.event_type(),
            SerializableEvent::TrackName(e) => e.event_type(),
            SerializableEvent::InstrumentName(e) => e.event_type(),
            SerializableEvent::Lyric(e) => e.event_type(),
            SerializableEvent::Marker(e) => e.event_type(),
            SerializableEvent::CuePoint(e) => e.event_type(),
            SerializableEvent::MidiChannelPrefix(e) => e.event_type(),
            SerializableEvent::MidiPort(e) => e.event_type(),
            SerializableEvent::EndOfTrack(e) => e.event_type(),
            SerializableEvent::SetTempo(e) => e.event_type(),
            SerializableEvent::SmpteOffset(e) => e.event_type(),
            SerializableEvent::TimeSignature(e) => e.event_type(),
            SerializableEvent::KeySignature(e) => e.event_type(),
            SerializableEvent::SequencerSpecific(e) => e.event_type(),
        }
    }

    /// The channel of a channel voice event; meta-events report zero.
    pub fn get_channel(&self) -> (r: u8)
        ensures
            r == self.spec_channel(),
    {
        match self {
            SerializableEvent::NoteOn(e) => e.get_channel(),
            SerializableEvent::NoteOff(e) => e.get_channel(),
            SerializableEvent::PolyphonicKeyPressure(e) => e.get_channel(),
            SerializableEvent::ControlChange(e) => e.get_channel(),
            SerializableEvent::ProgramChange(e) => e.get_channel(),
            SerializableEvent::ChannelPressure(e) => e.get_channel(),
            SerializableEvent::PitchBendChange(e) => e.get_channel(),
            _ => 0,
        }
    }

    /// The name of the carried event's kind.
    pub fn get_event_name(&self) -> (r: String)
    {
        match self {
            SerializableEvent::NoteOn(e) => e.get_event_name(),
            SerializableEvent::NoteOff(e) => e.get_event_name(),
            SerializableEvent::PolyphonicKeyPressure(e) => e.get_event_name(),
            SerializableEvent::ControlChange(e) => e.get_event_name(),
            SerializableEvent::ProgramChange(e) => e.get_event_name(),
            SerializableEvent::ChannelPressure(e) => e.get_event_name(),
            SerializableEvent::PitchBendChange(e) => e.get_event_name(),
            SerializableEvent::SequenceNumber(e) => e.get_event_name(),
            SerializableEvent::Text(e) => e.get_event_name(),
            SerializableEvent::CopyrightNotice(e) => e.get_event_name(),
            SerializableEvent::TrackName(e) => e.get_event_name(),
            SerializableEvent::InstrumentName(e) => e.get_event_name(),
            SerializableEvent::Lyric(e) => e.get_event_name(),
            SerializableEvent::Marker(e) => e.get_event_name(),
            SerializableEvent::CuePoint(e) => e.get_event_name(),
            SerializableEvent::MidiChannelPrefix(e) => e.get_event_name(),
            SerializableEvent::MidiPort(e) => e.get_event_name(),
            SerializableEvent::EndOfTrack(e) => e.get_event_name(),
            SerializableEvent::SetTempo(e) => e.get_event_name(),
            SerializableEvent::SmpteOffset(e) => e.get_event_name(),
            SerializableEvent::TimeSignature(e) => e.get_event_name(),
            SerializableEvent::KeySignature(e) => e.get_event_name(),
            SerializableEvent::SequencerSpecific(e) => e.get_event_name(),
        }
    }

    /// The recorded wall-clock microseconds of this event's delta time.
    pub fn get_time_duration(&self) -> (r: u64)
        ensures
            r == self.spec_time_duration(),
    {
        match self {
            SerializableEvent::NoteOn(e) => e.get_time_duration(),
            SerializableEvent::NoteOff(e) => e.get_time_duration(),
            SerializableEvent::PolyphonicKeyPressure(e) => e.get_time_duration(),
            SerializableEvent::ControlChange(e) => e.get_time_duration(),
            SerializableEvent::ProgramChange(e) => e.get_time_duration(),
            SerializableEvent::ChannelPressure(e) => e.get_time_duration(),
            SerializableEvent::PitchBendChange(e) => e.get_time_duration(),
            SerializableEvent::SequenceNumber(e) => e.get_time_duration(),
            SerializableEvent::Text(e) => e.get_time_duration(),
            SerializableEvent::CopyrightNotice(e) => e.get_time_duration(),
            SerializableEvent::TrackName(e) => e.get_time_duration(),
            SerializableEvent::InstrumentName(e) => e.get_time_duration(),
            SerializableEvent::Lyric(e) => e.get_time_duration(),
            SerializableEvent::Marker(e) => e.get_time_duration(),
            SerializableEvent::CuePoint(e) => e.get_time_duration(),
            SerializableEvent::MidiChannelPrefix(e) => e.get_time_duration(),
            SerializableEvent::MidiPort(e) => e.get_time_duration(),
            SerializableEvent::EndOfTrack(e) => e.get_time_duration(),
            SerializableEvent::SetTempo(e) => e.get_time_duration(),
            SerializableEvent::SmpteOffset(e) => e.get_time_duration(),
            SerializableEvent::TimeSignature(e) => e.get_time_duration(),
            SerializableEvent::KeySignature(e) => e.get_time_duration(),
            SerializableEvent::SequencerSpecific(e) => e.get_time_duration(),
        }
    }
}

} // verus!
