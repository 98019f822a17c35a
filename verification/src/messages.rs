//! Channel voice messages: performance events addressed to one of 16
//! channels.

use vstd::prelude::*;

pub mod channel_pressure;
pub mod control_change;
pub mod note_off;
pub mod note_on;
pub mod pitch_bend_change;
pub mod polyphonic_key_pressure;
pub mod program_change;

pub use channel_pressure::ChannelPressureEvent;
pub use control_change::ControlChangeEvent;
pub use note_off::NoteOffEvent;
pub use note_on::NoteOnEvent;
pub use pitch_bend_change::PitchBendChangeEvent;
pub use polyphonic_key_pressure::PolyphonicKeyPressureEvent;
pub use program_change::ProgramChangeEvent;

verus! {

/// The low nibble of a status byte holds the channel.
pub const CHANNEL_MASK: u8 = 0b0000_1111;

/// The high nibble of a status byte holds the event type.
pub const EVENT_MASK: u8 = 0b1111_0000;

/// How a status byte splits into its type nibble and channel nibble.
pub proof fn lemma_status_byte(hi: u8, ch: u8)
    by (bit_vector)
    requires
        hi == 0x80 || hi == 0x90 || hi == 0xA0 || hi == 0xB0 || hi == 0xC0 || hi == 0xD0 || hi
            == 0xE0,
        ch < 0x10,
    ensures
        (hi | ch) & 0x0F == ch,
        (hi | ch) & 0xF0 == hi,
        (hi | ch) >= 0x80,
        hi != 0xF0 ==> (hi | ch) != 0xFF,
        ch == 0 ==> (hi | ch) == hi,
{
}

/// The channel nibble of any byte is below 16, and masking splits the byte.
pub proof fn lemma_channel_mask(b: u8)
    by (bit_vector)
    ensures
        b & 0x0F < 0x10,
        (b & 0xF0) | (b & 0x0F) == b,
        (b & 0xF0) & 0x0F == 0,
        b >= 0x80 ==> (b & 0xF0) >= 0x80,
{
}

} // verus!
