//! The fixed channel-1 MIDI messages that the session transmits.
use vstd::prelude::*;

verus! {

/// Largest value of a MIDI data byte.
pub const DATA_MAX: u8 = 127;

/// A value clamped to the 0..=127 data range.
pub open spec fn data_byte(v: u8) -> u8 {
    if v > 127 { 127 } else { v }
}

/// A note-on velocity: clamped to 1..=127, since 0 would mean note off.
pub open spec fn velocity_byte(v: u8) -> u8 {
    if v == 0 { 1 } else { data_byte(v) }
}

/// Clamps `v` to the data range.
pub fn clamp_data(v: u8) -> (r: u8)
    ensures
        r == data_byte(v),
        r <= 127,
{
    if v > DATA_MAX { DATA_MAX } else { v }
}

/// Clamps a note-on velocity to 1..=127.
pub fn clamp_velocity(v: u8) -> (r: u8)
    ensures
        r == velocity_byte(v),
        1 <= r <= 127,
{
    if v == 0 { 1 } else { clamp_data(v) }
}

/// Note on, channel 1.
pub fn note_on_message(note: u8, velocity: u8) -> (r: Vec<u8>)
    ensures
        r@ == seq![0x90u8, data_byte(note), velocity_byte(velocity)],
{
    let n = clamp_data(note);
    let v = clamp_velocity(velocity);
    let r = vec![0x90u8, n, v];
    assert(r@ =~= seq![0x90u8, data_byte(note), velocity_byte(velocity)]);
    r
}

/// Note off, channel 1.
pub fn note_off_message(note: u8) -> (r: Vec<u8>)
    ensures
        r@ == seq![0x80u8, data_byte(note), 0u8],
{
    let n = clamp_data(note);
    let r = vec![0x80u8, n, 0u8];
    assert(r@ =~= seq![0x80u8, data_byte(note), 0u8]);
    r
}

/// Program change, channel 1.
pub fn program_change_message(program: u8) -> (r: Vec<u8>)
    ensures
        r@ == seq![0xC0u8, data_byte(program)],
{
    let p = clamp_data(program);
    let r = vec![0xC0u8, p];
    assert(r@ =~= seq![0xC0u8, data_byte(program)]);
    r
}

/// The two controller messages that silence channel 1, in the order they
/// are sent: all sound off, then all notes off.
pub fn all_notes_off_messages() -> (r: Vec<Vec<u8>>)
    ensures
        r@.len() == 2,
        r@[0]@ == seq![0xB0u8, 0x78u8, 0u8],
        r@[1]@ == seq![0xB0u8, 0x7Bu8, 0u8],
{
    let sound_off = vec![0xB0u8, 0x78u8, 0u8];
    let notes_off = vec![0xB0u8, 0x7Bu8, 0u8];
    assert(sound_off@ =~= seq![0xB0u8, 0x78u8, 0u8]);
    assert(notes_off@ =~= seq![0xB0u8, 0x7Bu8, 0u8]);
    vec![sound_off, notes_off]
}

} // verus!
