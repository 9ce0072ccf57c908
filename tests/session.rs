use std::cell::Cell;
use std::rc::Rc;

use pulse_synth::message::{
    all_notes_off_messages, clamp_data, clamp_velocity, note_off_message, note_on_message,
    program_change_message,
};
use pulse_synth::session::{CoreError, MidiState};

/// A stand-in connection that counts how many connections are open.
struct Probe {
    id: u32,
    open: Rc<Cell<u32>>,
}

impl Probe {
    fn new(id: u32, open: &Rc<Cell<u32>>) -> Probe {
        open.set(open.get() + 1);
        Probe { id, open: Rc::clone(open) }
    }
}

impl Drop for Probe {
    fn drop(&mut self) {
        self.open.set(self.open.get() - 1);
    }
}

#[test]
fn new_session_is_disconnected() {
    let mut s: MidiState<u32> = MidiState::new();
    assert!(!s.is_connected());
    assert_eq!(s.connected_name(), None);
    assert!(matches!(s.connection_mut(), Err(CoreError::NotConnected)));
}

#[test]
fn connect_then_disconnect_blocks_note_on() {
    let open = Rc::new(Cell::new(0));
    let mut s = MidiState::new();
    s.install(Probe::new(1, &open), "IAC Driver Bus 1".to_string());
    assert!(s.is_connected());
    assert_eq!(s.connected_name().as_deref(), Some("IAC Driver Bus 1"));
    s.disconnect();
    assert_eq!(open.get(), 0);
    assert_eq!(s.connected_name(), None);
    assert!(matches!(s.connection_mut(), Err(CoreError::NotConnected)));
}

#[test]
fn disconnect_is_idempotent() {
    let mut s: MidiState<u32> = MidiState::new();
    s.disconnect();
    s.disconnect();
    assert!(!s.is_connected());
}

#[test]
fn reconnect_keeps_only_the_latest() {
    let open = Rc::new(Cell::new(0));
    let mut s = MidiState::new();
    s.install(Probe::new(1, &open), "First".to_string());
    s.install(Probe::new(2, &open), "Second".to_string());
    assert_eq!(open.get(), 1);
    assert_eq!(s.connected_name().as_deref(), Some("Second"));
    match s.connection_mut() {
        Ok(p) => assert_eq!(p.id, 2),
        Err(e) => panic!("expected a connection, got {:?}", e),
    }
}

#[test]
fn note_on_clamps_note_and_velocity() {
    assert_eq!(note_on_message(200, 0), vec![0x90, 127, 1]);
    assert_eq!(note_on_message(60, 100), vec![0x90, 60, 100]);
    assert_eq!(note_on_message(127, 255), vec![0x90, 127, 127]);
}

#[test]
fn clamping_bounds() {
    assert_eq!(clamp_data(128), 127);
    assert_eq!(clamp_data(0), 0);
    assert_eq!(clamp_velocity(0), 1);
    assert_eq!(clamp_velocity(1), 1);
    assert_eq!(clamp_velocity(200), 127);
}

#[test]
fn note_off_and_program_change() {
    assert_eq!(note_off_message(64), vec![0x80, 64, 0]);
    assert_eq!(note_off_message(250), vec![0x80, 127, 0]);
    assert_eq!(program_change_message(5), vec![0xC0, 5]);
    assert_eq!(program_change_message(128), vec![0xC0, 127]);
}

#[test]
fn all_notes_off_sends_sound_off_then_notes_off() {
    assert_eq!(all_notes_off_messages(), vec![vec![0xB0, 0x78, 0], vec![0xB0, 0x7B, 0]]);
}
