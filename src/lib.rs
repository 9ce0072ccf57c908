//! Session and selection state for a desktop synthesizer control surface:
//! one live MIDI output connection, and a rack of instrument plugin names
//! with a cursor that stays valid as the list changes.
pub mod catalog;
pub mod message;
pub mod names;
pub mod order;
pub mod paths;
pub mod ports;
pub mod rack;
pub mod session;
