//! Core of a gamepad-driven overlay for a media player: the player protocol
//! client, its seek sessions, and the view and command state machine.
//!
//! Nothing in this crate performs I/O. Every function takes what was read
//! from the outside as plain values and returns what has to be sent.

pub mod app;
pub mod command;
pub mod dlna;
pub mod gamepad;
pub mod mpv;
pub mod text;
pub mod ui;
pub mod utils;
