//! Core of a terminal music player: play-mode cycling, playlist ordering,
//! cursor navigation, elapsed-time accounting and volume control, all as a
//! state machine over plain values. A thin driver performs the audio and
//! terminal side effects that the state machine requests.

pub mod play_mode;
pub mod playlist;
pub mod app;
pub mod laws;
pub mod scan;
