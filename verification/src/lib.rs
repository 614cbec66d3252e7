//! Core logic of a terminal audio player: a wrap-around playlist, clamped
//! volume control, an input debouncer, a pause-aware playback clock, progress
//! display computation, and the playback session state machine that ties them
//! together. Terminal drawing, audio decoding and device output live outside
//! this crate; they exchange plain values with the functions here.

pub mod clock;
pub mod config;
pub mod controls;
pub mod debounce;
pub mod display;
pub mod media;
pub mod playlist;
pub mod session;
