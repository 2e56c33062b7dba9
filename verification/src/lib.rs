//! A command-line Pomodoro timer library.
//!
//! The session cycle controller alternates timed Work and Break (or Long
//! Break) phases, tracks a cycle counter to insert periodic long breaks,
//! and decides the alert-playback policy. Rendering, audio output and
//! argument handling are left to the surrounding binary; everything here
//! is plain logic with verified contracts.

pub mod alert;
pub mod config;
pub mod countdown;
pub mod laws;
pub mod parse;
pub mod session;
