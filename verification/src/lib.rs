//! A verified metronome core for a rhythm-driven game.
//!
//! The heart of the crate is the musical-timing engine: note-duration
//! math derived from a tempo and a time signature, repeating note
//! timers, a metronome that drives one timer per subdivision, a
//! playback state machine fed by an ordered command queue, and a
//! current-song registry with explicit change detection. Around it sit
//! the small pure data types of the surrounding game: input actions,
//! game states, settings, character stats, and UI styling rules.
//!
//! All time is measured in whole nanoseconds, the resolution of the
//! standard library's `Duration` that repeating timers are usually
//! built on. Durations derived from a tempo are rounded down to the
//! nanosecond; the rounding is part of every contract.

pub mod actions;
pub mod character;
pub mod menu;
pub mod metronome;
pub mod playback;
pub mod player;
pub mod settings;
pub mod song;
pub mod states;
pub mod timer;
pub mod timing;
pub mod ui;
