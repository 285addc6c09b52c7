//! A terminal music player's playback session: the playlist cursor, the view
//! tabs, the play queue as seen from an audio engine, the progress clock, and
//! the small text editor used to ask for the music directory.

pub mod app;
pub mod clock;
pub mod config;
pub mod event;
pub mod input;
pub mod text;
pub mod ui;
pub mod width;
