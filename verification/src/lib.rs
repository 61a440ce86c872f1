//! Verified core of a terminal music player for Subsonic servers: the play
//! queue, the playback buffer, the decisions taken on user input and on
//! background events, and the text shown on screen.

pub mod app;
pub mod atomic;
pub mod config;
pub mod library;
pub mod logger;
pub mod model;
pub mod mpris;
pub mod player;
pub mod provider;
pub mod screen;
pub mod worker;
pub mod text;
pub mod ui;
