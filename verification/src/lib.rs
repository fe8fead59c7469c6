//! Core logic of an mpv rich-presence plugin: translation of raw player
//! notifications into domain events, presence text formatting, the presence
//! session state machine, and cover-art query planning.

pub mod config;
pub mod cover_art;
pub mod events;
pub mod logging;
pub mod presence;
pub mod text;
pub mod translate;
