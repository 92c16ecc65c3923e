//! Core logic of a terminal music player: playlist cursor arithmetic,
//! case-insensitive search, display-metadata derivation, and the event-driven
//! transport state machine that reconciles backend events, OS media-control
//! events and terminal input.

pub mod app;
pub mod cover;
pub mod cursor;
pub mod events;
pub mod laws;
pub mod path;
pub mod search;
pub mod text;
pub mod track;
