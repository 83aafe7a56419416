//! Rules engine for a two-player chess game: board storage, movement
//! geometry, path blocking, check detection, castling, promotion and the
//! turn state machine that ties them together.

pub mod piece;
pub mod board;
pub mod pattern;
pub mod path;
pub mod threat;
pub mod castling;
pub mod rules;
pub mod game;
pub mod laws;
