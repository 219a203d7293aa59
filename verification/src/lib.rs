//! A terminal idle game: a player automatically fights scripted enemies on a
//! fixed cadence, gains levels, and the session ends in victory or defeat.
//!
//! `game` holds the simulation core (combat resolution, leveling, status
//! transitions, event logging); `engine` holds the loop controller, the
//! dual-rate scheduler and the input dispatcher. Terminal rendering and
//! event polling are left to the binary around this library.

pub mod engine;
pub mod game;
