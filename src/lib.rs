//! Character-sheet engine for a tabletop role-playing game: ability scores,
//! racial bonuses and proficiencies, recomputed in full on every change.
//!
//! `sheet` holds the mathematical model of a sheet and `laws` the properties
//! proved of it; `character` is the executable sheet, whose every method is
//! specified as a step of that model.
pub mod ability;
pub mod character;
pub mod common;
pub mod dice;
pub mod laws;
pub mod profeciency;
pub mod race;
pub mod sheet;
mod vecs;
