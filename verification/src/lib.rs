//! A two-player turn-based 3x3 grid game engine.
//!
//! The engine is split in two components: [`board::Board`] holds cell
//! occupancy and enforces the placement rule; [`game::Game`] sequences
//! moves, alternates turns and classifies the outcome (ongoing, draw or
//! winner). Both are immutable values: every operation returns a new
//! value and leaves the receiver intact.

pub mod board;
pub mod game;
pub mod laws;
