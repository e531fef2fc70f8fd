//! Deterministic rules of a grand-strategy battle game: the resource ledger,
//! the province map with its per-faction index, and the combat engine.
//!
//! Every quantity that has a fractional part (morale, formation multipliers,
//! positions, health) is held as an integer number of thousandths, so that
//! results are the same on every machine and can be stated exactly.

pub mod battle;
pub mod buildings;
pub mod combat;
pub mod fixed;
pub mod game;
pub mod generator;
pub mod geometry;
pub mod ids;
pub mod resources;
pub mod tactics;
pub mod units;
pub mod world;
