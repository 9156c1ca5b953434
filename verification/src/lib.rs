//! A two-state cellular automaton on a fixed rectangular board, together with
//! the picture of each generation as a buffer of RGBA pixels.
//!
//! [`generation`] is the mathematical model: a board of cells, the eight
//! neighbours of a cell, the birth and survival rule and the successor of a
//! whole generation. [`world`] is the executable board, whose every operation
//! has a contract over that model, and [`laws`] states what holds of the rule
//! in general. The random cells of a fresh world come from the `rand` crate.

pub mod generation;
pub mod laws;
mod seed;
pub mod world;

pub use world::World;
