//! A verified two-player tic-tac-toe game engine: board representation, move
//! validation, win and tie detection, and round lifecycle with a persistent
//! score. Console interaction is left to the surrounding binary.

pub mod game;
pub mod laws;
mod rng;
