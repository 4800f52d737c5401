//! A single-paddle ball-bounce game: the simulation, the input rules and the
//! frame pacing, as verified logic on plain values.

pub mod game;
