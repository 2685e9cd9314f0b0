//! What the program takes from its surroundings.

pub mod env;
