//! Fixed-tick movement of a single ship in a walled arena.
pub mod arena;
pub mod intent;
pub mod laws;
pub mod movement;
