//! A board engine for a turn-based Connect-Four variant for two to four
//! players: column-drop insertion on a fixed grid, turn rotation, and
//! win detection across rows, columns, and both diagonals.

pub mod symbol;
pub mod field;
pub mod game;
pub mod laws;
