//! A two-player tic-tac-toe engine: board templates, coordinate parsing,
//! move application and win detection, with machine-checked contracts.

pub mod field;
pub mod game;
pub mod moves;
pub mod text;
pub mod win;
