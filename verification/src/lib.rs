//! A verified tic-tac-toe engine: a 3x3 board model, terminal-state
//! detection, and an exhaustive minimax search that selects an optimal
//! move for the automated player.

pub mod board;
pub mod game;
pub mod search;
