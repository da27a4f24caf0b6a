//! Verified core of the banqi desktop front end: the session state machine
//! behind the commands, the text that the board view shows, the model
//! catalogue and the ordering of search-tree edges.

pub mod text;
pub mod board;
pub mod state;
pub mod models;
pub mod session;
pub mod mcts;
