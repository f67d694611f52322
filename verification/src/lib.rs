//! A "guess the number" game controller.
//!
//! The controller owns all game state: the mode (new game, guessing, win,
//! settings), the adjustable difficulty range, the in-progress guess buffer,
//! and the three plain-text display regions (title, body, footer).  A thin
//! windowing front end feeds it key presses and renders the strings it
//! produces; everything the game decides is verified here.

pub mod game;
pub mod numstr;
mod rng;
