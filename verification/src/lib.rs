//! A small turn-based minefield game: a player walks an N×M board, exposes
//! squares that may hide mines, scores for every safe square and dies on a
//! mine.
//!
//! [`game`] holds the engine (board, mine placement, player actions), every
//! operation of it with a machine-checked contract over the mathematical
//! picture of the board in [`game::board`]. [`ui`] holds the part of the text
//! interface that decides and computes: commands, feedback, rendering and the
//! session loop over a script of actions.

pub mod game;
pub mod ui;
