//! The text interface, as far as it decides and computes: commands, feedback,
//! rendering, and a session played from a script of actions. Reading input
//! and printing are left to the program around the library.

pub mod command;
pub mod laws;
pub mod render;
pub mod session;

pub use command::{action_for, parse_command, read_command, Action};
pub use render::{draw_square, draw_world, is_player_on_square};
pub use session::{
    expose, handle_action, move_player, play, run_game, Course, Feedback, Session, BOARD_HEIGHT,
    BOARD_WIDTH, MINE_COUNT,
};
