//! The game engine: the board and its mines, the player and its actions.

pub mod board;
pub mod laws;
pub mod mines;
pub mod player;
pub mod world;

pub use board::Board;
pub use mines::{
    free_square_count, generate_random_mines, is_corner, is_free, nth_free_square,
    random_square_index,
};
pub use player::{
    expose_current_square, expose_mine, is_wall, move_player, num_mines, quit, Direction,
    Exposure, Player,
};
pub use world::{GameError, Square, World};
