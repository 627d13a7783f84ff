//! The player and what it can do on a board: step, look for a wall, expose
//! the square it stands on, count the mines around it, give up.

use vstd::prelude::*;
use super::board::Board;
use super::world::{GameError, World};

verus! {

#[derive(Clone, Copy, Debug, PartialEq, Eq, Structural)]
pub enum Direction {
    Up,
    Down,
    Left,
    Right,
}

impl Direction {
    /// The change of column that one step in this direction makes.
    pub open spec fn dx(self) -> int {
        match self {
            Direction::Left => -1,
            Direction::Right => 1,
            _ => 0,
        }
    }

    /// The change of row that one step in this direction makes; rows count
    /// downwards.
    pub open spec fn dy(self) -> int {
        match self {
            Direction::Up => -1,
            Direction::Down => 1,
            _ => 0,
        }
    }
}

/// The player: where it stands, what it has scored, whether it still plays.
#[derive(Clone, Copy, Debug, PartialEq, Eq, Structural)]
pub struct Player {
    pub x: u8,
    pub y: u8,
    pub score: u64,
    pub alive: bool,
}

/// What exposing the player's square found.
#[derive(Clone, Copy, Debug, PartialEq, Eq, Structural)]
pub struct Exposure {
    pub hit_mine: bool,
    /// The mines around the square; 0 if the square itself hid one.
    pub adjacent_mine_count: u8,
}

impl Player {
    /// Whether the player stands on a square of `board`.
    pub open spec fn on(self, board: Board) -> bool {
        board.on_board(self.x as int, self.y as int)
    }

    /// The square one step away in `direction`.
    pub open spec fn target(self, direction: Direction) -> (int, int) {
        (self.x + direction.dx(), self.y + direction.dy())
    }

    /// A wall blocks the step: the board has no square one step away.
    pub open spec fn faces_wall(self, board: Board, direction: Direction) -> bool {
        !board.on_board(self.target(direction).0, self.target(direction).1)
    }

    /// The player after a step in `direction`: one square further, or where
    /// it was if a wall blocks the step.
    pub open spec fn moved(self, board: Board, direction: Direction) -> Player {
        if self.faces_wall(board, direction) {
            self
        } else {
            Player {
                x: self.target(direction).0 as u8,
                y: self.target(direction).1 as u8,
                ..self
            }
        }
    }

    /// Whether exposing the player's square is a first exposure: the square
    /// is on the board and was not exposed before.
    pub open spec fn exposes_anew(self, board: Board) -> bool {
        self.on(board) && !board.is_exposed(self.x as int, self.y as int)
    }

    /// The player after exposing its square on `board`. Only a first
    /// exposure changes the player: a mine kills it, a safe square scores
    /// one point.
    pub open spec fn after_expose(self, board: Board) -> Player {
        if !self.exposes_anew(board) {
            self
        } else if board.has_mine(self.x as int, self.y as int) {
            Player { alive: false, ..self }
        } else {
            Player { score: (self.score + 1) as u64, ..self }
        }
    }

    /// What exposing the player's square on `board` answers: whether the
    /// square hides a mine, or `OutOfBounds` for a player off the board.
    pub open spec fn expose_answer(self, board: Board) -> Result<bool, GameError> {
        if self.on(board) {
            Ok(board.has_mine(self.x as int, self.y as int))
        } else {
            Err(GameError::OutOfBounds)
        }
    }

    /// The board after the player exposed its square on it.
    pub open spec fn board_after_expose(self, board: Board) -> Board {
        if self.on(board) {
            board.with_exposed(self.x as int, self.y as int)
        } else {
            board
        }
    }

    /// The player that every game starts with: alive, at the origin, with
    /// no score.
    pub open spec fn origin() -> Player {
        Player { x: 0, y: 0, score: 0, alive: true }
    }

    /// A living player at the origin with no score.
    pub fn new() -> (player: Player)
        ensures
            player == Player::origin(),
    {
        Player { x: 0, y: 0, score: 0, alive: true }
    }
}

/// Whether a wall blocks a step of `player` in `direction`. Nothing moves.
pub fn is_wall(world: &World, player: &Player, direction: &Direction) -> (wall: bool)
    ensures
        wall == player.faces_wall(world@, *direction),
{
    proof {
        world.lemma_view_wf();
    }
    match direction {
        Direction::Up => player.y == 0 || !world.contains(player.x, player.y - 1),
        Direction::Down => player.y == u8::MAX || !world.contains(player.x, player.y + 1),
        Direction::Left => player.x == 0 || !world.contains(player.x - 1, player.y),
        Direction::Right => player.x == u8::MAX || !world.contains(player.x + 1, player.y),
    }
}

/// Moves `player` one square in `direction`, or leaves it where it is if a
/// wall blocks the step. A player on the board stays on the board.
pub fn move_player(world: &World, player: &mut Player, direction: &Direction)
    ensures
        *final(player) == old(player).moved(world@, *direction),
        old(player).on(world@) ==> final(player).on(world@),
{
    if !is_wall(world, player, direction) {
        proof {
            world.lemma_view_wf();
        }
        match direction {
            Direction::Up => player.y -= 1,
            Direction::Down => player.y += 1,
            Direction::Left => player.x -= 1,
            Direction::Right => player.x += 1,
        }
    }
}

/// Exposes the square that `player` stands on and tells whether it hides a
/// mine. The first exposure of a mined square kills the player, the first
/// exposure of a safe one scores a point; exposing a square again changes
/// nothing and gives the same answer. A player off the board is refused.
pub fn expose_mine(player: &mut Player, world: &mut World) -> (hit: Result<bool, GameError>)
    requires
        old(player).score < u64::MAX,
    ensures
        hit == old(player).expose_answer(old(world)@),
        *final(player) == old(player).after_expose(old(world)@),
        final(world)@ == old(player).board_after_expose(old(world)@),
{
    let square = match world.get_square(player.x, player.y) {
        Ok(square) => *square,
        Err(error) => {
            return Err(error);
        },
    };
    if square.exposed {
        assert(world@ =~= world@.with_exposed(player.x as int, player.y as int));
        return Ok(square.has_mine);
    }
    world.expose(player.x, player.y).unwrap();
    if square.has_mine {
        player.alive = false;
    } else {
        player.score += 1;
    }
    Ok(square.has_mine)
}

/// The number of mines on the four squares that share an edge with the
/// player's square: all of them are counted, and a neighbour beyond the edge
/// of the board counts nothing.
pub fn num_mines(world: &World, player: &Player) -> (mines: u8)
    ensures
        mines == world@.adjacent_mines(player.x as int, player.y as int),
{
    proof {
        world.lemma_view_wf();
    }
    let mut mines: u8 = 0;
    if player.x > 0 && world.has_mine(player.x - 1, player.y) {
        mines += 1;
    }
    if player.x < u8::MAX && world.has_mine(player.x + 1, player.y) {
        mines += 1;
    }
    if player.y > 0 && world.has_mine(player.x, player.y - 1) {
        mines += 1;
    }
    if player.y < u8::MAX && world.has_mine(player.x, player.y + 1) {
        mines += 1;
    }
    mines
}

/// Exposes the player's square and, if it was safe, counts the mines around
/// it.
pub fn expose_current_square(world: &mut World, player: &mut Player) -> (found: Result<
    Exposure,
    GameError,
>)
    requires
        old(player).score < u64::MAX,
    ensures
        match found {
            Ok(exposure) => {
                &&& old(player).on(old(world)@)
                &&& exposure.hit_mine == old(world)@.has_mine(
                    old(player).x as int,
                    old(player).y as int,
                )
                &&& exposure.adjacent_mine_count == if exposure.hit_mine {
                    0
                } else {
                    old(world)@.adjacent_mines(old(player).x as int, old(player).y as int)
                }
            },
            Err(error) => error == GameError::OutOfBounds && !old(player).on(old(world)@),
        },
        *final(player) == old(player).after_expose(old(world)@),
        final(world)@ == old(player).board_after_expose(old(world)@),
{
    match expose_mine(player, world) {
        Ok(hit_mine) => {
            let adjacent_mine_count = if hit_mine {
                0
            } else {
                num_mines(world, player)
            };
            Ok(Exposure { hit_mine, adjacent_mine_count })
        },
        Err(error) => Err(error),
    }
}

/// Ends the game for `player`.
pub fn quit(player: &mut Player)
    ensures
        *final(player) == (Player { alive: false, ..*old(player) }),
{
    player.alive = false;
}

} // verus!
