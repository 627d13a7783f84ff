//! One action at a time, and whole sessions: what each action does to the
//! board and the player, what the interface has to tell the player about it,
//! and the game played from a script of actions.

use rand::rngs::StdRng;
use vstd::prelude::*;
use super::command::Action;
use crate::game::board::{corner_count, Board};
use crate::game::mines::generate_random_mines;
use crate::game::player::{expose_current_square, is_wall, quit, Direction, Player};
use crate::game::world::{GameError, World};

verus! {

/// The width of the board that `run_game` plays on.
pub const BOARD_WIDTH: u8 = 4;

/// The height of the board that `run_game` plays on.
pub const BOARD_HEIGHT: u8 = 4;

/// The number of mines that `run_game` hides.
pub const MINE_COUNT: u8 = 8;

/// What the interface has to tell the player after an action.
#[derive(Clone, Copy, Debug, PartialEq, Eq, Structural)]
pub enum Feedback {
    /// The player took a step.
    Moved,
    /// A wall blocked the step.
    Wall,
    /// The exposed square hid a mine.
    Boom { score: u64 },
    /// The exposed square was safe, with so many mines around it.
    Safe { adjacent_mines: u8, score: u64 },
    /// The player asked for the score.
    Score { score: u64 },
    /// The player gave up.
    Goodbye,
}

/// Where a session stands: the board, the player, and the feedback given so
/// far.
pub struct Course {
    pub board: Board,
    pub player: Player,
    pub log: Seq<Feedback>,
}

/// A finished session of `run_game`.
#[derive(Debug)]
pub struct Session {
    pub world: World,
    pub player: Player,
    pub log: Vec<Feedback>,
}

impl Action {
    /// The direction of a move; `None` for the other actions.
    pub open spec fn direction(self) -> Option<Direction> {
        match self {
            Action::MoveUp => Some(Direction::Up),
            Action::MoveDown => Some(Direction::Down),
            Action::MoveLeft => Some(Direction::Left),
            Action::MoveRight => Some(Direction::Right),
            _ => None,
        }
    }
}

/// The player after `action`.
pub open spec fn player_after(board: Board, player: Player, action: Action) -> Player {
    match action {
        Action::Expose => player.after_expose(board),
        Action::Score => player,
        Action::Quit => Player { alive: false, ..player },
        _ => player.moved(board, action.direction().unwrap()),
    }
}

/// The board after `action`: only exposing changes it.
pub open spec fn board_after(board: Board, player: Player, action: Action) -> Board {
    match action {
        Action::Expose => player.board_after_expose(board),
        _ => board,
    }
}

/// What the player is told after `action`. The scores reported are those
/// after the action.
pub open spec fn feedback_for(board: Board, player: Player, action: Action) -> Feedback {
    match action {
        Action::Expose => if board.has_mine(player.x as int, player.y as int) {
            Feedback::Boom { score: player.after_expose(board).score }
        } else {
            Feedback::Safe {
                adjacent_mines: board.adjacent_mines(player.x as int, player.y as int) as u8,
                score: player.after_expose(board).score,
            }
        },
        Action::Score => Feedback::Score { score: player.score },
        Action::Quit => Feedback::Goodbye,
        _ => if player.faces_wall(board, action.direction().unwrap()) {
            Feedback::Wall
        } else {
            Feedback::Moved
        },
    }
}

/// Whether `action` can be carried out: only exposing can fail, when the
/// player stands on no square of the board.
pub open spec fn can_handle(board: Board, player: Player, action: Action) -> bool {
    action == Action::Expose ==> player.on(board)
}

/// The session after the actions of `actions`, taken in order from `board`
/// and `player` for as long as the player is alive; actions after the
/// player's death are not looked at.
pub open spec fn replay(board: Board, player: Player, actions: Seq<Action>) -> Course
    decreases actions.len(),
{
    if actions.len() == 0 {
        Course { board, player, log: Seq::empty() }
    } else {
        let before = replay(board, player, actions.drop_last());
        if before.player.alive {
            Course {
                board: board_after(before.board, before.player, actions.last()),
                player: player_after(before.board, before.player, actions.last()),
                log: before.log.push(feedback_for(before.board, before.player, actions.last())),
            }
        } else {
            before
        }
    }
}

/// Steps in `direction` and tells whether a wall was in the way.
pub fn move_player(player: &mut Player, world: &World, direction: Direction) -> (feedback:
    Feedback)
    ensures
        *final(player) == old(player).moved(world@, direction),
        feedback == if old(player).faces_wall(world@, direction) {
            Feedback::Wall
        } else {
            Feedback::Moved
        },
{
    let wall = is_wall(world, player, &direction);
    crate::game::player::move_player(world, player, &direction);
    if wall {
        Feedback::Wall
    } else {
        Feedback::Moved
    }
}

/// Exposes the player's square and reports what it found, with the score
/// after it.
pub fn expose(player: &mut Player, world: &mut World) -> (feedback: Result<Feedback, GameError>)
    requires
        old(player).score < u64::MAX,
    ensures
        match feedback {
            Ok(told) => old(player).on(old(world)@) && told == feedback_for(
                old(world)@,
                *old(player),
                Action::Expose,
            ),
            Err(error) => error == GameError::OutOfBounds && !old(player).on(old(world)@),
        },
        *final(player) == old(player).after_expose(old(world)@),
        final(world)@ == old(player).board_after_expose(old(world)@),
{
    match expose_current_square(world, player) {
        Ok(exposure) => if exposure.hit_mine {
            Ok(Feedback::Boom { score: player.score })
        } else {
            Ok(
                Feedback::Safe {
                    adjacent_mines: exposure.adjacent_mine_count,
                    score: player.score,
                },
            )
        },
        Err(error) => Err(error),
    }
}

/// Carries out one action. Exposing is refused with `OutOfBounds` when the
/// player stands on no square of the board; every other action succeeds.
pub fn handle_action(action: &Action, world: &mut World, player: &mut Player) -> (feedback:
    Result<Feedback, GameError>)
    requires
        *action == Action::Expose ==> old(player).score < u64::MAX,
    ensures
        match feedback {
            Ok(told) => can_handle(old(world)@, *old(player), *action) && told == feedback_for(
                old(world)@,
                *old(player),
                *action,
            ),
            Err(error) => error == GameError::OutOfBounds && !can_handle(
                old(world)@,
                *old(player),
                *action,
            ),
        },
        *final(player) == player_after(old(world)@, *old(player), *action),
        final(world)@ == board_after(old(world)@, *old(player), *action),
{
    match action {
        Action::MoveUp => Ok(move_player(player, world, Direction::Up)),
        Action::MoveDown => Ok(move_player(player, world, Direction::Down)),
        Action::MoveLeft => Ok(move_player(player, world, Direction::Left)),
        Action::MoveRight => Ok(move_player(player, world, Direction::Right)),
        Action::Expose => expose(player, world),
        Action::Score => Ok(Feedback::Score { score: player.score }),
        Action::Quit => {
            quit(player);
            Ok(Feedback::Goodbye)
        },
    }
}

/// Once the player is dead, further actions change nothing.
pub proof fn lemma_replay_after_death(
    board: Board,
    player: Player,
    actions: Seq<Action>,
    played: int,
)
    requires
        0 <= played <= actions.len(),
        !replay(board, player, actions.take(played)).player.alive,
    ensures
        replay(board, player, actions) == replay(board, player, actions.take(played)),
    decreases actions.len() - played,
{
    if played == actions.len() {
        assert(actions.take(played) =~= actions);
    } else {
        assert(actions.take(played + 1).drop_last() =~= actions.take(played));
        lemma_replay_after_death(board, player, actions, played + 1);
    }
}

/// Whether `opening` is a board that `run_game` may start from: of the
/// game's extent, nothing exposed, and the game's number of mines on it, none
/// of them in a corner.
pub open spec fn is_opening(opening: Board) -> bool {
    &&& opening.wf()
    &&& opening.width == BOARD_WIDTH
    &&& opening.height == BOARD_HEIGHT
    &&& opening.exposed == Set::<(int, int)>::empty()
    &&& opening.mines.len() == MINE_COUNT
    &&& forall|p: (int, int)| #[trigger]
        opening.mines.contains(p) ==> !opening.is_corner(p.0, p.1)
}

impl Session {
    /// The session ended as `course` says.
    pub open spec fn ended_as(self, course: Course) -> bool {
        &&& self.world@ == course.board
        &&& self.player == course.player
        &&& self.log@ == course.log
    }
}

/// Plays `actions` in order on `world` with `player`, for as long as the
/// player is alive, and returns the feedback of the actions played. A player
/// that does not stand on the board is refused with `OutOfBounds`, and
/// nothing is played.
pub fn play(world: &mut World, player: &mut Player, actions: &Vec<Action>) -> (played: Result<
    Vec<Feedback>,
    GameError,
>)
    requires
        old(player).score + actions.len() <= u64::MAX,
    ensures
        match played {
            Ok(log) => {
                &&& old(player).on(old(world)@)
                &&& final(world)@ == replay(old(world)@, *old(player), actions@).board
                &&& *final(player) == replay(old(world)@, *old(player), actions@).player
                &&& log@ == replay(old(world)@, *old(player), actions@).log
            },
            Err(error) => {
                &&& error == GameError::OutOfBounds
                &&& !old(player).on(old(world)@)
                &&& *final(world) == *old(world)
                &&& *final(player) == *old(player)
            },
        },
{
    if !world.contains(player.x, player.y) {
        return Err(GameError::OutOfBounds);
    }
    let mut log: Vec<Feedback> = Vec::new();
    let mut next: usize = 0;
    assert(actions@.take(0) =~= Seq::<Action>::empty());
    while next < actions.len() && player.alive
        invariant
            next <= actions@.len(),
            old(player).score + actions.len() <= u64::MAX,
            player.score <= old(player).score + next,
            player.on(world@),
            world@ == replay(old(world)@, *old(player), actions@.take(next as int)).board,
            *player == replay(old(world)@, *old(player), actions@.take(next as int)).player,
            log@ == replay(old(world)@, *old(player), actions@.take(next as int)).log,
        decreases actions@.len() - next,
    {
        proof {
            world.lemma_view_wf();
            assert(actions@.take(next + 1).drop_last() =~= actions@.take(next as int));
        }
        let told = handle_action(&actions[next], world, player).unwrap();
        log.push(told);
        next += 1;
    }
    proof {
        if next < actions@.len() {
            lemma_replay_after_death(old(world)@, *old(player), actions@, next as int);
        } else {
            assert(actions@.take(next as int) =~= actions@);
        }
    }
    Ok(log)
}

/// Plays a whole game from a script: on a fresh board of the game's extent
/// hides the game's number of mines where `rng` says, puts a new player at
/// the origin and plays `actions` for as long as the player is alive.
///
/// Where the mines lie is the generator's matter; whatever board it opens
/// the game with, the session is the replay of `actions` from that board.
pub fn run_game(rng: &mut StdRng, actions: &Vec<Action>) -> (session: Session)
    ensures
        exists|opening: Board| #[trigger]
            is_opening(opening) && session.ended_as(
                replay(opening, Player::origin(), actions@),
            ),
{
    let mut world = World::new(BOARD_WIDTH, BOARD_HEIGHT);
    let mut player = Player::new();
    proof {
        world.lemma_view_wf();
        world@.lemma_capacity();
        assert(world@.free_squares().len() == BOARD_WIDTH * BOARD_HEIGHT - corner_count(
            BOARD_WIDTH as int,
            BOARD_HEIGHT as int,
        ));
    }
    generate_random_mines(&mut world, MINE_COUNT, rng).unwrap();
    let ghost opening = world@;
    proof {
        world.lemma_view_wf();
        assert(is_opening(opening));
    }
    let log = play(&mut world, &mut player, actions).unwrap();
    Session { world, player, log }
}

} // verus!
