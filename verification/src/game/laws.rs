//! What holds of random placement and of the player's actions on every
//! board.

use vstd::prelude::*;
use super::board::{comes_before, Board};
use super::player::{Direction, Player};

verus! {

/// The origin, where every player starts, is a corner of any board that has
/// a square at all, so it is never free: random placement does not mine the
/// square that a new player stands on.
pub proof fn law_origin_is_never_free(board: Board)
    requires
        board.wf(),
    ensures
        !board.is_free(0, 0),
{
}

/// A rank names at most one free square: two free squares with equally many
/// free squares before them are the same square.
pub proof fn law_rank_names_one_square(board: Board, p: (int, int), q: (int, int))
    requires
        board.wf(),
        board.is_free(p.0, p.1),
        board.is_free(q.0, q.1),
        board.free_before(p.0, p.1).len() == board.free_before(q.0, q.1).len(),
    ensures
        p == q,
{
    if comes_before(p, q) {
        board.lemma_free_before_grows(p, q);
    } else if comes_before(q, p) {
        board.lemma_free_before_grows(q, p);
    }
}

/// A wall blocks a step exactly when the step leaves the player where it is.
pub proof fn law_wall_iff_step_stays(board: Board, player: Player, direction: Direction)
    requires
        board.wf(),
    ensures
        player.faces_wall(board, direction) <==> player.moved(board, direction) == player,
{
}

/// A step never takes a player off the board, and never changes its score or
/// its life.
pub proof fn law_step_stays_on_board(board: Board, player: Player, direction: Direction)
    requires
        board.wf(),
        player.on(board),
    ensures
        player.moved(board, direction).on(board),
        player.moved(board, direction).score == player.score,
        player.moved(board, direction).alive == player.alive,
{
}

/// Exposing the same square a second time gives the answer of the first
/// time and changes neither the player nor the board: a mine does not kill
/// twice and a safe square does not score twice.
pub proof fn law_expose_again(board: Board, player: Player)
    requires
        board.wf(),
    ensures
        ({
            let once = player.after_expose(board);
            let board_once = player.board_after_expose(board);
            &&& once.expose_answer(board_once) == player.expose_answer(board)
            &&& once.after_expose(board_once) == once
            &&& once.board_after_expose(board_once) == board_once
        }),
{
    let board_once = player.board_after_expose(board);
    let once = player.after_expose(board);
    assert(once.board_after_expose(board_once) =~= board_once);
}

/// Exposing keeps the board well formed and its mines where they are, and
/// it scores exactly when one more safe square is exposed afterwards: the
/// score goes up by the number of safe squares newly exposed, which is one
/// or none.
pub proof fn law_expose_scores_new_safe_square(board: Board, player: Player)
    requires
        board.wf(),
        player.score < u64::MAX,
    ensures
        ({
            let once = player.after_expose(board);
            let board_once = player.board_after_expose(board);
            &&& board_once.wf()
            &&& board_once.width == board.width
            &&& board_once.height == board.height
            &&& board_once.mines == board.mines
            &&& board.exposed.subset_of(board_once.exposed)
            &&& once.score - player.score == board_once.safe_exposed().len()
                - board.safe_exposed().len()
            &&& 0 <= once.score - player.score <= 1
        }),
{
    let board_once = player.board_after_expose(board);
    let here = (player.x as int, player.y as int);
    board.lemma_finite();
    if player.on(board) {
        if board.has_mine(here.0, here.1) || board.is_exposed(here.0, here.1) {
            assert(board_once.safe_exposed() =~= board.safe_exposed());
        } else {
            assert(board_once.safe_exposed() =~= board.safe_exposed().insert(here));
        }
    }
}

} // verus!
