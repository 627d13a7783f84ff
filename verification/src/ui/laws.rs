//! What holds of every session, whatever the board and the script.

use vstd::prelude::*;
use super::command::Action;
use super::session::{board_after, player_after, replay};
use crate::game::board::Board;
use crate::game::laws::law_expose_scores_new_safe_square;
use crate::game::player::Player;

verus! {

/// One action keeps the board well formed and of the same extent, moves no
/// mine, hides no exposed square again, and leaves a player that stood on
/// the board on the board.
pub proof fn law_action_keeps_board(board: Board, player: Player, action: Action)
    requires
        board.wf(),
    ensures
        ({
            let next = board_after(board, player, action);
            let mover = player_after(board, player, action);
            &&& next.wf()
            &&& next.width == board.width
            &&& next.height == board.height
            &&& next.mines == board.mines
            &&& board.exposed.subset_of(next.exposed)
            &&& player.on(board) ==> mover.on(next)
        }),
{
}

/// A session keeps the board well formed and of the same extent, moves no
/// mine, hides no exposed square again, leaves a player that stood on the
/// board on the board, never revives a dead player, and gives at most one
/// piece of feedback for each action of the script.
pub proof fn law_session_keeps_board(board: Board, player: Player, actions: Seq<Action>)
    requires
        board.wf(),
    ensures
        ({
            let end = replay(board, player, actions);
            &&& end.board.wf()
            &&& end.board.width == board.width
            &&& end.board.height == board.height
            &&& end.board.mines == board.mines
            &&& board.exposed.subset_of(end.board.exposed)
            &&& player.on(board) ==> end.player.on(end.board)
            &&& !player.alive ==> !end.player.alive
            &&& end.log.len() <= actions.len()
        }),
    decreases actions.len(),
{
    if actions.len() > 0 {
        let before = replay(board, player, actions.drop_last());
        law_session_keeps_board(board, player, actions.drop_last());
        if before.player.alive {
            law_action_keeps_board(before.board, before.player, actions.last());
        }
    }
}

/// Over a whole session the score goes up by exactly the number of safe
/// squares that the session exposed for the first time: every such square
/// scores once, however often it is exposed again, and nothing else scores.
pub proof fn law_score_counts_safe_squares(board: Board, player: Player, actions: Seq<Action>)
    requires
        board.wf(),
        player.score + actions.len() <= u64::MAX,
    ensures
        ({
            let end = replay(board, player, actions);
            &&& end.player.score - player.score == end.board.safe_exposed().len()
                - board.safe_exposed().len()
            &&& player.score <= end.player.score <= player.score + actions.len()
        }),
    decreases actions.len(),
{
    if actions.len() > 0 {
        let before = replay(board, player, actions.drop_last());
        law_score_counts_safe_squares(board, player, actions.drop_last());
        law_session_keeps_board(board, player, actions.drop_last());
        if before.player.alive && actions.last() == Action::Expose {
            law_expose_scores_new_safe_square(before.board, before.player);
        }
    }
}

} // verus!
