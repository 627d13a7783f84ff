//! The board as text: one cell of five characters for each square, one line
//! for each row.

use vstd::prelude::*;
use vstd::string::StringExecFns;
use crate::game::board::Board;
use crate::game::player::Player;
use crate::game::world::{Square, World};

verus! {

/// The text of one cell: `o` marks the player, `x` an exposed square.
pub open spec fn cell_text(occupied: bool, exposed: bool) -> Seq<char> {
    seq!['[', if occupied { 'o' } else { ' ' }, if exposed { 'x' } else { ' ' }, ']', ' ']
}

/// The text of `square` as `player` sees it.
pub open spec fn square_text(square: Square, player: Player) -> Seq<char> {
    cell_text(player.x == square.x && player.y == square.y, square.exposed)
}

/// The text of the first `columns` cells of row `y`.
pub open spec fn row_text(board: Board, player: Player, y: int, columns: int) -> Seq<char>
    decreases columns,
{
    if columns <= 0 {
        Seq::empty()
    } else {
        row_text(board, player, y, columns - 1) + cell_text(
            player.x == columns - 1 && player.y == y,
            board.is_exposed(columns - 1, y),
        )
    }
}

/// The text of the first `rows` rows, each closed by a line feed.
pub open spec fn rows_text(board: Board, player: Player, rows: int) -> Seq<char>
    decreases rows,
{
    if rows <= 0 {
        Seq::empty()
    } else {
        rows_text(board, player, rows - 1) + row_text(board, player, rows - 1, board.width)
            + seq!['\n']
    }
}

/// The text of the whole board.
pub open spec fn world_text(board: Board, player: Player) -> Seq<char> {
    rows_text(board, player, board.height)
}

/// Whether `player` stands on `square`.
pub fn is_player_on_square(player: &Player, square: &Square) -> (on: bool)
    ensures
        on == (player.x == square.x && player.y == square.y),
{
    player.x == square.x && player.y == square.y
}

/// The cell that shows `square`.
pub fn draw_square(square: &Square, player: &Player) -> (text: &'static str)
    ensures
        text@ == square_text(*square, *player),
{
    proof {
        reveal_strlit("[ox] ");
        reveal_strlit("[o ] ");
        reveal_strlit("[ x] ");
        reveal_strlit("[  ] ");
    }
    let text = if is_player_on_square(player, square) {
        if square.exposed {
            "[ox] "
        } else {
            "[o ] "
        }
    } else {
        if square.exposed {
            "[ x] "
        } else {
            "[  ] "
        }
    };
    assert(text@ =~= square_text(*square, *player));
    text
}

/// The board as text, row by row from the top.
pub fn draw_world(world: &World, player: &Player) -> (text: String)
    ensures
        text@ == world_text(world@, *player),
{
    let width: u8 = world.width();
    let height: u8 = world.height();
    let mut text = String::new();
    for y in 0..height
        invariant
            width == world@.width,
            height == world@.height,
            text@ == rows_text(world@, *player, y as int),
    {
        let ghost above = text@;
        for x in 0..width
            invariant
                width == world@.width,
                height == world@.height,
                y < height,
                text@ == above + row_text(world@, *player, y as int, x as int),
        {
            let square = world.get_square(x, y).unwrap();
            text.append(draw_square(square, player));
            assert(text@ =~= above + row_text(world@, *player, y as int, x + 1));
        }
        text.append("\n");
        proof {
            reveal_strlit("\n");
        }
        assert(text@ =~= rows_text(world@, *player, y + 1));
    }
    text
}

} // verus!
