//! The board as the program holds it: a grid of squares behind an invariant,
//! read and changed only through operations that say what they do to the
//! board's picture.

use vstd::prelude::*;
use super::board::Board;

verus! {

/// What the engine refuses.
#[derive(Clone, Copy, Debug, PartialEq, Eq, Structural)]
pub enum GameError {
    /// A coordinate names no square of the board.
    OutOfBounds,
    /// More mines were asked for than there are free squares to take them.
    InvalidMineCount,
}

/// One cell of the board.
#[derive(Clone, Copy, Debug, PartialEq, Eq, Structural)]
pub struct Square {
    pub x: u8,
    pub y: u8,
    pub has_mine: bool,
    pub exposed: bool,
}

impl Square {
    /// An unexposed square without a mine.
    pub fn new(x: u8, y: u8) -> (square: Square)
        ensures
            square == (Square { x, y, has_mine: false, exposed: false }),
    {
        Square { x, y, exposed: false, has_mine: false }
    }
}

/// The board: `height` rows of `width` squares each, indexed `[row][column]`,
/// every square knowing its own place.
#[derive(Debug)]
pub struct World {
    width: u8,
    height: u8,
    map: Vec<Vec<Square>>,
}

/// Replaces the square in column `x` of row `y`, leaving the shape of the
/// grid and every other square as they were.
fn put_square(map: &mut Vec<Vec<Square>>, x: u8, y: u8, square: Square)
    requires
        y < old(map)@.len(),
        x < old(map)@[y as int]@.len(),
    ensures
        final(map)@.len() == old(map)@.len(),
        final(map)@[y as int]@ == old(map)@[y as int]@.update(x as int, square),
        forall|j: int| 0 <= j < old(map)@.len() && j != y ==> final(map)@[j] == old(map)@[j],
    no_unwind
{
    map[y as usize][x as usize] = square;
}

impl View for World {
    type V = Board;

    closed spec fn view(&self) -> Board {
        Board {
            width: self.width as int,
            height: self.height as int,
            mines: Set::new(
                |p: (int, int)|
                    0 <= p.0 < self.width && 0 <= p.1 < self.height
                        && self.map@[p.1]@[p.0].has_mine,
            ),
            exposed: Set::new(
                |p: (int, int)|
                    0 <= p.0 < self.width && 0 <= p.1 < self.height
                        && self.map@[p.1]@[p.0].exposed,
            ),
        }
    }
}

impl World {
    #[verifier::type_invariant]
    spec fn grid_matches_extent(self) -> bool {
        &&& self.map@.len() == self.height
        &&& forall|y: int| 0 <= y < self.height ==> (#[trigger] self.map@[y])@.len() == self.width
        &&& forall|x: int, y: int|
            0 <= x < self.width && 0 <= y < self.height ==> {
                &&& (#[trigger] self.map@[y]@[x]).x == x
                &&& self.map@[y]@[x].y == y
            }
    }

    /// The picture of any world is a well-formed board.
    pub proof fn lemma_view_wf(self)
        ensures
            self@.wf(),
    {
    }

    /// The square that the world holds at `(x, y)`, as the picture gives it.
    pub open spec fn square_at(self, x: int, y: int) -> Square {
        Square {
            x: x as u8,
            y: y as u8,
            has_mine: self@.has_mine(x, y),
            exposed: self@.is_exposed(x, y),
        }
    }

    /// A board of `width` columns and `height` rows, every square unexposed
    /// and free of mines.
    pub fn new(width: u8, height: u8) -> (world: World)
        ensures
            world@ == Board::fresh(width as int, height as int),
    {
        let mut map: Vec<Vec<Square>> = Vec::new();
        for y in 0..height
            invariant
                map@.len() == y,
                forall|j: int| 0 <= j < y ==> (#[trigger] map@[j])@.len() == width,
                forall|i: int, j: int|
                    0 <= i < width && 0 <= j < y ==> (#[trigger] map@[j]@[i]) == (Square {
                        x: i as u8,
                        y: j as u8,
                        has_mine: false,
                        exposed: false,
                    }),
        {
            let mut row: Vec<Square> = Vec::new();
            for x in 0..width
                invariant
                    row@.len() == x,
                    forall|i: int|
                        0 <= i < x ==> (#[trigger] row@[i]) == (Square {
                            x: i as u8,
                            y,
                            has_mine: false,
                            exposed: false,
                        }),
            {
                row.push(Square::new(x, y));
            }
            map.push(row);
        }
        let world = World { width, height, map };
        assert(world@ =~= Board::fresh(width as int, height as int));
        world
    }

    pub fn width(&self) -> (width: u8)
        ensures
            width == self@.width,
    {
        self.width
    }

    pub fn height(&self) -> (height: u8)
        ensures
            height == self@.height,
    {
        self.height
    }

    /// Whether `(x, y)` names a square of the board.
    pub fn contains(&self, x: u8, y: u8) -> (inside: bool)
        ensures
            inside == self@.on_board(x as int, y as int),
    {
        x < self.width && y < self.height
    }

    /// Whether `(x, y)` hides a mine; no square off the board does.
    pub fn has_mine(&self, x: u8, y: u8) -> (mine: bool)
        ensures
            mine == self@.has_mine(x as int, y as int),
    {
        proof {
            use_type_invariant(self);
        }
        x < self.width && y < self.height && self.map[y as usize][x as usize].has_mine
    }

    /// The square at `(x, y)`, or `OutOfBounds` if the board has none there.
    pub fn get_square(&self, x: u8, y: u8) -> (found: Result<&Square, GameError>)
        ensures
            match found {
                Ok(square) => self@.on_board(x as int, y as int) && *square == self.square_at(
                    x as int,
                    y as int,
                ),
                Err(error) => error == GameError::OutOfBounds && !self@.on_board(
                    x as int,
                    y as int,
                ),
            },
    {
        proof {
            use_type_invariant(self);
        }
        if x < self.width && y < self.height {
            Ok(&self.map[y as usize][x as usize])
        } else {
            Err(GameError::OutOfBounds)
        }
    }

    /// Puts a mine on `(x, y)`, whatever the placement policy says of that
    /// square; a square that holds one already keeps it.
    pub fn place_mine(&mut self, x: u8, y: u8) -> (placed: Result<(), GameError>)
        ensures
            match placed {
                Ok(()) => old(self)@.on_board(x as int, y as int) && final(self)@ == old(
                    self,
                )@.with_mine(x as int, y as int),
                Err(error) => error == GameError::OutOfBounds && !old(self)@.on_board(
                    x as int,
                    y as int,
                ) && *final(self) == *old(self),
            },
    {
        proof {
            use_type_invariant(&*self);
        }
        if x < self.width && y < self.height {
            let square = self.map[y as usize][x as usize];
            put_square(&mut self.map, x, y, Square { has_mine: true, ..square });
            assert(self@ =~= old(self)@.with_mine(x as int, y as int));
            Ok(())
        } else {
            Err(GameError::OutOfBounds)
        }
    }

    /// Marks `(x, y)` as exposed and tells whether it hides a mine. Exposing
    /// a square again changes nothing and gives the same answer.
    pub fn expose(&mut self, x: u8, y: u8) -> (hit: Result<bool, GameError>)
        ensures
            match hit {
                Ok(mine) => old(self)@.on_board(x as int, y as int) && mine == old(
                    self,
                )@.has_mine(x as int, y as int) && final(self)@ == old(self)@.with_exposed(
                    x as int,
                    y as int,
                ),
                Err(error) => error == GameError::OutOfBounds && !old(self)@.on_board(
                    x as int,
                    y as int,
                ) && *final(self) == *old(self),
            },
    {
        proof {
            use_type_invariant(&*self);
        }
        if x < self.width && y < self.height {
            let square = self.map[y as usize][x as usize];
            put_square(&mut self.map, x, y, Square { exposed: true, ..square });
            assert(self@ =~= old(self)@.with_exposed(x as int, y as int));
            Ok(square.has_mine)
        } else {
            Err(GameError::OutOfBounds)
        }
    }
}

} // verus!
