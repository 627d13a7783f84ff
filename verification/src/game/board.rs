//! The mathematical picture of a minefield, and the facts about it that the
//! engine's proofs rest on.
//!
//! A square is a pair `(x, y)` of integers, column first. The picture keeps
//! the extent of the board and two sets of squares: those that hide a mine
//! and those that have been exposed. Everything the engine promises is stated
//! over this picture.

use vstd::prelude::*;

verus! {

/// The picture of a board: `width` columns, `height` rows, the squares that
/// hide a mine and the squares that have been exposed.
#[verifier::ext_equal]
pub struct Board {
    pub width: int,
    pub height: int,
    pub mines: Set<(int, int)>,
    pub exposed: Set<(int, int)>,
}

/// Row-major order on squares: `p` lies in an earlier row than `q`, or in the
/// same row and further left.
pub open spec fn comes_before(p: (int, int), q: (int, int)) -> bool {
    p.1 < q.1 || (p.1 == q.1 && p.0 < q.0)
}

impl Board {
    /// A board of the given extent with no mine and nothing exposed.
    pub open spec fn fresh(width: int, height: int) -> Board {
        Board { width, height, mines: Set::empty(), exposed: Set::empty() }
    }

    /// Whether `(x, y)` names a square of the board.
    pub open spec fn on_board(self, x: int, y: int) -> bool {
        0 <= x < self.width && 0 <= y < self.height
    }

    /// All squares of the board.
    pub open spec fn squares(self) -> Set<(int, int)> {
        Set::new(|p: (int, int)| self.on_board(p.0, p.1))
    }

    /// The extent fits the engine's coordinates, and only squares of the
    /// board carry state.
    pub open spec fn wf(self) -> bool {
        &&& 0 <= self.width <= u8::MAX
        &&& 0 <= self.height <= u8::MAX
        &&& self.mines.subset_of(self.squares())
        &&& self.exposed.subset_of(self.squares())
    }

    /// Whether `(x, y)` hides a mine.
    pub open spec fn has_mine(self, x: int, y: int) -> bool {
        self.mines.contains((x, y))
    }

    /// Whether `(x, y)` has been exposed.
    pub open spec fn is_exposed(self, x: int, y: int) -> bool {
        self.exposed.contains((x, y))
    }

    /// The board with a mine on `(x, y)`.
    pub open spec fn with_mine(self, x: int, y: int) -> Board {
        Board { mines: self.mines.insert((x, y)), ..self }
    }

    /// The board with `(x, y)` exposed.
    pub open spec fn with_exposed(self, x: int, y: int) -> Board {
        Board { exposed: self.exposed.insert((x, y)), ..self }
    }

    /// The placement policy: random placement never mines a corner. A corner
    /// lies in the first or last column and in the first or last row, so a
    /// board has at most four of them, and the origin is always one.
    pub open spec fn is_corner(self, x: int, y: int) -> bool {
        (x == 0 || x == self.width - 1) && (y == 0 || y == self.height - 1)
    }

    /// Random placement may put a mine here: the square is on the board, is
    /// no corner and holds no mine yet.
    pub open spec fn is_free(self, x: int, y: int) -> bool {
        self.on_board(x, y) && !self.is_corner(x, y) && !self.has_mine(x, y)
    }

    /// The squares that random placement may still mine.
    pub open spec fn free_squares(self) -> Set<(int, int)> {
        Set::new(|p: (int, int)| self.is_free(p.0, p.1))
    }

    /// The free squares that come before `(x, y)` in row-major order.
    pub open spec fn free_before(self, x: int, y: int) -> Set<(int, int)> {
        Set::new(|p: (int, int)| self.is_free(p.0, p.1) && comes_before(p, (x, y)))
    }

    /// The exposed squares that hide no mine: the squares that have scored.
    pub open spec fn safe_exposed(self) -> Set<(int, int)> {
        self.exposed.difference(self.mines)
    }

    /// 1 if `(x, y)` hides a mine, else 0.
    pub open spec fn mine_count_at(self, x: int, y: int) -> int {
        if self.has_mine(x, y) { 1 } else { 0 }
    }

    /// The number of mines on the four squares that share an edge with
    /// `(x, y)`. A neighbour beyond the edge of the board counts nothing,
    /// since only squares of the board hold mines.
    pub open spec fn adjacent_mines(self, x: int, y: int) -> int {
        self.mine_count_at(x - 1, y) + self.mine_count_at(x + 1, y)
            + self.mine_count_at(x, y - 1) + self.mine_count_at(x, y + 1)
    }
}

/// The number of corners of a board of `width` columns and `height` rows:
/// four, unless the board is so narrow or so low that corners fall together.
pub open spec fn corner_count(width: int, height: int) -> int {
    if width <= 0 || height <= 0 {
        0
    } else if width == 1 && height == 1 {
        1
    } else if width == 1 || height == 1 {
        2
    } else {
        4
    }
}

/// The squares of row `y` in columns `0..w`.
spec fn row_prefix(w: int, y: int) -> Set<(int, int)> {
    Set::new(|p: (int, int)| 0 <= p.0 < w && p.1 == y)
}

/// The squares of rows `0..h`, each in columns `0..w`.
spec fn grid(w: int, h: int) -> Set<(int, int)> {
    Set::new(|p: (int, int)| 0 <= p.0 < w && 0 <= p.1 < h)
}

proof fn lemma_row_prefix_len(w: int, y: int)
    requires
        0 <= w,
    ensures
        row_prefix(w, y).finite(),
        row_prefix(w, y).len() == w,
    decreases w,
{
    if w == 0 {
        assert(row_prefix(w, y) =~= Set::empty());
    } else {
        lemma_row_prefix_len(w - 1, y);
        assert(row_prefix(w, y) =~= row_prefix(w - 1, y).insert((w - 1, y)));
    }
}

proof fn lemma_grid_len(w: int, h: int)
    requires
        0 <= w,
        0 <= h,
    ensures
        grid(w, h).finite(),
        grid(w, h).len() == w * h,
    decreases h,
{
    if h == 0 {
        assert(grid(w, h) =~= Set::empty());
    } else {
        lemma_grid_len(w, h - 1);
        lemma_row_prefix_len(w, h - 1);
        assert(grid(w, h) =~= grid(w, h - 1) + row_prefix(w, h - 1));
        assert(grid(w, h - 1).disjoint(row_prefix(w, h - 1)));
        vstd::set_lib::lemma_set_disjoint_lens(grid(w, h - 1), row_prefix(w, h - 1));
        assert(w * (h - 1) + w == w * h) by (nonlinear_arith);
    }
}

impl Board {
    /// Every set of squares that the contracts speak of is finite, so its
    /// `len()` is the number of its squares.
    pub proof fn lemma_finite(self)
        requires
            self.wf(),
        ensures
            self.squares().finite(),
            self.mines.finite(),
            self.exposed.finite(),
            self.free_squares().finite(),
            self.safe_exposed().finite(),
            forall|x: int, y: int| #[trigger] self.free_before(x, y).finite(),
    {
        lemma_grid_len(self.width, self.height);
        assert(self.squares() =~= grid(self.width, self.height));
        vstd::set_lib::lemma_len_subset(self.mines, self.squares());
        vstd::set_lib::lemma_len_subset(self.exposed, self.squares());
        vstd::set_lib::lemma_len_subset(self.free_squares(), self.squares());
        vstd::set_lib::lemma_len_subset(self.safe_exposed(), self.squares());
        assert forall|x: int, y: int| #[trigger] self.free_before(x, y).finite() by {
            vstd::set_lib::lemma_len_subset(self.free_before(x, y), self.squares());
        }
    }

    /// Walking a row from left to right: the free squares before the next
    /// column are those before this one, and this square if it is free.
    pub proof fn lemma_free_before_next(self, x: int, y: int)
        requires
            self.wf(),
        ensures
            !self.free_before(x, y).contains((x, y)),
            self.free_before(x + 1, y) == if self.is_free(x, y) {
                self.free_before(x, y).insert((x, y))
            } else {
                self.free_before(x, y)
            },
    {
        if self.is_free(x, y) {
            assert(self.free_before(x + 1, y) =~= self.free_before(x, y).insert((x, y)));
        } else {
            assert(self.free_before(x + 1, y) =~= self.free_before(x, y));
        }
    }

    /// A free square has fewer free squares before it than there are in all.
    pub proof fn lemma_free_before_is_less(self, x: int, y: int)
        requires
            self.wf(),
            self.is_free(x, y),
        ensures
            self.free_before(x, y).len() < self.free_squares().len(),
    {
        self.lemma_finite();
        vstd::set_lib::lemma_len_subset(
            self.free_before(x, y).insert((x, y)),
            self.free_squares(),
        );
    }

    /// The number of free squares before a free square tells which one it
    /// is: of two free squares, the earlier has fewer before it.
    pub proof fn lemma_free_before_grows(self, p: (int, int), q: (int, int))
        requires
            self.wf(),
            self.is_free(p.0, p.1),
            self.is_free(q.0, q.1),
            comes_before(p, q),
        ensures
            self.free_before(p.0, p.1).len() < self.free_before(q.0, q.1).len(),
    {
        self.lemma_finite();
        vstd::set_lib::lemma_len_subset(
            self.free_before(p.0, p.1).insert(p),
            self.free_before(q.0, q.1),
        );
    }

    /// The walk starts with no free square behind it, passes from the end of
    /// a row to the start of the next without change, and ends with every
    /// free square behind it.
    pub proof fn lemma_free_before_rows(self)
        requires
            self.wf(),
        ensures
            self.free_before(0, 0) == Set::<(int, int)>::empty(),
            forall|y: int| #[trigger] self.free_before(self.width, y) == self.free_before(0, y + 1),
            self.free_before(0, self.height) == self.free_squares(),
    {
        assert(self.free_before(0, 0) =~= Set::<(int, int)>::empty());
        assert forall|y: int| #[trigger]
            self.free_before(self.width, y) == self.free_before(0, y + 1) by {
            assert(self.free_before(self.width, y) =~= self.free_before(0, y + 1));
        }
        assert(self.free_before(0, self.height) =~= self.free_squares());
    }

    /// How many mines a board without mines can take: every square but the
    /// corners.
    pub proof fn lemma_capacity(self)
        requires
            self.wf(),
            self.mines == Set::<(int, int)>::empty(),
        ensures
            self.squares().len() == self.width * self.height,
            self.free_squares().len() == self.width * self.height - corner_count(
                self.width,
                self.height,
            ),
    {
        let (w, h) = (self.width, self.height);
        lemma_grid_len(w, h);
        assert(self.squares() =~= grid(w, h));
        let free = self.free_squares();
        let all = self.squares();
        if w == 0 || h == 0 {
            assert(w * h == 0) by (nonlinear_arith)
                requires
                    w == 0 || h == 0,
            ;
            assert(free =~= all);
        } else if w == 1 && h == 1 {
            assert(free =~= all.remove((0, 0)));
        } else if w == 1 {
            assert(free =~= all.remove((0, 0)).remove((0, h - 1)));
        } else if h == 1 {
            assert(free =~= all.remove((0, 0)).remove((w - 1, 0)));
        } else {
            assert(free =~= all.remove((0, 0)).remove((w - 1, 0)).remove((0, h - 1)).remove(
                (w - 1, h - 1),
            ));
        }
    }
}

} // verus!
