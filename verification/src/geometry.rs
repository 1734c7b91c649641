//! The board as mathematics: squares with integer coordinates, and the
//! alignment and path predicates that the movement rules are built from.

use vstd::math::{abs, max, min};
use vstd::prelude::*;
use crate::pieces::Tile;

verus! {

/// A square named by its row and column. Row 0 is Black's back rank and
/// row 7 is White's.
pub struct Square {
    pub row: int,
    pub col: int,
}

/// What every square of the board holds.
pub type Grid = Map<Square, Tile>;

impl Square {
    /// Both coordinates lie in `0..8`.
    pub open spec fn on_board(self) -> bool {
        0 <= self.row < 8 && 0 <= self.col < 8
    }

    /// Position of the square when the board is read row by row.
    pub open spec fn rank(self) -> int {
        self.row * 8 + self.col
    }
}

/// The square at position `i` when the board is read row by row.
pub open spec fn square_at(i: int) -> Square {
    Square { row: i / 8, col: i % 8 }
}

/// Reading the board row by row visits each square exactly once.
pub proof fn lemma_rank_of_square(s: Square)
    requires
        s.on_board(),
    ensures
        0 <= s.rank() < 64,
        square_at(s.rank()) == s,
{
}

/// Each of the 64 positions of a row-by-row reading is a square of the board.
pub proof fn lemma_square_of_rank(i: int)
    requires
        0 <= i < 64,
    ensures
        square_at(i).on_board(),
        square_at(i).rank() == i,
{
}

/// Sum of the absolute row and column differences.
pub open spec fn manhattan(a: Square, b: Square) -> nat {
    abs(a.row - b.row) + abs(a.col - b.col)
}

/// Same row or same column.
pub open spec fn straight(a: Square, b: Square) -> bool {
    a.row == b.row || a.col == b.col
}

/// Equal absolute row and column differences.
pub open spec fn diagonal(a: Square, b: Square) -> bool {
    abs(a.row - b.row) == abs(a.col - b.col)
}

/// One step in any of the eight directions.
pub open spec fn king_step(a: Square, b: Square) -> bool {
    (straight(a, b) && manhattan(a, b) == 1) || (diagonal(a, b) && manhattan(a, b) == 2)
}

/// The knight's L: one row and two columns, or two rows and one column.
pub open spec fn knight_jump(a: Square, b: Square) -> bool {
    (abs(a.row - b.row) == 1 || abs(a.row - b.row) == 2) && manhattan(a, b) == 3
}

/// `s` lies strictly between `a` and `b` on the row or column they share.
pub open spec fn between_straight(a: Square, b: Square, s: Square) -> bool {
    ||| a.col == b.col && s.col == a.col && min(a.row, b.row) < s.row < max(a.row, b.row)
    ||| a.row == b.row && s.row == a.row && min(a.col, b.col) < s.col < max(a.col, b.col)
}

/// `s` lies strictly between `a` and `b` on the diagonal they share.
pub open spec fn between_diagonal(a: Square, b: Square, s: Square) -> bool {
    &&& diagonal(a, b)
    &&& diagonal(a, s)
    &&& diagonal(s, b)
    &&& min(a.row, b.row) < s.row < max(a.row, b.row)
    &&& min(a.col, b.col) < s.col < max(a.col, b.col)
}

/// The square holds no piece.
pub open spec fn vacant(grid: Grid, s: Square) -> bool {
    grid[s] is Empty
}

/// `a` and `b` are distinct squares of one row or column, and every square
/// strictly between them is empty.
pub open spec fn clear_straight(grid: Grid, a: Square, b: Square) -> bool {
    &&& a != b
    &&& straight(a, b)
    &&& forall|s: Square| #[trigger] between_straight(a, b, s) ==> vacant(grid, s)
}

/// `a` and `b` are distinct squares of one diagonal, and every square
/// strictly between them is empty.
pub open spec fn clear_diagonal(grid: Grid, a: Square, b: Square) -> bool {
    &&& a != b
    &&& diagonal(a, b)
    &&& forall|s: Square| #[trigger] between_diagonal(a, b, s) ==> vacant(grid, s)
}

} // verus!
