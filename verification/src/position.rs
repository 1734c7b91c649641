//! Validated board coordinates and the geometry predicates on them.

use vstd::math::{abs, max, min};
use vstd::prelude::*;
use crate::board::Board;
use crate::geometry::{
    between_diagonal, between_straight, clear_diagonal, clear_straight, diagonal, king_step,
    knight_jump, manhattan, straight, vacant, Square,
};

verus! {

/// A square of the board. Both coordinates are always in `0..8`: the only
/// way to obtain a `Position` from integers is [`Position::new`], which
/// rejects anything else.
#[derive(Clone, Copy, PartialEq, Eq, Structural, Debug)]
pub struct Position {
    row: u8,
    column: u8,
}

impl View for Position {
    type V = Square;

    closed spec fn view(&self) -> Square {
        Square { row: self.row as int, col: self.column as int }
    }
}

/// Absolute difference of two small numbers.
fn distance(a: u8, b: u8) -> (d: u8)
    ensures
        d == abs(a - b),
{
    if a >= b {
        a - b
    } else {
        b - a
    }
}

impl Position {
    /// Every position is a square of the board.
    #[verifier::type_invariant]
    pub open spec fn wf(self) -> bool {
        self@.on_board()
    }

    /// Two positions that name the same square are the same position.
    pub proof fn lemma_view_injective(a: Position, b: Position)
        requires
            a@ == b@,
        ensures
            a == b,
    {
    }

    /// The position at `(row, column)`, or `None` unless both are in `0..8`.
    pub fn new(row: u8, column: u8) -> (res: Option<Position>)
        ensures
            res is Some <==> row < 8 && column < 8,
            res matches Some(p) ==> p@ == (Square { row: row as int, col: column as int }),
    {
        if row >= 8 {
            return None;
        }
        if column >= 8 {
            return None;
        }
        Some(Position { row, column })
    }

    /// The position at `(row, column)` for coordinates known to be in range.
    pub(crate) fn at(row: u8, column: u8) -> (p: Position)
        requires
            row < 8,
            column < 8,
        ensures
            p@ == (Square { row: row as int, col: column as int }),
    {
        Position { row, column }
    }

    /// The row, from 0 (Black's back rank) to 7 (White's back rank).
    pub fn row(&self) -> (r: u8)
        ensures
            r == self@.row,
            r < 8,
    {
        proof {
            use_type_invariant(self);
        }
        self.row
    }

    /// The column, from 0 to 7.
    pub fn column(&self) -> (c: u8)
        ensures
            c == self@.col,
            c < 8,
    {
        proof {
            use_type_invariant(self);
        }
        self.column
    }

    /// Sum of the absolute row and column differences.
    pub fn manhattan_distance(&self, position: Position) -> (d: u8)
        ensures
            d == manhattan(self@, position@),
    {
        proof {
            use_type_invariant(self);
            use_type_invariant(&position);
        }
        distance(self.row, position.row) + distance(self.column, position.column)
    }

    /// Whether the two positions share a row or a column.
    pub fn straight(&self, position: Position) -> (res: bool)
        ensures
            res == straight(self@, position@),
    {
        if self.row == position.row {
            return true;
        }
        if self.column == position.column {
            return true;
        }
        false
    }

    /// Whether the two positions share a diagonal.
    pub fn diagonal(&self, position: Position) -> (res: bool)
        ensures
            res == diagonal(self@, position@),
    {
        distance(self.row, position.row) == distance(self.column, position.column)
    }

    /// Whether `position` is one of the eight neighbours of `self`.
    pub fn is_valid_king_movement(&self, position: Position) -> (res: bool)
        ensures
            res == king_step(self@, position@),
    {
        (self.straight(position) && self.manhattan_distance(position) == 1) || (self.diagonal(
            position,
        ) && self.manhattan_distance(position) == 2)
    }

    /// Whether a piece that slides along rows and columns can go from `self`
    /// to `position`: the two are distinct, share a row or a column, and
    /// every square strictly between them is empty. What stands on the two
    /// end squares is not looked at.
    pub fn is_unblocked_straight_movement(&self, position: Position, board: &Board) -> (res: bool)
        ensures
            res == clear_straight(board@.grid, self@, position@),
    {
        proof {
            use_type_invariant(self);
            use_type_invariant(&position);
        }
        if *self == position {
            return false;
        }
        if !self.straight(position) {
            return false;
        }
        let sweep_row: bool = self.column == position.column;
        let low: u8;
        let sweep_stop: u8;
        if sweep_row {
            low = if self.row < position.row { self.row } else { position.row };
            sweep_stop = if self.row < position.row { position.row } else { self.row };
        } else {
            low = if self.column < position.column { self.column } else { position.column };
            sweep_stop = if self.column < position.column { position.column } else { self.column };
        }
        let mut sweep_at: u8 = low + 1;
        while sweep_at < sweep_stop
            invariant
                self.wf(),
                position.wf(),
                self@ != position@,
                straight(self@, position@),
                sweep_row == (self.column == position.column),
                sweep_row ==> low == min(self@.row, position@.row) && sweep_stop == max(
                    self@.row,
                    position@.row,
                ),
                !sweep_row ==> low == min(self@.col, position@.col) && sweep_stop == max(
                    self@.col,
                    position@.col,
                ),
                low < sweep_at <= sweep_stop,
                forall|s: Square| #[trigger]
                    between_straight(self@, position@, s) && (if sweep_row {
                        s.row
                    } else {
                        s.col
                    }) < sweep_at ==> vacant(board@.grid, s),
            decreases sweep_stop - sweep_at,
        {
            let here: Position = if sweep_row {
                Position { row: sweep_at, column: self.column }
            } else {
                Position { row: self.row, column: sweep_at }
            };
            if board.at_position(here).is_some() {
                assert(between_straight(self@, position@, here@));
                return false;
            }
            sweep_at = sweep_at + 1;
        }
        true
    }

    /// Whether a piece that slides along diagonals can go from `self` to
    /// `position`: the two are distinct, share a diagonal, and every square
    /// strictly between them is empty. What stands on the two end squares
    /// is not looked at.
    pub fn is_unblocked_diagonal_movement(&self, position: Position, board: &Board) -> (res: bool)
        ensures
            res == clear_diagonal(board@.grid, self@, position@),
    {
        proof {
            use_type_invariant(self);
            use_type_invariant(&position);
        }
        if *self == position {
            return false;
        }
        if !self.diagonal(position) {
            return false;
        }
        // Walk from the end with the lower column to the other one, a row
        // and a column at a time.
        let start: Position = if self.column < position.column { *self } else { position };
        let end: Position = if self.column < position.column { position } else { *self };
        let rising: bool = start.row < end.row;
        let mut row_at: u8 = if rising { start.row + 1 } else { start.row - 1 };
        let mut column_at: u8 = start.column + 1;
        while column_at < end.column
            invariant
                self.wf(),
                position.wf(),
                self@ != position@,
                diagonal(self@, position@),
                (start == *self && end == position) || (start == position && end == *self),
                start.column < end.column,
                rising == (start.row < end.row),
                start.column < column_at <= end.column,
                rising ==> row_at == start.row + (column_at - start.column),
                !rising ==> row_at == start.row - (column_at - start.column),
                forall|s: Square| #[trigger]
                    between_diagonal(self@, position@, s) && s.col < column_at ==> vacant(
                        board@.grid,
                        s,
                    ),
            decreases end.column - column_at,
        {
            let here: Position = Position { row: row_at, column: column_at };
            if board.at_position(here).is_some() {
                assert(between_diagonal(self@, position@, here@));
                return false;
            }
            row_at = if rising { row_at + 1 } else { row_at - 1 };
            column_at = column_at + 1;
        }
        true
    }

    /// Whether `position` is a knight's jump away from `self`.
    pub fn is_knight_pattern(self, position: Position) -> (res: bool)
        ensures
            res == knight_jump(self@, position@),
    {
        let rows: u8 = distance(self.row, position.row);
        (rows == 1 || rows == 2) && self.manhattan_distance(position) == 3
    }
}

} // verus!
