//! The board: the grid of squares, the side to move and the moves played,
//! with move legality, check and checkmate detection, and move application.

use vstd::prelude::*;
use crate::geometry::{square_at, Grid, Square};
use crate::pieces::{Color, Piece, PieceKind, Tile};
use crate::position::Position;
use crate::rules::{
    apply, attackers, checking_square, checkmate, first_from, initial_position, king_square,
    king_squares, legal, legal_ignoring_check, no_legal_moves, owned_by, pawn_move, BoardView,
    Ply,
};

verus! {

/// One player's move as recorded in the history of a board.
#[derive(Clone, Copy, PartialEq, Eq, Structural, Debug)]
pub struct HalfMove {
    pub from: Position,
    pub to: Position,
}

impl View for HalfMove {
    type V = Ply;

    open spec fn view(&self) -> Ply {
        Ply { from: self.from@, to: self.to@ }
    }
}

/// A position of the game. `board[row][column]` is the content of a square;
/// row 0 is Black's back rank and row 7 is White's.
#[derive(Debug)]
pub struct Board {
    pub history: Vec<HalfMove>,
    pub turn: Color,
    pub board: [[Tile; 8]; 8],
}

/// The squares of an 8x8 array, keyed by square.
pub open spec fn grid_of(tiles: [[Tile; 8]; 8]) -> Grid {
    Map::new(|s: Square| s.on_board(), |s: Square| tiles[s.row][s.col])
}

/// The recorded moves as plies.
pub open spec fn plies_of(moves: Seq<HalfMove>) -> Seq<Ply> {
    Seq::new(moves.len(), |i: int| moves[i]@)
}

impl View for Board {
    type V = BoardView;

    open spec fn view(&self) -> BoardView {
        BoardView {
            grid: grid_of(self.board),
            turn: self.turn,
            history: plies_of(self.history@),
        }
    }
}

impl Clone for Board {
    /// A copy that denotes the same position.
    fn clone(&self) -> (res: Board)
        ensures
            res@ == self@,
    {
        Board { history: self.history.clone(), turn: self.turn, board: self.board }
    }
}

/// The position at place `index` of a row-by-row reading of the board.
fn position_at(index: u8) -> (p: Position)
    requires
        index < 64,
    ensures
        p@ == square_at(index as int),
{
    Position::at(index / 8, index % 8)
}

impl Board {
    /// The starting position: the standard 32 pieces, White to move, and an
    /// empty history.
    pub fn new() -> (res: Board)
        ensures
            res@ == initial_position(),
    {
        let black_pawn: Tile = Tile::make_tile(PieceKind::Pawn, Color::Black);
        let white_pawn: Tile = Tile::make_tile(PieceKind::Pawn, Color::White);
        let res = Board {
            board: [
                [
                    Tile::make_tile(PieceKind::Rook, Color::Black),
                    Tile::make_tile(PieceKind::Knight, Color::Black),
                    Tile::make_tile(PieceKind::Bishop, Color::Black),
                    Tile::make_tile(PieceKind::Queen, Color::Black),
                    Tile::make_tile(PieceKind::King, Color::Black),
                    Tile::make_tile(PieceKind::Bishop, Color::Black),
                    Tile::make_tile(PieceKind::Knight, Color::Black),
                    Tile::make_tile(PieceKind::Rook, Color::Black),
                ],
                [black_pawn; 8],
                [Tile::Empty; 8],
                [Tile::Empty; 8],
                [Tile::Empty; 8],
                [Tile::Empty; 8],
                [white_pawn; 8],
                [
                    Tile::make_tile(PieceKind::Rook, Color::White),
                    Tile::make_tile(PieceKind::Knight, Color::White),
                    Tile::make_tile(PieceKind::Bishop, Color::White),
                    Tile::make_tile(PieceKind::Queen, Color::White),
                    Tile::make_tile(PieceKind::King, Color::White),
                    Tile::make_tile(PieceKind::Bishop, Color::White),
                    Tile::make_tile(PieceKind::Knight, Color::White),
                    Tile::make_tile(PieceKind::Rook, Color::White),
                ],
            ],
            turn: Color::White,
            history: Vec::new(),
        };
        assert(res@.grid =~= initial_position().grid);
        assert(res@.history =~= initial_position().history);
        res
    }

    /// The square of the king of the given colour: the first one in a
    /// row-by-row reading of the board, or `None` if there is none.
    pub fn find_king(&self, color: Color) -> (res: Option<Position>)
        ensures
            match res {
                Some(p) => king_square(self@.grid, color) == Some(p@),
                None => king_square(self@.grid, color) is None,
            },
    {
        let seek: Tile = Tile::Occupied(Piece { piece_kind: PieceKind::King, color: color });
        let mut index: u8 = 0;
        while index < 64
            invariant
                index <= 64,
                seek == Tile::Occupied(Piece { piece_kind: PieceKind::King, color: color }),
                king_square(self@.grid, color) == first_from(
                    king_squares(self@.grid, color),
                    index as int,
                ),
            decreases 64 - index,
        {
            let position: Position = position_at(index);
            if self.board[position.row() as usize][position.column() as usize] == seek {
                return Some(position);
            }
            index = index + 1;
        }
        None
    }

    /// The piece on a square, if any.
    pub fn at_position(&self, position: Position) -> (res: Option<Piece>)
        ensures
            res == match self@.grid[position@] {
                Tile::Occupied(piece) => Some(piece),
                Tile::Empty => None,
            },
    {
        let row: usize = position.row() as usize;
        let column: usize = position.column() as usize;
        match self.board[row][column] {
            Tile::Occupied(piece) => Some(piece),
            Tile::Empty => None,
        }
    }

    /// Whether a pawn of the side to move may go from `from` to `to`: one
    /// square forward onto an empty square; two squares forward from its
    /// home row over and onto empty squares; or one square diagonally forward
    /// onto a piece of the other side. What stands on `from` is not looked at.
    pub fn is_valid_pawn_move(&self, from: Position, to: Position) -> (res: bool)
        ensures
            res == pawn_move(self@.grid, self@.turn, from@, to@),
    {
        let from_row: u8 = from.row();
        let from_column: u8 = from.column();
        let to_row: u8 = to.row();
        let to_column: u8 = to.column();
        let target: Option<Piece> = self.at_position(to);
        match self.turn {
            Color::White => {
                if from_row == to_row + 1 && from_column == to_column && target.is_none() {
                    return true;
                }
                if from_row == 6 && to_row == 4 && from_column == to_column && target.is_none()
                    && self.at_position(Position::at(to_row + 1, to_column)).is_none() {
                    return true;
                }
                if from_row == to_row + 1 && from.manhattan_distance(to) == 2 {
                    if let Some(piece) = target {
                        if piece.color != self.turn {
                            return true;
                        }
                    }
                    return false;
                }
                false
            },
            Color::Black => {
                if from_row + 1 == to_row && from_column == to_column && target.is_none() {
                    return true;
                }
                if from_row == 1 && to_row == 3 && from_column == to_column && target.is_none()
                    && self.at_position(Position::at(to_row - 1, to_column)).is_none() {
                    return true;
                }
                if from_row + 1 == to_row && from.manhattan_distance(to) == 2 {
                    if let Some(piece) = target {
                        if piece.color != self.turn {
                            return true;
                        }
                    }
                    return false;
                }
                false
            },
        }
    }

    /// Whether the side to move may move from `from` to `to`, check aside:
    /// `from` holds one of its pieces, `to` does not, and the piece's movement
    /// pattern allows the move.
    pub fn is_valid_move_ignoring_check(&self, from: Position, to: Position) -> (res: bool)
        ensures
            res == legal_ignoring_check(self@, from@, to@),
    {
        let piece: Piece = match self.at_position(from) {
            Some(piece) => piece,
            None => {
                return false;
            },
        };
        if piece.color != self.turn {
            return false;
        }
        if let Some(captured) = self.at_position(to) {
            if captured.color == self.turn {
                return false;
            }
        }
        match piece.piece_kind {
            PieceKind::King => from.is_valid_king_movement(to),
            PieceKind::Queen => from.is_unblocked_diagonal_movement(to, self)
                || from.is_unblocked_straight_movement(to, self),
            PieceKind::Bishop => from.is_unblocked_diagonal_movement(to, self),
            PieceKind::Knight => from.is_knight_pattern(to),
            PieceKind::Rook => from.is_unblocked_straight_movement(to, self),
            PieceKind::Pawn => self.is_valid_pawn_move(from, to),
        }
    }

    /// Whether the side to move may move from `from` to `to`: the move is
    /// valid check aside, and it does not leave the mover's own king attacked.
    pub fn is_valid_move(&self, from: Position, to: Position) -> (res: bool)
        ensures
            res == legal(self@, from@, to@),
    {
        if !self.is_valid_move_ignoring_check(from, to) {
            return false;
        }
        let mut new_board: Board = self.clone();
        new_board.perform_half_move(from, to);
        new_board.is_in_check(self.turn).is_none()
    }

    /// Whether the king of the given colour is attacked, and from where.
    /// Returns the first square, row by row, that holds a piece of the other
    /// side which that side could move onto the king's square, check aside;
    /// `None` if there is no such piece, or no king of that colour. The
    /// answer is the same whichever side is to move.
    pub fn is_in_check(&self, color: Color) -> (res: Option<Position>)
        ensures
            match res {
                Some(p) => checking_square(self@.grid, color) == Some(p@),
                None => checking_square(self@.grid, color) is None,
            },
    {
        let king_position: Position = match self.find_king(color) {
            Some(position) => position,
            None => {
                return None;
            },
        };
        // The same squares with the other side to move: a piece attacks the
        // king if its side may move it onto the king's square.
        let attacking: Board = Board {
            history: Vec::new(),
            turn: color.swap(),
            board: self.board,
        };
        let mut index: u8 = 0;
        while index < 64
            invariant
                index <= 64,
                attacking@.grid == self@.grid,
                attacking@.turn == color.other(),
                king_square(self@.grid, color) == Some(king_position@),
                checking_square(self@.grid, color) == first_from(
                    attackers(self@.grid, color, king_position@),
                    index as int,
                ),
            decreases 64 - index,
        {
            let position: Position = position_at(index);
            match self.at_position(position) {
                Some(piece) => {
                    if piece.color != color {
                        if attacking.is_valid_move_ignoring_check(position, king_position) {
                            return Some(position);
                        }
                    }
                },
                None => {},
            }
            index = index + 1;
        }
        None
    }

    /// Whether no piece of the given colour has a legal move.
    pub fn has_no_legal_moves(&self, color: Color) -> (res: bool)
        ensures
            res == no_legal_moves(self@, color),
    {
        let mut index: u8 = 0;
        while index < 64
            invariant
                index <= 64,
                forall|a: Square, b: Square|
                    a.on_board() && b.on_board() && a.rank() < index && owned_by(
                        self@.grid,
                        a,
                        color,
                    ) ==> !#[trigger] legal(self@, a, b),
            decreases 64 - index,
        {
            let from: Position = position_at(index);
            match self.at_position(from) {
                Some(piece) => {
                    if piece.color == color {
                        let mut target: u8 = 0;
                        while target < 64
                            invariant
                                target <= 64,
                                from@ == square_at(index as int),
                                from@.on_board(),
                                owned_by(self@.grid, from@, color),
                                forall|b: Square|
                                    b.on_board() && b.rank() < target ==> !#[trigger] legal(
                                        self@,
                                        from@,
                                        b,
                                    ),
                            decreases 64 - target,
                        {
                            let to: Position = position_at(target);
                            if self.is_valid_move(from, to) {
                                return false;
                            }
                            target = target + 1;
                        }
                    }
                },
                None => {},
            }
            index = index + 1;
        }
        true
    }

    /// Whether the side to move is checkmated: its king is attacked and it
    /// has no legal move.
    pub fn is_check_mate(&self) -> (res: bool)
        ensures
            res == checkmate(self@),
    {
        if self.is_in_check(self.turn).is_none() {
            return false;
        }
        if self.has_no_legal_moves(self.turn) {
            return true;
        }
        false
    }

    /// Attempts a move for the side to move. Returns the position after the
    /// move if it is legal, and `None` otherwise. `self` is left as it was
    /// either way.
    pub fn make_half_move(&self, from: Position, to: Position) -> (res: Option<Board>)
        ensures
            res is Some <==> legal(self@, from@, to@),
            res matches Some(next) ==> next@ == apply(self@, from@, to@),
            res matches Some(next) ==> next@.turn == self@.turn.other() && next@.history
                == self@.history.push(Ply { from: from@, to: to@ }),
    {
        if !self.is_valid_move_ignoring_check(from, to) {
            return None;
        }
        let mut new_board: Board = self.clone();
        new_board.perform_half_move(from, to);
        if new_board.is_in_check(self.turn).is_some() {
            return None;
        }
        Some(new_board)
    }

    /// Moves whatever is on `from` to `to`, leaves `from` empty, passes the
    /// turn and records the move. No rule is consulted.
    pub fn perform_half_move(&mut self, from: Position, to: Position)
        ensures
            final(self)@ == apply(old(self)@, from@, to@),
    {
        let from_row: usize = from.row() as usize;
        let from_column: usize = from.column() as usize;
        let to_row: usize = to.row() as usize;
        let to_column: usize = to.column() as usize;
        let moved: Tile = self.board[from_row][from_column];
        self.board[to_row][to_column] = moved;
        self.board[from_row][from_column] = Tile::Empty;
        self.turn = self.turn.swap();
        self.history.push(HalfMove { from, to });
        assert(self@.grid =~= apply(old(self)@, from@, to@).grid);
        assert(self@.history =~= apply(old(self)@, from@, to@).history);
    }
}

} // verus!
