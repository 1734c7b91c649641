//! The rules, stated over the mathematical board: which moves a side may
//! make, what a move does to the position, and when a side is in check or
//! checkmated.

use vstd::prelude::*;
use crate::geometry::{
    clear_diagonal, clear_straight, king_step, knight_jump, manhattan, square_at, vacant, Grid,
    Square,
};
use crate::pieces::{Color, Piece, PieceKind, Tile};

verus! {

/// One player's move, as the pair of squares it joins.
pub struct Ply {
    pub from: Square,
    pub to: Square,
}

/// A position of the game: the squares, the side to move, and the moves
/// played so far, oldest first.
pub struct BoardView {
    pub grid: Grid,
    pub turn: Color,
    pub history: Seq<Ply>,
}

/// The square holds a piece of the given colour.
pub open spec fn owned_by(grid: Grid, s: Square, color: Color) -> bool {
    grid[s] matches Tile::Occupied(piece) && piece.color == color
}

/// The row direction in which a side's pawns advance: White moves towards
/// row 0, Black towards row 7.
pub open spec fn forward(mover: Color) -> int {
    match mover {
        Color::White => -1,
        Color::Black => 1,
    }
}

/// The row on which a side's pawns start.
pub open spec fn pawn_home_row(mover: Color) -> int {
    match mover {
        Color::White => 6,
        Color::Black => 1,
    }
}

/// One square forward onto an empty square.
pub open spec fn pawn_push(grid: Grid, mover: Color, a: Square, b: Square) -> bool {
    &&& b.row == a.row + forward(mover)
    &&& b.col == a.col
    &&& vacant(grid, b)
}

/// Two squares forward from the home row, over an empty square onto an
/// empty square.
pub open spec fn pawn_double_push(grid: Grid, mover: Color, a: Square, b: Square) -> bool {
    &&& a.row == pawn_home_row(mover)
    &&& b.row == a.row + 2 * forward(mover)
    &&& b.col == a.col
    &&& vacant(grid, b)
    &&& vacant(grid, Square { row: a.row + forward(mover), col: a.col })
}

/// One row forward and one column sideways onto an opposing piece.
pub open spec fn pawn_capture(grid: Grid, mover: Color, a: Square, b: Square) -> bool {
    &&& b.row == a.row + forward(mover)
    &&& manhattan(a, b) == 2
    &&& owned_by(grid, b, mover.other())
}

/// Any of the three pawn moves. There is no en passant and no promotion.
pub open spec fn pawn_move(grid: Grid, mover: Color, a: Square, b: Square) -> bool {
    pawn_push(grid, mover, a, b) || pawn_double_push(grid, mover, a, b) || pawn_capture(
        grid,
        mover,
        a,
        b,
    )
}

/// The piece's own movement pattern allows it to go from `a` to `b`.
pub open spec fn shape_allows(grid: Grid, piece: Piece, a: Square, b: Square) -> bool {
    match piece.piece_kind {
        PieceKind::King => king_step(a, b),
        PieceKind::Queen => clear_diagonal(grid, a, b) || clear_straight(grid, a, b),
        PieceKind::Bishop => clear_diagonal(grid, a, b),
        PieceKind::Knight => knight_jump(a, b),
        PieceKind::Rook => clear_straight(grid, a, b),
        PieceKind::Pawn => pawn_move(grid, piece.color, a, b),
    }
}

/// `mover` has a piece on `a` that may go to `b`: `b` does not hold one of
/// `mover`'s own pieces and the piece's pattern allows the move. Whether the
/// move exposes a king is not considered.
pub open spec fn movable(grid: Grid, mover: Color, a: Square, b: Square) -> bool {
    &&& grid[a] matches Tile::Occupied(piece)
    &&& piece.color == mover
    &&& !owned_by(grid, b, mover)
    &&& shape_allows(grid, piece, a, b)
}

/// The side to move may move from `a` to `b`, check aside.
pub open spec fn legal_ignoring_check(b: BoardView, from: Square, to: Square) -> bool {
    movable(b.grid, b.turn, from, to)
}

/// The position after the piece on `from` has been put on `to`: `from` is
/// left empty, the turn passes to the other side, and the move is recorded.
pub open spec fn apply(b: BoardView, from: Square, to: Square) -> BoardView {
    BoardView {
        grid: b.grid.insert(to, b.grid[from]).insert(from, Tile::Empty),
        turn: b.turn.other(),
        history: b.history.push(Ply { from, to }),
    }
}

/// The first square at or after position `i`, reading the board row by
/// row, that satisfies `p`.
pub open spec fn first_from(p: spec_fn(Square) -> bool, i: int) -> Option<Square>
    decreases 64 - i,
{
    if i < 0 || i >= 64 {
        None
    } else if p(square_at(i)) {
        Some(square_at(i))
    } else {
        first_from(p, i + 1)
    }
}

/// The square holds the king of the given colour.
pub open spec fn holds_king(grid: Grid, color: Color, s: Square) -> bool {
    grid[s] == Tile::Occupied(Piece { piece_kind: PieceKind::King, color: color })
}

/// The squares that hold the king of the given colour.
pub open spec fn king_squares(grid: Grid, color: Color) -> spec_fn(Square) -> bool {
    |s: Square| holds_king(grid, color, s)
}

/// Where the king of the given colour stands: the first such square, row
/// by row, if the board holds more than one.
pub open spec fn king_square(grid: Grid, color: Color) -> Option<Square> {
    first_from(king_squares(grid, color), 0)
}

/// A piece of the other side stands on `s` and may go to `king`, as judged
/// with that side to move.
pub open spec fn attacks(grid: Grid, color: Color, s: Square, king: Square) -> bool {
    movable(grid, color.other(), s, king)
}

/// The squares from which `king`, of the given colour, is attacked.
pub open spec fn attackers(grid: Grid, color: Color, king: Square) -> spec_fn(Square) -> bool {
    |s: Square| attacks(grid, color, s, king)
}

/// The first square, row by row, from which the king of the given colour
/// is attacked. `None` if nothing attacks it or there is no such king.
pub open spec fn checking_square(grid: Grid, color: Color) -> Option<Square> {
    match king_square(grid, color) {
        Some(king) => first_from(attackers(grid, color, king), 0),
        None => None,
    }
}

/// The king of the given colour is attacked.
pub open spec fn in_check(grid: Grid, color: Color) -> bool {
    checking_square(grid, color) is Some
}

/// The side to move may move from `from` to `to`, and its own king is not
/// attacked in the position that results.
pub open spec fn legal(b: BoardView, from: Square, to: Square) -> bool {
    legal_ignoring_check(b, from, to) && !in_check(apply(b, from, to).grid, b.turn)
}

/// No piece of the given colour has a legal move.
pub open spec fn no_legal_moves(b: BoardView, color: Color) -> bool {
    forall|from: Square, to: Square|
        from.on_board() && to.on_board() && owned_by(b.grid, from, color) ==> !#[trigger] legal(
            b,
            from,
            to,
        )
}

/// The kind of piece that starts on a given column of a back rank.
pub open spec fn back_rank_kind(col: int) -> PieceKind {
    if col == 0 || col == 7 {
        PieceKind::Rook
    } else if col == 1 || col == 6 {
        PieceKind::Knight
    } else if col == 2 || col == 5 {
        PieceKind::Bishop
    } else if col == 3 {
        PieceKind::Queen
    } else {
        PieceKind::King
    }
}

/// What a square holds at the start of a game: Black's pieces on row 0 and
/// pawns on row 1, White's pawns on row 6 and pieces on row 7.
pub open spec fn initial_tile(s: Square) -> Tile {
    if s.row == 0 {
        Tile::Occupied(Piece { piece_kind: back_rank_kind(s.col), color: Color::Black })
    } else if s.row == 1 {
        Tile::Occupied(Piece { piece_kind: PieceKind::Pawn, color: Color::Black })
    } else if s.row == 6 {
        Tile::Occupied(Piece { piece_kind: PieceKind::Pawn, color: Color::White })
    } else if s.row == 7 {
        Tile::Occupied(Piece { piece_kind: back_rank_kind(s.col), color: Color::White })
    } else {
        Tile::Empty
    }
}

/// The position at the start of a game: White to move, nothing played.
pub open spec fn initial_position() -> BoardView {
    BoardView {
        grid: Map::new(|s: Square| s.on_board(), |s: Square| initial_tile(s)),
        turn: Color::White,
        history: Seq::empty(),
    }
}

/// The side to move is in check and has no legal move.
pub open spec fn checkmate(b: BoardView) -> bool {
    in_check(b.grid, b.turn) && no_legal_moves(b, b.turn)
}

} // verus!
