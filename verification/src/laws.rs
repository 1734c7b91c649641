//! Consequences of the rules, proved once for every position.

use vstd::math::abs;
use vstd::prelude::*;
use crate::geometry::{
    between_diagonal, between_straight, diagonal, king_step, knight_jump, lemma_rank_of_square,
    lemma_square_of_rank, manhattan, square_at, straight, vacant, Grid, Square,
};
use crate::pieces::{Color, PieceKind, Tile};
use crate::rules::{
    apply, attackers, attacks, checking_square, first_from, forward, holds_king, in_check,
    king_square, king_squares, legal, legal_ignoring_check, movable, owned_by, pawn_move,
    BoardView, Ply,
};

verus! {

/// A king's step leads to one of the eight neighbouring squares, and to
/// nothing else. No step is both a straight and a diagonal one.
pub proof fn law_king_step_reaches_neighbours(a: Square, b: Square)
    ensures
        king_step(a, b) <==> a != b && abs(a.row - b.row) <= 1 && abs(a.col - b.col) <= 1,
        !(straight(a, b) && manhattan(a, b) == 1 && diagonal(a, b) && manhattan(a, b) == 2),
{
}

/// A knight's jump is two squares one way and one square the other.
pub proof fn law_knight_jump_is_l_shaped(a: Square, b: Square)
    ensures
        knight_jump(a, b) <==> (abs(a.row - b.row) == 1 && abs(a.col - b.col) == 2) || (abs(
            a.row - b.row,
        ) == 2 && abs(a.col - b.col) == 1),
{
}

/// What a row-by-row search from position `i` finds is on the board,
/// satisfies the test, and is preceded by no square at or after position
/// `i` that satisfies it.
pub proof fn law_first_found_is_first(p: spec_fn(Square) -> bool, i: int, s: Square)
    requires
        0 <= i,
        first_from(p, i) == Some(s),
    ensures
        s.on_board(),
        i <= s.rank(),
        p(s),
        forall|t: Square| t.on_board() && i <= t.rank() < s.rank() ==> !#[trigger] p(t),
    decreases 64 - i,
{
    if i < 64 {
        lemma_square_of_rank(i);
        if p(square_at(i)) {
        } else {
            law_first_found_is_first(p, i + 1, s);
            assert forall|t: Square| t.on_board() && i <= t.rank() < s.rank() implies !#[trigger] p(
                t,
            ) by {
                lemma_rank_of_square(t);
            }
        }
    }
}

/// A row-by-row search from position `i` that finds nothing means that no
/// square of the board at or after position `i` satisfies the test.
pub proof fn law_nothing_found_means_none(p: spec_fn(Square) -> bool, i: int)
    requires
        0 <= i,
        first_from(p, i) is None,
    ensures
        forall|t: Square| t.on_board() && i <= t.rank() ==> !#[trigger] p(t),
    decreases 64 - i,
{
    if i < 64 {
        law_nothing_found_means_none(p, i + 1);
        assert forall|t: Square| t.on_board() && i <= t.rank() implies !#[trigger] p(t) by {
            lemma_rank_of_square(t);
        }
    } else {
        assert forall|t: Square| t.on_board() && i <= t.rank() implies !#[trigger] p(t) by {
            lemma_rank_of_square(t);
        }
    }
}

/// The king that check is judged on stands on the board, and no square
/// before it, reading row by row, holds a king of its colour.
pub proof fn law_king_square_is_first_king(grid: Grid, color: Color, king: Square)
    requires
        king_square(grid, color) == Some(king),
    ensures
        king.on_board(),
        holds_king(grid, color, king),
        forall|t: Square| t.on_board() && t.rank() < king.rank() ==> !#[trigger] holds_king(grid, color, t),
{
    let p = king_squares(grid, color);
    law_first_found_is_first(p, 0, king);
    assert forall|t: Square| t.on_board() && t.rank() < king.rank() implies !#[trigger] holds_king(
        grid,
        color,
        t,
    ) by {
        lemma_rank_of_square(t);
        assert(!p(t));
    }
}

/// The square reported for a side in check holds a piece of the other side
/// that attacks the king, and no square before it, reading row by row,
/// does.
pub proof fn law_checking_square_is_first_attacker(grid: Grid, color: Color, s: Square)
    requires
        checking_square(grid, color) == Some(s),
    ensures
        s.on_board(),
        king_square(grid, color) matches Some(king) && attacks(grid, color, s, king) && forall|
            t: Square,
        |
            t.on_board() && t.rank() < s.rank() ==> !#[trigger] attacks(grid, color, t, king),
        owned_by(grid, s, color.other()),
{
    let king = king_square(grid, color)->0;
    let p = attackers(grid, color, king);
    law_first_found_is_first(p, 0, s);
    assert forall|t: Square| t.on_board() && t.rank() < s.rank() implies !#[trigger] attacks(
        grid,
        color,
        t,
        king,
    ) by {
        lemma_rank_of_square(t);
        assert(!p(t));
    }
}

/// A side is in check exactly if it has a king on the board and some
/// square of the board holds a piece of the other side that attacks it.
pub proof fn law_in_check_iff_attacked(grid: Grid, color: Color)
    ensures
        in_check(grid, color) <==> (king_square(grid, color) matches Some(king) && exists|
            s: Square,
        |
            s.on_board() && #[trigger] attacks(grid, color, s, king)),
{
    match king_square(grid, color) {
        Some(king) => {
            let p = attackers(grid, color, king);
            if first_from(p, 0) is None {
                law_nothing_found_means_none(p, 0);
                assert forall|s: Square| s.on_board() implies !#[trigger] attacks(
                    grid,
                    color,
                    s,
                    king,
                ) by {
                    lemma_rank_of_square(s);
                    assert(!p(s));
                }
            } else {
                let s = first_from(p, 0)->0;
                law_first_found_is_first(p, 0, s);
                assert(s.on_board() && attacks(grid, color, s, king));
            }
        },
        None => {},
    }
}

/// A side without a king on the board is never in check.
pub proof fn law_no_king_no_check(grid: Grid, color: Color)
    requires
        forall|s: Square| s.on_board() ==> !#[trigger] holds_king(grid, color, s),
    ensures
        !in_check(grid, color),
{
    let p = king_squares(grid, color);
    if first_from(p, 0) is Some {
        let s = first_from(p, 0)->0;
        law_first_found_is_first(p, 0, s);
        assert(holds_king(grid, color, s));
    }
}

/// Only the side to move can move: from an empty square, or from a square
/// that holds a piece of the other side, every move is rejected, whatever
/// its shape.
pub proof fn law_only_side_to_move_moves(b: BoardView, from: Square, to: Square)
    requires
        !owned_by(b.grid, from, b.turn),
    ensures
        !legal_ignoring_check(b, from, to),
        !legal(b, from, to),
{
}

/// A piece never captures one of its own side.
pub proof fn law_no_self_capture(b: BoardView, from: Square, to: Square)
    requires
        owned_by(b.grid, to, b.turn),
    ensures
        !legal_ignoring_check(b, from, to),
        !legal(b, from, to),
{
}

/// A move after which a piece of the other side attacks the mover's king
/// is rejected, even if the piece may otherwise move that way.
pub proof fn law_self_check_rejected(b: BoardView, from: Square, to: Square, attacker: Square)
    requires
        attacker.on_board(),
        king_square(apply(b, from, to).grid, b.turn) matches Some(king) && attacks(
            apply(b, from, to).grid,
            b.turn,
            attacker,
            king,
        ),
    ensures
        in_check(apply(b, from, to).grid, b.turn),
        !legal(b, from, to),
{
    law_in_check_iff_attacked(apply(b, from, to).grid, b.turn);
}

/// A move passes the turn to the other side, adds itself at the end of the
/// history and leaves the earlier entries as they were. It empties the
/// square it leaves, puts the moved piece on the square it reaches, and
/// touches no other square.
pub proof fn law_move_passes_turn_and_is_recorded(b: BoardView, from: Square, to: Square)
    ensures
        apply(b, from, to).turn == b.turn.other(),
        apply(b, from, to).turn != b.turn,
        apply(b, from, to).turn.other() == b.turn,
        apply(b, from, to).history.len() == b.history.len() + 1,
        apply(b, from, to).history.last() == (Ply { from, to }),
        apply(b, from, to).history.drop_last() == b.history,
        apply(b, from, to).grid[from] is Empty,
        from != to ==> apply(b, from, to).grid[to] == b.grid[from],
        forall|s: Square|
            s != from && s != to && b.grid.dom().contains(s) ==> #[trigger] apply(
                b,
                from,
                to,
            ).grid[s] == b.grid[s],
        apply(b, from, to).grid.dom() == b.grid.dom().insert(to).insert(from),
{
    assert(apply(b, from, to).history.drop_last() =~= b.history);
    assert(apply(b, from, to).grid.dom() =~= b.grid.dom().insert(to).insert(from));
}

/// A pawn only moves forward: one row, or two from its home row, and at
/// most one column aside. It never lands on a piece of its own side.
pub proof fn law_pawn_moves_forward(grid: Grid, mover: Color, a: Square, b: Square)
    requires
        pawn_move(grid, mover, a, b),
    ensures
        b.row == a.row + forward(mover) || b.row == a.row + 2 * forward(mover),
        abs(b.col - a.col) <= 1,
        b.col != a.col <==> owned_by(grid, b, mover.other()),
        b.col == a.col <==> vacant(grid, b),
        !owned_by(grid, b, mover),
{
}

/// For the side that is not to move, being attacked means exactly that the
/// side to move has a move onto the king's square, check aside. This is the
/// test a move has to pass once it has been played.
pub proof fn law_attack_is_a_move_of_the_side_to_move(b: BoardView, s: Square, king: Square)
    ensures
        attacks(b.grid, b.turn.other(), s, king) == legal_ignoring_check(b, s, king),
{
}

/// A knight is never blocked: whether it may go from `a` to `b` depends
/// only on the jump and on what stands on `b`.
pub proof fn law_knight_is_never_blocked(grid: Grid, mover: Color, a: Square, b: Square)
    requires
        grid[a] matches Tile::Occupied(piece) && piece.color == mover && piece.piece_kind
            == PieceKind::Knight,
    ensures
        movable(grid, mover, a, b) <==> knight_jump(a, b) && !owned_by(grid, b, mover),
{
}

/// A rook, bishop or queen cannot pass an occupied square: if any square
/// strictly between `a` and `b`, on the line they share, holds a piece,
/// the move from `a` to `b` is rejected.
pub proof fn law_sliding_piece_is_blocked(
    grid: Grid,
    mover: Color,
    a: Square,
    b: Square,
    blocker: Square,
)
    requires
        grid[a] matches Tile::Occupied(piece) && (piece.piece_kind == PieceKind::Rook
            || piece.piece_kind == PieceKind::Bishop || piece.piece_kind == PieceKind::Queen),
        between_straight(a, b, blocker) || between_diagonal(a, b, blocker),
        !vacant(grid, blocker),
    ensures
        !movable(grid, mover, a, b),
{
}

} // verus!
