//! Rules of chess on an 8x8 board: movement geometry, move legality,
//! check and checkmate detection, and move application.

use vstd::prelude::*;

pub mod board;
pub mod geometry;
pub mod laws;
pub mod pieces;
pub mod position;
pub mod rules;

pub use board::{Board, HalfMove};
pub use pieces::{Color, Piece, PieceKind, Tile};
pub use position::Position;

verus! {

/// Sum of two machine-sized integers that is known not to overflow.
pub fn add(left: usize, right: usize) -> (sum: usize)
    requires
        left + right <= usize::MAX,
    ensures
        sum == left + right,
{
    left + right
}

} // verus!
