//! Pieces, colours and the contents of a single square.

use vstd::prelude::*;

verus! {

/// The six kinds of chess piece.
#[derive(Clone, Copy, PartialEq, Eq, Structural, Debug)]
pub enum PieceKind {
    King,
    Queen,
    Bishop,
    Knight,
    Rook,
    Pawn,
}

/// The two sides.
#[derive(Clone, Copy, PartialEq, Eq, Structural, Debug)]
pub enum Color {
    White,
    Black,
}

impl Color {
    /// The opposing side.
    pub open spec fn other(self) -> Color {
        match self {
            Color::White => Color::Black,
            Color::Black => Color::White,
        }
    }

    /// Returns the opposing side.
    pub fn swap(self) -> (res: Color)
        ensures
            res == self.other(),
    {
        match self {
            Color::White => Color::Black,
            Color::Black => Color::White,
        }
    }
}

/// A piece: its kind and the side that owns it.
#[derive(Clone, Copy, PartialEq, Eq, Structural, Debug)]
pub struct Piece {
    pub piece_kind: PieceKind,
    pub color: Color,
}

/// What a square holds: nothing, or exactly one piece.
#[derive(Clone, Copy, PartialEq, Eq, Structural, Debug)]
pub enum Tile {
    Empty,
    Occupied(Piece),
}

impl Tile {
    /// A square occupied by a piece of the given kind and colour.
    pub fn make_tile(kind: PieceKind, color: Color) -> (res: Tile)
        ensures
            res == Tile::Occupied(Piece { piece_kind: kind, color: color }),
    {
        Tile::Occupied(Piece { piece_kind: kind, color: color })
    }
}

} // verus!
