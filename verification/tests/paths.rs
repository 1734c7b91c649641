use chess_rules::{Board, Color, PieceKind, Position, Tile};

fn spot(row: u8, column: u8) -> Position {
    Position::new(row, column).unwrap()
}

fn bare(turn: Color) -> Board {
    Board { history: Vec::new(), turn, board: [[Tile::Empty; 8]; 8] }
}

fn place(board: &mut Board, row: usize, column: usize, kind: PieceKind, color: Color) {
    board.board[row][column] = Tile::make_tile(kind, color);
}

/// The squares strictly between two aligned squares, walking from the first.
fn strictly_between(from: (i32, i32), to: (i32, i32)) -> Vec<(i32, i32)> {
    let step = ((to.0 - from.0).signum(), (to.1 - from.1).signum());
    let mut squares = Vec::new();
    let mut at = (from.0 + step.0, from.1 + step.1);
    while at != to {
        squares.push(at);
        at = (at.0 + step.0, at.1 + step.1);
    }
    squares
}

#[test]
fn diagonal_clear_in_all_four_directions() {
    let board = bare(Color::White);
    let centre = spot(3, 3);
    for target in [(0, 0), (0, 6), (6, 0), (7, 7), (2, 2), (2, 4), (4, 2), (4, 4)] {
        let target = spot(target.0, target.1);
        assert!(centre.is_unblocked_diagonal_movement(target, &board));
        assert!(target.is_unblocked_diagonal_movement(centre, &board));
    }
}

#[test]
fn diagonal_blocked_in_all_four_directions() {
    let centre = (3, 3);
    for target in [(0, 0), (0, 6), (6, 0), (7, 7)] {
        for blocker in strictly_between(centre, target) {
            let mut board = bare(Color::White);
            place(&mut board, blocker.0 as usize, blocker.1 as usize, PieceKind::Pawn, Color::Black);
            let a = spot(centre.0 as u8, centre.1 as u8);
            let b = spot(target.0 as u8, target.1 as u8);
            assert!(!a.is_unblocked_diagonal_movement(b, &board));
            assert!(!b.is_unblocked_diagonal_movement(a, &board));
        }
    }
}

#[test]
fn diagonal_over_every_pair_and_blocker() {
    for a in 0..64i32 {
        for b in 0..64i32 {
            let (from, to) = ((a / 8, a % 8), (b / 8, b % 8));
            let p = spot(from.0 as u8, from.1 as u8);
            let q = spot(to.0 as u8, to.1 as u8);
            let aligned = a != b && (from.0 - to.0).abs() == (from.1 - to.1).abs();
            let empty = bare(Color::Black);
            assert_eq!(p.is_unblocked_diagonal_movement(q, &empty), aligned);
            if !aligned {
                continue;
            }
            let path = strictly_between(from, to);
            for c in 0..64i32 {
                let other = (c / 8, c % 8);
                let mut board = bare(Color::Black);
                place(&mut board, other.0 as usize, other.1 as usize, PieceKind::Rook, Color::White);
                assert_eq!(p.is_unblocked_diagonal_movement(q, &board), !path.contains(&other));
            }
        }
    }
}

#[test]
fn straight_over_every_pair_and_blocker() {
    for a in 0..64i32 {
        for b in 0..64i32 {
            let (from, to) = ((a / 8, a % 8), (b / 8, b % 8));
            let p = spot(from.0 as u8, from.1 as u8);
            let q = spot(to.0 as u8, to.1 as u8);
            let aligned = a != b && (from.0 == to.0 || from.1 == to.1);
            let empty = bare(Color::Black);
            assert_eq!(p.is_unblocked_straight_movement(q, &empty), aligned);
            if !aligned {
                continue;
            }
            let path = strictly_between(from, to);
            for c in 0..64i32 {
                let other = (c / 8, c % 8);
                let mut board = bare(Color::Black);
                place(&mut board, other.0 as usize, other.1 as usize, PieceKind::Knight, Color::Black);
                assert_eq!(p.is_unblocked_straight_movement(q, &board), !path.contains(&other));
            }
        }
    }
}

#[test]
fn straight_sweeps_rows_and_columns() {
    let mut board = bare(Color::White);
    place(&mut board, 4, 2, PieceKind::Pawn, Color::White);
    place(&mut board, 2, 5, PieceKind::Pawn, Color::Black);
    // Along row 4, across column 2.
    assert!(!spot(4, 0).is_unblocked_straight_movement(spot(4, 7), &board));
    assert!(!spot(4, 7).is_unblocked_straight_movement(spot(4, 0), &board));
    assert!(spot(4, 3).is_unblocked_straight_movement(spot(4, 7), &board));
    // The ends themselves are not looked at.
    assert!(spot(4, 2).is_unblocked_straight_movement(spot(4, 7), &board));
    assert!(spot(4, 0).is_unblocked_straight_movement(spot(4, 2), &board));
    // Along column 5, across row 2.
    assert!(!spot(0, 5).is_unblocked_straight_movement(spot(7, 5), &board));
    assert!(!spot(7, 5).is_unblocked_straight_movement(spot(0, 5), &board));
    assert!(spot(3, 5).is_unblocked_straight_movement(spot(7, 5), &board));
    assert!(spot(0, 5).is_unblocked_straight_movement(spot(2, 5), &board));
    // Neighbours have nothing between them.
    assert!(spot(4, 1).is_unblocked_straight_movement(spot(4, 2), &board));
    // Same square, or not aligned.
    assert!(!spot(4, 1).is_unblocked_straight_movement(spot(4, 1), &board));
    assert!(!spot(4, 1).is_unblocked_straight_movement(spot(5, 2), &board));
}

#[test]
fn diagonal_ends_are_not_looked_at() {
    let mut board = bare(Color::White);
    place(&mut board, 1, 1, PieceKind::Bishop, Color::White);
    place(&mut board, 5, 5, PieceKind::Pawn, Color::Black);
    assert!(spot(1, 1).is_unblocked_diagonal_movement(spot(5, 5), &board));
    assert!(spot(5, 5).is_unblocked_diagonal_movement(spot(1, 1), &board));
    assert!(!spot(0, 0).is_unblocked_diagonal_movement(spot(7, 7), &board));
    assert!(!spot(1, 1).is_unblocked_diagonal_movement(spot(1, 1), &board));
    assert!(!spot(1, 1).is_unblocked_diagonal_movement(spot(1, 5), &board));
    assert!(!spot(1, 1).is_unblocked_diagonal_movement(spot(2, 5), &board));
}

#[test]
fn rook_bishop_and_queen_stop_at_the_first_piece() {
    let mut board = bare(Color::White);
    place(&mut board, 4, 4, PieceKind::Queen, Color::White);
    place(&mut board, 4, 0, PieceKind::Rook, Color::White);
    place(&mut board, 7, 1, PieceKind::Bishop, Color::White);
    place(&mut board, 4, 2, PieceKind::Pawn, Color::Black);
    place(&mut board, 2, 6, PieceKind::Pawn, Color::Black);
    place(&mut board, 5, 3, PieceKind::Knight, Color::White);
    // Queen along the row: up to and onto the black pawn, not past it.
    assert!(board.is_valid_move_ignoring_check(spot(4, 4), spot(4, 3)));
    assert!(board.is_valid_move_ignoring_check(spot(4, 4), spot(4, 2)));
    assert!(!board.is_valid_move_ignoring_check(spot(4, 4), spot(4, 1)));
    assert!(board.is_valid_move_ignoring_check(spot(4, 4), spot(4, 7)));
    assert!(board.is_valid_move_ignoring_check(spot(4, 4), spot(0, 4)));
    assert!(board.is_valid_move_ignoring_check(spot(4, 4), spot(7, 4)));
    // Queen along diagonals.
    assert!(board.is_valid_move_ignoring_check(spot(4, 4), spot(3, 5)));
    assert!(board.is_valid_move_ignoring_check(spot(4, 4), spot(2, 6)));
    assert!(!board.is_valid_move_ignoring_check(spot(4, 4), spot(1, 7)));
    assert!(board.is_valid_move_ignoring_check(spot(4, 4), spot(0, 0)));
    assert!(board.is_valid_move_ignoring_check(spot(4, 4), spot(7, 7)));
    // Its own knight is in the way, and cannot be captured.
    assert!(!board.is_valid_move_ignoring_check(spot(4, 4), spot(5, 3)));
    assert!(!board.is_valid_move_ignoring_check(spot(4, 4), spot(6, 2)));
    // Not a queen's line.
    assert!(!board.is_valid_move_ignoring_check(spot(4, 4), spot(2, 5)));
    assert!(!board.is_valid_move_ignoring_check(spot(4, 4), spot(4, 4)));
    // Rook along the row: up to and onto the black pawn, not past it.
    assert!(board.is_valid_move_ignoring_check(spot(4, 0), spot(4, 1)));
    assert!(board.is_valid_move_ignoring_check(spot(4, 0), spot(4, 2)));
    assert!(!board.is_valid_move_ignoring_check(spot(4, 0), spot(4, 3)));
    assert!(board.is_valid_move_ignoring_check(spot(4, 0), spot(0, 0)));
    assert!(!board.is_valid_move_ignoring_check(spot(4, 0), spot(5, 1)));
    // Bishop: (7,1) -> (6,2) -> (5,3) is its own knight.
    assert!(board.is_valid_move_ignoring_check(spot(7, 1), spot(6, 2)));
    assert!(!board.is_valid_move_ignoring_check(spot(7, 1), spot(5, 3)));
    assert!(!board.is_valid_move_ignoring_check(spot(7, 1), spot(4, 4)));
    assert!(board.is_valid_move_ignoring_check(spot(7, 1), spot(6, 0)));
    assert!(!board.is_valid_move_ignoring_check(spot(7, 1), spot(7, 5)));
}

#[test]
fn knight_is_never_blocked() {
    // From the starting position the knights jump over the pawns.
    let board = Board::new();
    assert!(board.is_valid_move_ignoring_check(spot(7, 1), spot(5, 0)));
    assert!(board.is_valid_move_ignoring_check(spot(7, 1), spot(5, 2)));
    assert!(board.is_valid_move_ignoring_check(spot(7, 6), spot(5, 5)));
    assert!(board.is_valid_move_ignoring_check(spot(7, 6), spot(5, 7)));
    // Onto its own pawn: rejected because of the target, not the path.
    assert!(!board.is_valid_move_ignoring_check(spot(7, 1), spot(6, 3)));
    assert!(board.make_half_move(spot(7, 6), spot(5, 5)).is_some());

    // A knight walled in on all sides still reaches all eight squares.
    let mut board = bare(Color::Black);
    for row in 2..7usize {
        for column in 2..7usize {
            place(&mut board, row, column, PieceKind::Pawn, Color::White);
        }
    }
    place(&mut board, 4, 4, PieceKind::Knight, Color::Black);
    let mut reached = 0;
    for index in 0..64u8 {
        let target = spot(index / 8, index % 8);
        let jump = spot(4, 4).is_knight_pattern(target);
        assert_eq!(board.is_valid_move_ignoring_check(spot(4, 4), target), jump);
        if jump {
            reached += 1;
        }
    }
    assert_eq!(reached, 8);
    // The same walls stop a rook, a bishop and a queen on that square.
    for kind in [PieceKind::Rook, PieceKind::Bishop, PieceKind::Queen] {
        place(&mut board, 4, 4, kind, Color::Black);
        for index in 0..64u8 {
            let target = spot(index / 8, index % 8);
            let near = spot(4, 4).is_valid_king_movement(target);
            if !near {
                assert!(!board.is_valid_move_ignoring_check(spot(4, 4), target));
            }
        }
    }
}

#[test]
fn king_moves_one_step() {
    let mut board = bare(Color::White);
    place(&mut board, 4, 4, PieceKind::King, Color::White);
    place(&mut board, 3, 4, PieceKind::Pawn, Color::White);
    place(&mut board, 5, 5, PieceKind::Pawn, Color::Black);
    assert!(!board.is_valid_move_ignoring_check(spot(4, 4), spot(3, 4)));
    assert!(board.is_valid_move_ignoring_check(spot(4, 4), spot(5, 5)));
    assert!(board.is_valid_move_ignoring_check(spot(4, 4), spot(4, 3)));
    assert!(board.is_valid_move_ignoring_check(spot(4, 4), spot(3, 3)));
    assert!(!board.is_valid_move_ignoring_check(spot(4, 4), spot(4, 6)));
    assert!(!board.is_valid_move_ignoring_check(spot(4, 4), spot(2, 2)));
    assert!(!board.is_valid_move_ignoring_check(spot(4, 4), spot(4, 4)));
}
