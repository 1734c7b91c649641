use chess_rules::Position;

fn coord(row: u8, column: u8) -> Position {
    Position::new(row, column).unwrap()
}

#[test]
fn construction_succeeds_exactly_on_the_board() {
    for row in 0..=255u8 {
        for column in 0..=255u8 {
            let made = Position::new(row, column);
            assert_eq!(made.is_some(), row < 8 && column < 8);
            if let Some(position) = made {
                assert_eq!(position.row(), row);
                assert_eq!(position.column(), column);
            }
        }
    }
}

#[test]
fn construction_edges() {
    assert!(Position::new(0, 0).is_some());
    assert!(Position::new(7, 7).is_some());
    assert!(Position::new(8, 0).is_none());
    assert!(Position::new(0, 8).is_none());
    assert!(Position::new(8, 8).is_none());
    assert!(Position::new(255, 3).is_none());
    assert!(Position::new(3, 255).is_none());
}

#[test]
fn positions_compare_by_coordinates() {
    assert_eq!(coord(3, 4), coord(3, 4));
    assert_ne!(coord(3, 4), coord(4, 3));
    assert_ne!(coord(3, 4), coord(3, 5));
}

#[test]
fn manhattan_distance_values() {
    assert_eq!(coord(0, 0).manhattan_distance(coord(0, 0)), 0);
    assert_eq!(coord(0, 0).manhattan_distance(coord(7, 7)), 14);
    assert_eq!(coord(7, 7).manhattan_distance(coord(0, 0)), 14);
    assert_eq!(coord(2, 5).manhattan_distance(coord(4, 1)), 6);
    assert_eq!(coord(4, 1).manhattan_distance(coord(2, 5)), 6);
    assert_eq!(coord(3, 3).manhattan_distance(coord(3, 4)), 1);
    assert_eq!(coord(7, 0).manhattan_distance(coord(0, 7)), 14);
}

#[test]
fn straight_and_diagonal_alignment() {
    assert!(coord(3, 3).straight(coord(3, 3)));
    assert!(coord(3, 3).diagonal(coord(3, 3)));
    assert!(coord(3, 0).straight(coord(3, 7)));
    assert!(coord(0, 5).straight(coord(7, 5)));
    assert!(!coord(0, 5).straight(coord(7, 4)));
    assert!(coord(0, 0).diagonal(coord(7, 7)));
    assert!(coord(7, 0).diagonal(coord(0, 7)));
    assert!(coord(2, 5).diagonal(coord(4, 3)));
    assert!(!coord(2, 5).diagonal(coord(4, 4)));
    assert!(!coord(3, 0).diagonal(coord(3, 7)));
    for a in 0..64u8 {
        for b in 0..64u8 {
            let (p, q) = (coord(a / 8, a % 8), coord(b / 8, b % 8));
            let rows = (p.row() as i32 - q.row() as i32).abs();
            let columns = (p.column() as i32 - q.column() as i32).abs();
            assert_eq!(p.straight(q), rows == 0 || columns == 0);
            assert_eq!(p.diagonal(q), rows == columns);
            assert_eq!(p.manhattan_distance(q) as i32, rows + columns);
        }
    }
}

#[test]
fn king_movement_is_the_eight_neighbours() {
    let centre = coord(4, 4);
    let mut reachable = 0;
    for index in 0..64u8 {
        let target = coord(index / 8, index % 8);
        let rows = (target.row() as i32 - 4).abs();
        let columns = (target.column() as i32 - 4).abs();
        let neighbour = rows <= 1 && columns <= 1 && (rows, columns) != (0, 0);
        assert_eq!(centre.is_valid_king_movement(target), neighbour);
        if centre.is_valid_king_movement(target) {
            reachable += 1;
        }
    }
    assert_eq!(reachable, 8);
    assert!(!centre.is_valid_king_movement(centre));
    assert!(!centre.is_valid_king_movement(coord(4, 6)));
    assert!(!centre.is_valid_king_movement(coord(6, 6)));
    // A corner has three neighbours.
    let corner = coord(0, 0);
    let mut reachable = 0;
    for index in 0..64u8 {
        if corner.is_valid_king_movement(coord(index / 8, index % 8)) {
            reachable += 1;
        }
    }
    assert_eq!(reachable, 3);
}

#[test]
fn knight_pattern_is_the_l_shape() {
    let centre = coord(4, 4);
    let jumps = [(2, 3), (2, 5), (3, 2), (3, 6), (5, 2), (5, 6), (6, 3), (6, 5)];
    for index in 0..64u8 {
        let target = coord(index / 8, index % 8);
        let expected = jumps.contains(&(target.row(), target.column()));
        assert_eq!(centre.is_knight_pattern(target), expected);
    }
    // Distance three in a straight line is no jump.
    assert!(!centre.is_knight_pattern(coord(4, 7)));
    assert!(!centre.is_knight_pattern(coord(1, 4)));
    assert!(!centre.is_knight_pattern(centre));
}
