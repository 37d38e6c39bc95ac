use chessboard::board::{BoardError, BoardMatrix};
use chessboard::piece::{Color, Piece, PieceKind};

fn starting_symbols() -> [[char; 8]; 8] {
    [
        ['r', 'n', 'b', 'q', 'k', 'b', 'n', 'r'],
        ['p', 'p', 'p', 'p', 'p', 'p', 'p', 'p'],
        ['-', '-', '-', '-', '-', '-', '-', '-'],
        ['-', '-', '-', '-', '-', '-', '-', '-'],
        ['-', '-', '-', '-', '-', '-', '-', '-'],
        ['-', '-', '-', '-', '-', '-', '-', '-'],
        ['P', 'P', 'P', 'P', 'P', 'P', 'P', 'P'],
        ['R', 'N', 'B', 'Q', 'K', 'B', 'N', 'R'],
    ]
}

#[test]
fn initial_has_sixteen_pieces_of_each_color() {
    let b = BoardMatrix::initial();
    let mut white = 0;
    let mut black = 0;
    for rank in 0..8 {
        for file in 0..8 {
            match b.piece_at(rank, file).unwrap() {
                Piece::Occupied(Color::White, _) => white += 1,
                Piece::Occupied(Color::Black, _) => black += 1,
                Piece::Empty => {}
            }
        }
    }
    assert_eq!(white, 16);
    assert_eq!(black, 16);
}

#[test]
fn initial_kings_stand_at_file_four() {
    let b = BoardMatrix::initial();
    assert_eq!(
        b.piece_at(0, 4),
        Ok(Piece::Occupied(Color::Black, PieceKind::King))
    );
    assert_eq!(
        b.piece_at(7, 4),
        Ok(Piece::Occupied(Color::White, PieceKind::King))
    );
    for rank in 0..8 {
        for file in 0..8 {
            let is_king = matches!(
                b.piece_at(rank, file).unwrap(),
                Piece::Occupied(_, PieceKind::King)
            );
            assert_eq!(is_king, (rank == 0 || rank == 7) && file == 4);
        }
    }
}

#[test]
fn initial_middle_ranks_are_empty() {
    let b = BoardMatrix::initial();
    for rank in 2..6 {
        for file in 0..8 {
            assert_eq!(b.piece_at(rank, file), Ok(Piece::Empty));
        }
    }
}

#[test]
fn piece_at_rejects_out_of_range_indices() {
    let b = BoardMatrix::initial();
    assert_eq!(b.piece_at(8, 0), Err(BoardError::OutOfBounds));
    assert_eq!(b.piece_at(0, 8), Err(BoardError::OutOfBounds));
    assert_eq!(b.piece_at(100, 100), Err(BoardError::OutOfBounds));
}

#[test]
fn from_symbols_decodes_the_starting_grid() {
    let decoded = BoardMatrix::from_symbols(&starting_symbols()).unwrap();
    let built = BoardMatrix::initial();
    for rank in 0..8 {
        for file in 0..8 {
            assert_eq!(decoded.piece_at(rank, file), built.piece_at(rank, file));
        }
    }
}

#[test]
fn from_symbols_rejects_an_unknown_symbol() {
    let mut grid = starting_symbols();
    grid[3][5] = 'x';
    match BoardMatrix::from_symbols(&grid) {
        Err(e) => assert_eq!(e, BoardError::UnknownPieceSymbol),
        Ok(_) => panic!("an unknown symbol must be rejected"),
    }
}

#[test]
fn from_symbol_covers_the_twelve_codes_and_empty() {
    assert_eq!(Piece::from_symbol('-'), Some(Piece::Empty));
    assert_eq!(
        Piece::from_symbol('k'),
        Some(Piece::Occupied(Color::Black, PieceKind::King))
    );
    assert_eq!(
        Piece::from_symbol('Q'),
        Some(Piece::Occupied(Color::White, PieceKind::Queen))
    );
    assert_eq!(
        Piece::from_symbol('n'),
        Some(Piece::Occupied(Color::Black, PieceKind::Knight))
    );
    assert_eq!(
        Piece::from_symbol('P'),
        Some(Piece::Occupied(Color::White, PieceKind::Pawn))
    );
    assert_eq!(Piece::from_symbol('x'), None);
    assert_eq!(Piece::from_symbol(' '), None);
    assert_eq!(Piece::from_symbol('K'), Some(Piece::Occupied(Color::White, PieceKind::King)));
}
