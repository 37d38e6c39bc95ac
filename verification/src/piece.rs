use vstd::prelude::*;

verus! {

/// Side to which a piece belongs.
#[derive(Clone, Copy, Debug, PartialEq, Eq, Structural)]
pub enum Color {
    White,
    Black,
}

/// The six chess piece kinds.
#[derive(Clone, Copy, Debug, PartialEq, Eq, Structural)]
pub enum PieceKind {
    Pawn,
    Rook,
    Knight,
    Bishop,
    Queen,
    King,
}

/// Contents of one board cell: empty, or a piece of some color and kind.
#[derive(Clone, Copy, Debug, PartialEq, Eq, Structural)]
pub enum Piece {
    Empty,
    Occupied(Color, PieceKind),
}

impl Piece {
    /// True when the cell holds a piece of the given color.
    pub open spec fn has_color(self, c: Color) -> bool {
        match self {
            Piece::Empty => false,
            Piece::Occupied(pc, _) => pc == c,
        }
    }

    /// True when the cell holds a king of either color.
    pub open spec fn is_king(self) -> bool {
        match self {
            Piece::Empty => false,
            Piece::Occupied(_, k) => k == PieceKind::King,
        }
    }
}

/// The cell value denoted by one character of a symbol grid: lowercase
/// letters are black pieces, uppercase white, `-` an empty cell; anything
/// else is not a piece symbol.
pub open spec fn piece_of_symbol(c: char) -> Option<Piece> {
    if c == '-' {
        Some(Piece::Empty)
    } else if c == 'p' {
        Some(Piece::Occupied(Color::Black, PieceKind::Pawn))
    } else if c == 'r' {
        Some(Piece::Occupied(Color::Black, PieceKind::Rook))
    } else if c == 'n' {
        Some(Piece::Occupied(Color::Black, PieceKind::Knight))
    } else if c == 'b' {
        Some(Piece::Occupied(Color::Black, PieceKind::Bishop))
    } else if c == 'q' {
        Some(Piece::Occupied(Color::Black, PieceKind::Queen))
    } else if c == 'k' {
        Some(Piece::Occupied(Color::Black, PieceKind::King))
    } else if c == 'P' {
        Some(Piece::Occupied(Color::White, PieceKind::Pawn))
    } else if c == 'R' {
        Some(Piece::Occupied(Color::White, PieceKind::Rook))
    } else if c == 'N' {
        Some(Piece::Occupied(Color::White, PieceKind::Knight))
    } else if c == 'B' {
        Some(Piece::Occupied(Color::White, PieceKind::Bishop))
    } else if c == 'Q' {
        Some(Piece::Occupied(Color::White, PieceKind::Queen))
    } else if c == 'K' {
        Some(Piece::Occupied(Color::White, PieceKind::King))
    } else {
        None
    }
}

impl Piece {
    /// Decodes one symbol character, rejecting anything outside the
    /// twelve piece codes and `-`.
    pub fn from_symbol(c: char) -> (r: Option<Piece>)
        ensures
            r == piece_of_symbol(c),
    {
        if c == '-' {
            Some(Piece::Empty)
        } else if c == 'p' {
            Some(Piece::Occupied(Color::Black, PieceKind::Pawn))
        } else if c == 'r' {
            Some(Piece::Occupied(Color::Black, PieceKind::Rook))
        } else if c == 'n' {
            Some(Piece::Occupied(Color::Black, PieceKind::Knight))
        } else if c == 'b' {
            Some(Piece::Occupied(Color::Black, PieceKind::Bishop))
        } else if c == 'q' {
            Some(Piece::Occupied(Color::Black, PieceKind::Queen))
        } else if c == 'k' {
            Some(Piece::Occupied(Color::Black, PieceKind::King))
        } else if c == 'P' {
            Some(Piece::Occupied(Color::White, PieceKind::Pawn))
        } else if c == 'R' {
            Some(Piece::Occupied(Color::White, PieceKind::Rook))
        } else if c == 'N' {
            Some(Piece::Occupied(Color::White, PieceKind::Knight))
        } else if c == 'B' {
            Some(Piece::Occupied(Color::White, PieceKind::Bishop))
        } else if c == 'Q' {
            Some(Piece::Occupied(Color::White, PieceKind::Queen))
        } else if c == 'K' {
            Some(Piece::Occupied(Color::White, PieceKind::King))
        } else {
            None
        }
    }
}

} // verus!
