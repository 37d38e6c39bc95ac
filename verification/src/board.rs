use vstd::prelude::*;

use crate::piece::{piece_of_symbol, Color, Piece, PieceKind};

verus! {

/// The two failures a board operation can report: an index off the 8x8
/// grid, and a symbol grid cell outside the twelve piece codes and `-`.
#[derive(Clone, Copy, Debug, PartialEq, Eq, Structural)]
pub enum BoardError {
    OutOfBounds,
    UnknownPieceSymbol,
}

/// The 8x8 grid of cell contents, the sole source of truth for what piece
/// stands where. Rank 0 is black's back rank (the top row on screen),
/// rank 7 white's.
pub struct BoardMatrix {
    pub cells: Vec<Vec<Piece>>,
}

impl View for BoardMatrix {
    type V = Seq<Seq<Piece>>;

    open spec fn view(&self) -> Seq<Seq<Piece>> {
        self.cells@.map_values(|row: Vec<Piece>| row@)
    }
}

/// The piece kind standing on a back rank at the given file.
pub open spec fn back_rank_kind(file: int) -> PieceKind {
    if file == 0 || file == 7 {
        PieceKind::Rook
    } else if file == 1 || file == 6 {
        PieceKind::Knight
    } else if file == 2 || file == 5 {
        PieceKind::Bishop
    } else if file == 3 {
        PieceKind::Queen
    } else {
        PieceKind::King
    }
}

/// Cell contents of the standard starting layout at (rank, file).
pub open spec fn initial_piece(rank: int, file: int) -> Piece {
    if rank == 0 {
        Piece::Occupied(Color::Black, back_rank_kind(file))
    } else if rank == 1 {
        Piece::Occupied(Color::Black, PieceKind::Pawn)
    } else if rank == 6 {
        Piece::Occupied(Color::White, PieceKind::Pawn)
    } else if rank == 7 {
        Piece::Occupied(Color::White, back_rank_kind(file))
    } else {
        Piece::Empty
    }
}

/// The standard starting layout as a grid of cell contents.
pub open spec fn initial_board() -> Seq<Seq<Piece>> {
    Seq::new(8, |rank: int| Seq::new(8, |file: int| initial_piece(rank, file)))
}

/// Number of pieces of color `c` among the first `upto` cells of a row.
pub open spec fn color_count_row(row: Seq<Piece>, c: Color, upto: int) -> int
    decreases upto,
{
    if upto <= 0 {
        0
    } else {
        color_count_row(row, c, upto - 1) + if row[upto - 1].has_color(c) {
            1int
        } else {
            0int
        }
    }
}

/// Number of pieces of color `c` in the first `upto` ranks of a board.
pub open spec fn color_count_upto(b: Seq<Seq<Piece>>, c: Color, upto: int) -> int
    decreases upto,
{
    if upto <= 0 {
        0
    } else {
        color_count_upto(b, c, upto - 1) + color_count_row(b[upto - 1], c, 8)
    }
}

/// Number of pieces of color `c` on the whole board.
pub open spec fn color_count(b: Seq<Seq<Piece>>, c: Color) -> int {
    color_count_upto(b, c, b.len() as int)
}

fn back_rank_row(c: Color) -> (r: Vec<Piece>)
    ensures
        r@.len() == 8,
        forall|f: int| 0 <= f < 8 ==> r@[f] == Piece::Occupied(c, back_rank_kind(f)),
{
    let mut v: Vec<Piece> = Vec::new();
    v.push(Piece::Occupied(c, PieceKind::Rook));
    v.push(Piece::Occupied(c, PieceKind::Knight));
    v.push(Piece::Occupied(c, PieceKind::Bishop));
    v.push(Piece::Occupied(c, PieceKind::Queen));
    v.push(Piece::Occupied(c, PieceKind::King));
    v.push(Piece::Occupied(c, PieceKind::Bishop));
    v.push(Piece::Occupied(c, PieceKind::Knight));
    v.push(Piece::Occupied(c, PieceKind::Rook));
    v
}

fn uniform_row(p: Piece) -> (r: Vec<Piece>)
    ensures
        r@.len() == 8,
        forall|f: int| 0 <= f < 8 ==> r@[f] == p,
{
    let mut v: Vec<Piece> = Vec::new();
    let mut i: usize = 0;
    while i < 8
        invariant
            i <= 8,
            v@.len() == i,
            forall|f: int| 0 <= f < i ==> v@[f] == p,
        decreases 8 - i,
    {
        v.push(p);
        i = i + 1;
    }
    v
}

impl BoardMatrix {
    /// The grid is exactly 8 ranks of 8 files.
    pub open spec fn wf(self) -> bool {
        self@.len() == 8 && forall|r: int| 0 <= r < 8 ==> (#[trigger] self@[r]).len() == 8
    }

    /// Cell contents at (rank, file).
    pub open spec fn at(self, rank: int, file: int) -> Piece {
        self@[rank][file]
    }

    /// Builds the fixed standard starting layout.
    pub fn initial() -> (b: BoardMatrix)
        ensures
            b.wf(),
            b@ == initial_board(),
    {
        let mut cells: Vec<Vec<Piece>> = Vec::new();
        cells.push(back_rank_row(Color::Black));
        cells.push(uniform_row(Piece::Occupied(Color::Black, PieceKind::Pawn)));
        cells.push(uniform_row(Piece::Empty));
        cells.push(uniform_row(Piece::Empty));
        cells.push(uniform_row(Piece::Empty));
        cells.push(uniform_row(Piece::Empty));
        cells.push(uniform_row(Piece::Occupied(Color::White, PieceKind::Pawn)));
        cells.push(back_rank_row(Color::White));
        let b = BoardMatrix { cells };
        proof {
            assert forall|r: int, f: int| 0 <= r < 8 && 0 <= f < 8 implies b@[r][f]
                == initial_piece(r, f) by {
                assert(b@[r] == b.cells@[r]@);
            }
            assert forall|r: int| 0 <= r < 8 implies (#[trigger] b@[r]) =~= initial_board()[r] by {
                assert(b@[r] == b.cells@[r]@);
            }
            assert(b@ =~= initial_board());
        }
        b
    }

    /// Looks a cell up, reporting `OutOfBounds` for indices off the grid.
    /// Callers that iterate the fixed 8x8 range never see the error.
    pub fn piece_at(&self, rank: usize, file: usize) -> (r: Result<Piece, BoardError>)
        requires
            self.wf(),
        ensures
            rank < 8 && file < 8 ==> r == Ok::<Piece, BoardError>(self.at(rank as int, file as int)),
            !(rank < 8 && file < 8) ==> r == Err::<Piece, BoardError>(BoardError::OutOfBounds),
    {
        if rank < 8 && file < 8 {
            Ok(self.cells[rank][file])
        } else {
            Err(BoardError::OutOfBounds)
        }
    }

    /// Cell lookup for callers that already know the indices are on the grid.
    pub fn piece_in_range(&self, rank: usize, file: usize) -> (p: Piece)
        requires
            self.wf(),
            rank < 8,
            file < 8,
        ensures
            p == self.at(rank as int, file as int),
    {
        self.cells[rank][file]
    }

    /// Decodes an 8x8 symbol grid, failing fast on the first cell that is
    /// not one of the twelve piece codes or `-`.
    pub fn from_symbols(rows: &[[char; 8]; 8]) -> (r: Result<BoardMatrix, BoardError>)
        ensures
            (forall|rk: int, f: int| 0 <= rk < 8 && 0 <= f < 8
                ==> (#[trigger] piece_of_symbol(rows@[rk]@[f])) is Some) ==> {
                &&& r is Ok
                &&& r->Ok_0.wf()
                &&& forall|rk: int, f: int| 0 <= rk < 8 && 0 <= f < 8
                    ==> r->Ok_0.at(rk, f) == piece_of_symbol(rows@[rk]@[f])->Some_0
            },
            !(forall|rk: int, f: int| 0 <= rk < 8 && 0 <= f < 8
                ==> (#[trigger] piece_of_symbol(rows@[rk]@[f])) is Some)
                ==> r == Err::<BoardMatrix, BoardError>(BoardError::UnknownPieceSymbol),
    {
        let mut cells: Vec<Vec<Piece>> = Vec::new();
        let mut rk: usize = 0;
        while rk < 8
            invariant
                rk <= 8,
                cells@.len() == rk,
                forall|i: int| 0 <= i < rk ==> (#[trigger] cells@[i])@.len() == 8,
                forall|i: int, j: int| 0 <= i < rk && 0 <= j < 8
                    ==> piece_of_symbol(rows@[i]@[j]) == Some(cells@[i]@[j]),
            decreases 8 - rk,
        {
            let mut row: Vec<Piece> = Vec::new();
            let mut f: usize = 0;
            while f < 8
                invariant
                    rk < 8,
                    f <= 8,
                    row@.len() == f,
                    forall|j: int| 0 <= j < f
                        ==> piece_of_symbol(rows@[rk as int]@[j]) == Some(row@[j]),
                decreases 8 - f,
            {
                match Piece::from_symbol(rows[rk][f]) {
                    Some(p) => row.push(p),
                    None => {
                        return Err(BoardError::UnknownPieceSymbol);
                    },
                }
                f = f + 1;
            }
            cells.push(row);
            rk = rk + 1;
        }
        let b = BoardMatrix { cells };
        proof {
            assert forall|i: int| 0 <= i < 8 implies (#[trigger] b@[i]).len() == 8 by {
                assert(b@[i] == b.cells@[i]@);
            }
            assert forall|i: int, j: int| 0 <= i < 8 && 0 <= j < 8 implies piece_of_symbol(
                rows@[i]@[j],
            ) == Some(b.at(i, j)) by {
                assert(b@[i] == b.cells@[i]@);
            }
        }
        Ok(b)
    }
}

/// The starting layout has sixteen pieces of each color, kings exactly at
/// file 4 of ranks 0 and 7, and nothing on ranks 2 through 5.
pub proof fn lemma_initial_layout()
    ensures
        color_count(initial_board(), Color::White) == 16,
        color_count(initial_board(), Color::Black) == 16,
        initial_board()[0][4] == Piece::Occupied(Color::Black, PieceKind::King),
        initial_board()[7][4] == Piece::Occupied(Color::White, PieceKind::King),
        forall|r: int, f: int| 2 <= r < 6 && 0 <= f < 8
            ==> #[trigger] initial_board()[r][f] == Piece::Empty,
        forall|r: int, f: int| 0 <= r < 8 && 0 <= f < 8
            && (#[trigger] initial_board()[r][f]).is_king() ==> (r == 0 || r == 7) && f == 4,
{
    let b = initial_board();
    reveal_with_fuel(color_count_row, 9);
    reveal_with_fuel(color_count_upto, 9);
    assert forall|r: int, f: int| 0 <= r < 8 && 0 <= f < 8 implies #[trigger] b[r][f]
        == initial_piece(r, f) by {
    }
    assert(color_count_row(b[0], Color::Black, 8) == 8);
    assert(color_count_row(b[1], Color::Black, 8) == 8);
    assert(color_count_row(b[2], Color::Black, 8) == 0);
    assert(color_count_row(b[3], Color::Black, 8) == 0);
    assert(color_count_row(b[4], Color::Black, 8) == 0);
    assert(color_count_row(b[5], Color::Black, 8) == 0);
    assert(color_count_row(b[6], Color::Black, 8) == 0);
    assert(color_count_row(b[7], Color::Black, 8) == 0);
    assert(color_count_row(b[0], Color::White, 8) == 0);
    assert(color_count_row(b[1], Color::White, 8) == 0);
    assert(color_count_row(b[2], Color::White, 8) == 0);
    assert(color_count_row(b[3], Color::White, 8) == 0);
    assert(color_count_row(b[4], Color::White, 8) == 0);
    assert(color_count_row(b[5], Color::White, 8) == 0);
    assert(color_count_row(b[6], Color::White, 8) == 8);
    assert(color_count_row(b[7], Color::White, 8) == 8);
    assert(color_count(b, Color::Black) == 16);
    assert(color_count(b, Color::White) == 16);
}

} // verus!
