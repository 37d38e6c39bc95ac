use vstd::prelude::*;

use crate::board::BoardMatrix;
use crate::coords::{board_to_world, world_x, world_y, DOT_SCALE_TENTHS, PIECE_SCALE_TENTHS};
use crate::piece::{Color, Piece, PieceKind};
use crate::selection::SelectionState;
use crate::square::Square;

verus! {

/// A drawable asset: the board background, the destination dot marker,
/// or one piece sprite per color and kind.
#[derive(Clone, Copy, Debug, PartialEq, Eq, Structural)]
pub enum Texture {
    Board,
    Dot,
    Piece(Color, PieceKind),
}

impl Texture {
    /// The fixed asset path of this texture.
    pub open spec fn path_spec(self) -> Seq<char> {
        match self {
            Texture::Board => "Board.png"@,
            Texture::Dot => "Dot.png"@,
            Texture::Piece(c, k) => match c {
                Color::White => match k {
                    PieceKind::Pawn => "pieces/white/pawn.png"@,
                    PieceKind::Rook => "pieces/white/rook.png"@,
                    PieceKind::Knight => "pieces/white/knight.png"@,
                    PieceKind::Bishop => "pieces/white/bishop.png"@,
                    PieceKind::Queen => "pieces/white/queen.png"@,
                    PieceKind::King => "pieces/white/king.png"@,
                },
                Color::Black => match k {
                    PieceKind::Pawn => "pieces/black/pawn.png"@,
                    PieceKind::Rook => "pieces/black/rook.png"@,
                    PieceKind::Knight => "pieces/black/knight.png"@,
                    PieceKind::Bishop => "pieces/black/bishop.png"@,
                    PieceKind::Queen => "pieces/black/queen.png"@,
                    PieceKind::King => "pieces/black/king.png"@,
                },
            },
        }
    }

    /// The fixed asset path of this texture.
    pub fn path(self) -> (r: &'static str)
        ensures
            r@ == self.path_spec(),
    {
        match self {
            Texture::Board => "Board.png",
            Texture::Dot => "Dot.png",
            Texture::Piece(c, k) => match c {
                Color::White => match k {
                    PieceKind::Pawn => "pieces/white/pawn.png",
                    PieceKind::Rook => "pieces/white/rook.png",
                    PieceKind::Knight => "pieces/white/knight.png",
                    PieceKind::Bishop => "pieces/white/bishop.png",
                    PieceKind::Queen => "pieces/white/queen.png",
                    PieceKind::King => "pieces/white/king.png",
                },
                Color::Black => match k {
                    PieceKind::Pawn => "pieces/black/pawn.png",
                    PieceKind::Rook => "pieces/black/rook.png",
                    PieceKind::Knight => "pieces/black/knight.png",
                    PieceKind::Bishop => "pieces/black/bishop.png",
                    PieceKind::Queen => "pieces/black/queen.png",
                    PieceKind::King => "pieces/black/king.png",
                },
            },
        }
    }
}

/// One draw emitted to the display surface: a texture placed at a pixel
/// position with a uniform scale given in tenths.
#[derive(Clone, Copy, Debug, PartialEq, Eq, Structural)]
pub struct DrawCommand {
    pub texture: Texture,
    pub x: u32,
    pub y: u32,
    pub scale_tenths: u32,
}

/// What one square contributes to a render pass: a highlighted square
/// shows the dot marker (even over a piece), an occupied unhighlighted
/// square its piece sprite, an empty unhighlighted square nothing.
pub open spec fn cell_command(
    b: Seq<Seq<Piece>>,
    dests: Seq<Square>,
    rank: int,
    file: int,
) -> Option<DrawCommand> {
    let s = Square { file: file as u8, rank: rank as u8 };
    if dests.contains(s) {
        Some(
            DrawCommand {
                texture: Texture::Dot,
                x: world_x(s) as u32,
                y: world_y(s) as u32,
                scale_tenths: DOT_SCALE_TENTHS,
            },
        )
    } else {
        match b[rank][file] {
            Piece::Empty => None,
            Piece::Occupied(c, k) => Some(
                DrawCommand {
                    texture: Texture::Piece(c, k),
                    x: world_x(s) as u32,
                    y: world_y(s) as u32,
                    scale_tenths: PIECE_SCALE_TENTHS,
                },
            ),
        }
    }
}

/// The draw commands of the first `n` cells in row-major (rank, file)
/// order, cell `i` being (rank `i / 8`, file `i % 8`).
pub open spec fn commands_upto(
    b: Seq<Seq<Piece>>,
    dests: Seq<Square>,
    n: int,
) -> Seq<DrawCommand>
    decreases n,
{
    if n <= 0 {
        Seq::empty()
    } else {
        commands_upto(b, dests, n - 1) + match cell_command(b, dests, (n - 1) / 8, (n - 1) % 8) {
            Some(c) => seq![c],
            None => Seq::empty(),
        }
    }
}

/// Everything one full render pass draws, in row-major square order.
pub open spec fn render_commands(b: Seq<Seq<Piece>>, dests: Seq<Square>) -> Seq<DrawCommand> {
    commands_upto(b, dests, 64)
}

/// One render pass: walks the full grid in row-major order and emits one
/// draw per occupied or highlighted square, the dot marker taking
/// precedence over any piece on the same square.
pub fn render_pass(board: &BoardMatrix, sel: &SelectionState) -> (r: Vec<DrawCommand>)
    requires
        board.wf(),
        sel.wf(),
    ensures
        r@ == render_commands(board@, sel.dests()),
{
    let mut out: Vec<DrawCommand> = Vec::new();
    let mut rank: usize = 0;
    while rank < 8
        invariant
            board.wf(),
            sel.wf(),
            rank <= 8,
            out@ == commands_upto(board@, sel.dests(), 8 * rank),
        decreases 8 - rank,
    {
        let mut file: usize = 0;
        while file < 8
            invariant
                board.wf(),
                sel.wf(),
                rank < 8,
                file <= 8,
                out@ == commands_upto(board@, sel.dests(), 8 * rank + file),
            decreases 8 - file,
        {
            let s = Square { file: file as u8, rank: rank as u8 };
            let pos = board_to_world(s);
            if sel.is_highlighted(s) {
                out.push(
                    DrawCommand {
                        texture: Texture::Dot,
                        x: pos.0,
                        y: pos.1,
                        scale_tenths: DOT_SCALE_TENTHS,
                    },
                );
            } else {
                match board.piece_in_range(rank, file) {
                    Piece::Empty => {},
                    Piece::Occupied(c, k) => {
                        out.push(
                            DrawCommand {
                                texture: Texture::Piece(c, k),
                                x: pos.0,
                                y: pos.1,
                                scale_tenths: PIECE_SCALE_TENTHS,
                            },
                        );
                    },
                }
            }
            proof {
                let n = 8 * rank as int + file as int;
                vstd::arithmetic::div_mod::lemma_fundamental_div_mod_converse(
                    n,
                    8,
                    rank as int,
                    file as int,
                );
                assert(n / 8 == rank as int && n % 8 == file as int);
                if cell_command(board@, sel.dests(), rank as int, file as int) is None {
                    assert(out@ =~= commands_upto(board@, sel.dests(), n) + Seq::empty());
                }
                assert(out@ == commands_upto(board@, sel.dests(), n + 1));
            }
            file = file + 1;
        }
        rank = rank + 1;
    }
    out
}

/// One full redraw of the transient layer: sweeps every visual the
/// previous pass left in the scene, then re-emits from the board and
/// selection alone. The final scene is a function of the current board
/// and selection only, whatever the scene held before, so repeated
/// passes never accumulate stale sprites.
pub fn redraw(scene: &mut Vec<DrawCommand>, board: &BoardMatrix, sel: &SelectionState)
    requires
        board.wf(),
        sel.wf(),
    ensures
        final(scene)@ == render_commands(board@, sel.dests()),
{
    scene.clear();
    let mut fresh = render_pass(board, sel);
    scene.append(&mut fresh);
    proof {
        assert(scene@ =~= render_commands(board@, sel.dests()));
    }
}

/// Render precedence: a square that both holds a piece and is a
/// highlighted destination is drawn as the dot marker, never as its
/// piece sprite.
pub proof fn lemma_render_precedence(b: Seq<Seq<Piece>>, dests: Seq<Square>, s: Square)
    requires
        s.wf(),
        b[s.rank as int][s.file as int] !== Piece::Empty,
        dests.contains(s),
    ensures
        cell_command(b, dests, s.rank as int, s.file as int) == Some(
            DrawCommand {
                texture: Texture::Dot,
                x: world_x(s) as u32,
                y: world_y(s) as u32,
                scale_tenths: DOT_SCALE_TENTHS,
            },
        ),
{
    assert(Square { file: s.file as int as u8, rank: s.rank as int as u8 } == s);
}

} // verus!
