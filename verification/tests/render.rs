use chessboard::board::BoardMatrix;
use chessboard::coords::board_to_world;
use chessboard::piece::{Color, PieceKind};
use chessboard::render::{redraw, render_pass, DrawCommand, Texture};
use chessboard::selection::SelectionState;
use chessboard::square::Square;

#[test]
fn idle_initial_board_draws_exactly_the_pieces() {
    let board = BoardMatrix::initial();
    let sel = SelectionState::new_idle();
    let cmds = render_pass(&board, &sel);
    assert_eq!(cmds.len(), 32);
    assert!(cmds.iter().all(|c| c.scale_tenths == 16));
    assert!(cmds
        .iter()
        .all(|c| matches!(c.texture, Texture::Piece(_, _))));
}

#[test]
fn highlighted_occupied_square_draws_the_dot_not_the_piece() {
    // White pawn at (file 4, rank 6); that same square highlighted.
    let board = BoardMatrix::initial();
    let sq = Square { file: 4, rank: 6 };
    let mut sel = SelectionState::new_idle();
    sel.update_from_moves(vec![sq]);
    let cmds = render_pass(&board, &sel);
    let (x, y) = board_to_world(sq);
    let at_square: Vec<&DrawCommand> =
        cmds.iter().filter(|c| c.x == x && c.y == y).collect();
    assert_eq!(at_square.len(), 1);
    assert_eq!(at_square[0].texture, Texture::Dot);
    assert_eq!(at_square[0].scale_tenths, 10);
    // One piece sprite hidden behind the dot: 31 pieces + 1 dot.
    assert_eq!(cmds.len(), 32);
    assert_eq!(
        cmds.iter()
            .filter(|c| matches!(c.texture, Texture::Piece(_, _)))
            .count(),
        31
    );
}

#[test]
fn highlighted_empty_square_draws_one_extra_dot() {
    let board = BoardMatrix::initial();
    let mut sel = SelectionState::new_idle();
    sel.update_from_moves(vec![Square { file: 4, rank: 4 }]);
    let cmds = render_pass(&board, &sel);
    assert_eq!(cmds.len(), 33);
    assert_eq!(
        cmds.iter().filter(|c| c.texture == Texture::Dot).count(),
        1
    );
}

#[test]
fn second_pass_sweeps_the_first_pass_clean() {
    let board = BoardMatrix::initial();
    let mut first = SelectionState::new_idle();
    first.update_from_moves(vec![
        Square { file: 4, rank: 4 },
        Square { file: 4, rank: 5 },
    ]);
    let mut second = SelectionState::new_idle();
    second.update_from_moves(vec![Square { file: 0, rank: 2 }]);

    let mut scene: Vec<DrawCommand> = Vec::new();
    redraw(&mut scene, &board, &first);
    assert_eq!(scene.len(), 34);
    redraw(&mut scene, &board, &second);
    // Nothing of the first pass is left: the scene is exactly what the
    // second board-and-selection combination implies on its own.
    assert_eq!(scene, render_pass(&board, &second));
    assert_eq!(scene.len(), 33);
}

#[test]
fn piece_sprites_use_the_piece_texture_and_position() {
    let board = BoardMatrix::initial();
    let sel = SelectionState::new_idle();
    let cmds = render_pass(&board, &sel);
    // Row-major order: the first command is black's rook at rank 0, file 0.
    assert_eq!(
        cmds[0],
        DrawCommand {
            texture: Texture::Piece(Color::Black, PieceKind::Rook),
            x: 350,
            y: 650,
            scale_tenths: 16,
        }
    );
    // The last is white's rook at rank 7, file 7.
    assert_eq!(
        cmds[31],
        DrawCommand {
            texture: Texture::Piece(Color::White, PieceKind::Rook),
            x: 931,
            y: 69,
            scale_tenths: 16,
        }
    );
}

#[test]
fn texture_paths_are_the_fixed_asset_paths() {
    assert_eq!(Texture::Board.path(), "Board.png");
    assert_eq!(Texture::Dot.path(), "Dot.png");
    assert_eq!(
        Texture::Piece(Color::White, PieceKind::Pawn).path(),
        "pieces/white/pawn.png"
    );
    assert_eq!(
        Texture::Piece(Color::Black, PieceKind::Knight).path(),
        "pieces/black/knight.png"
    );
    assert_eq!(
        Texture::Piece(Color::Black, PieceKind::Queen).path(),
        "pieces/black/queen.png"
    );
}
