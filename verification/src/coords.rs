use vstd::prelude::*;

use crate::square::Square;

verus! {

/// Horizontal pixel position of file 0's sprite center.
pub const BASE_X: u32 = 350;

/// Vertical pixel position of rank 0's sprite center (window origin is at
/// the bottom left, so rank 0 — the top row — has the largest y).
pub const BASE_Y: u32 = 650;

/// Pixel distance between adjacent tile centers.
pub const SPACING: u32 = 83;

/// Smallest click x that can land on the board.
pub const CLICK_MIN_X: u32 = 305;

/// Smallest click y that can land on the board.
pub const CLICK_MIN_Y: u32 = 25;

/// Sprite scale, in tenths, for piece sprites.
pub const PIECE_SCALE_TENTHS: u32 = 16;

/// Sprite scale, in tenths, for destination dot markers.
pub const DOT_SCALE_TENTHS: u32 = 10;

/// Sprite scale, in tenths, for the board background texture.
pub const BOARD_SCALE_TENTHS: u32 = 13;

/// Pixel x of a square's sprite center.
pub open spec fn world_x(s: Square) -> int {
    BASE_X + s.file * SPACING
}

/// Pixel y of a square's sprite center. Rank grows downward while pixel y
/// grows upward, so rank 0 sits at `BASE_Y` and rank 7 lowest.
pub open spec fn world_y(s: Square) -> int {
    BASE_Y - s.rank * SPACING
}

/// The square a click at pixel `(x, y)` lands on, if any. Coordinates
/// below the minimum offsets, or whose tile quotient leaves the 8x8 grid,
/// land on no square. The raw y quotient counts tiles from the bottom of
/// the board, so the rank (counted from the top) is its complement.
pub open spec fn click_square(x: int, y: int) -> Option<Square> {
    if x < CLICK_MIN_X || y < CLICK_MIN_Y {
        None
    } else {
        let f = (x - CLICK_MIN_X) / (SPACING as int);
        let b = (y - CLICK_MIN_Y) / (SPACING as int);
        if f < 8 && b < 8 {
            Some(Square { file: f as u8, rank: (7 - b) as u8 })
        } else {
            None
        }
    }
}

/// Forward mapping: sprite center pixel position of a board square.
pub fn board_to_world(s: Square) -> (r: (u32, u32))
    requires
        s.wf(),
    ensures
        r.0 == world_x(s),
        r.1 == world_y(s),
{
    (BASE_X + (s.file as u32) * SPACING, BASE_Y - (s.rank as u32) * SPACING)
}

/// Inverse mapping: the board square under a click, or `None` when the
/// click misses the board. Never yields an out-of-range square.
pub fn world_to_board(x: u32, y: u32) -> (r: Option<Square>)
    ensures
        r == click_square(x as int, y as int),
        r is Some ==> r->Some_0.wf(),
        r is None <==> (x < CLICK_MIN_X || y < CLICK_MIN_Y
            || (x - CLICK_MIN_X) / (SPACING as int) >= 8
            || (y - CLICK_MIN_Y) / (SPACING as int) >= 8),
{
    if x < CLICK_MIN_X || y < CLICK_MIN_Y {
        None
    } else {
        let f: u32 = (x - CLICK_MIN_X) / SPACING;
        let b: u32 = (y - CLICK_MIN_Y) / SPACING;
        if f < 8 && b < 8 {
            Some(Square { file: f as u8, rank: 7 - (b as u8) })
        } else {
            None
        }
    }
}

/// Round trip: a click exactly on a square's sprite center lands on that
/// same square, so the forward and inverse mappings agree.
pub proof fn lemma_round_trip(s: Square)
    requires
        s.wf(),
    ensures
        click_square(world_x(s), world_y(s)) == Some(s),
{
    let f = s.file as int;
    let r = s.rank as int;
    assert(world_x(s) == 350 + f * 83);
    assert(world_y(s) == 650 - r * 83);
    if f == 0 {
        assert((350 + 0 * 83 - 305) / 83 == 0);
    } else if f == 1 {
        assert((350 + 1 * 83 - 305) / 83 == 1);
    } else if f == 2 {
        assert((350 + 2 * 83 - 305) / 83 == 2);
    } else if f == 3 {
        assert((350 + 3 * 83 - 305) / 83 == 3);
    } else if f == 4 {
        assert((350 + 4 * 83 - 305) / 83 == 4);
    } else if f == 5 {
        assert((350 + 5 * 83 - 305) / 83 == 5);
    } else if f == 6 {
        assert((350 + 6 * 83 - 305) / 83 == 6);
    } else {
        assert((350 + 7 * 83 - 305) / 83 == 7);
    }
    if r == 0 {
        assert((650 - 0 * 83 - 25) / 83 == 7);
    } else if r == 1 {
        assert((650 - 1 * 83 - 25) / 83 == 6);
    } else if r == 2 {
        assert((650 - 2 * 83 - 25) / 83 == 5);
    } else if r == 3 {
        assert((650 - 3 * 83 - 25) / 83 == 4);
    } else if r == 4 {
        assert((650 - 4 * 83 - 25) / 83 == 3);
    } else if r == 5 {
        assert((650 - 5 * 83 - 25) / 83 == 2);
    } else if r == 6 {
        assert((650 - 6 * 83 - 25) / 83 == 1);
    } else {
        assert((650 - 7 * 83 - 25) / 83 == 0);
    }
}

} // verus!
