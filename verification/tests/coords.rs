use chessboard::coords::{board_to_world, world_to_board};
use chessboard::square::Square;

#[test]
fn round_trip_all_squares() {
    for file in 0u8..8 {
        for rank in 0u8..8 {
            let s = Square { file, rank };
            let (x, y) = board_to_world(s);
            assert_eq!(world_to_board(x, y), Some(s));
        }
    }
}

#[test]
fn exact_forward_mapping() {
    assert_eq!(board_to_world(Square { file: 0, rank: 0 }), (350, 650));
    assert_eq!(board_to_world(Square { file: 7, rank: 0 }), (931, 650));
    assert_eq!(board_to_world(Square { file: 0, rank: 7 }), (350, 69));
    assert_eq!(board_to_world(Square { file: 3, rank: 2 }), (599, 484));
}

#[test]
fn exact_inverse_mapping() {
    assert_eq!(world_to_board(350, 650), Some(Square { file: 0, rank: 0 }));
    assert_eq!(world_to_board(931, 69), Some(Square { file: 7, rank: 7 }));
    // Anywhere in a tile maps to that tile: the bottom-left tile spans
    // from the minimum offsets.
    assert_eq!(world_to_board(305, 25), Some(Square { file: 0, rank: 7 }));
    assert_eq!(world_to_board(387, 107), Some(Square { file: 0, rank: 7 }));
    assert_eq!(world_to_board(388, 108), Some(Square { file: 1, rank: 6 }));
}

#[test]
fn click_below_minimum_offsets_is_no_square() {
    assert_eq!(world_to_board(0, 0), None);
    assert_eq!(world_to_board(304, 650), None);
    assert_eq!(world_to_board(350, 24), None);
    assert_eq!(world_to_board(304, 24), None);
}

#[test]
fn click_past_the_board_is_no_square() {
    // File quotient 8 begins at x = 305 + 8 * 83.
    assert_eq!(world_to_board(969, 650), None);
    // Rank quotient 8 begins at y = 25 + 8 * 83.
    assert_eq!(world_to_board(350, 689), None);
    assert_eq!(world_to_board(u32::MAX, u32::MAX), None);
}

#[test]
fn last_pixel_inside_the_board_maps() {
    assert_eq!(world_to_board(968, 688), Some(Square { file: 7, rank: 0 }));
}

#[test]
fn square_new_validates_range() {
    assert_eq!(Square::new(4, 6), Some(Square { file: 4, rank: 6 }));
    assert_eq!(Square::new(8, 0), None);
    assert_eq!(Square::new(0, 8), None);
    assert_eq!(Square::new(255, 255), None);
}
