//! An interactive chessboard view: an 8x8 piece matrix, pixel/board
//! coordinate mapping for sprite placement and clicks, a transient
//! legal-move highlight replaced on every click, and a per-frame render
//! pass that re-emits the board's draw commands from scratch. Move
//! legality itself belongs to an outside rule engine whose replies enter
//! as plain coordinate pairs.

pub mod board;
pub mod coords;
pub mod piece;
pub mod render;
pub mod selection;
pub mod square;
pub mod state;
