use vstd::prelude::*;

verus! {

/// A board coordinate: `file` counts columns left to right, `rank` counts
/// rows from the top of the board (black's back rank is rank 0).
#[derive(Clone, Copy, Debug, PartialEq, Eq, Structural)]
pub struct Square {
    pub file: u8,
    pub rank: u8,
}

impl Square {
    /// Both coordinates lie on the 8x8 board.
    pub open spec fn wf(self) -> bool {
        self.file < 8 && self.rank < 8
    }

    /// Builds a square only when both coordinates are on the board.
    pub fn new(file: u8, rank: u8) -> (r: Option<Square>)
        ensures
            file < 8 && rank < 8 ==> r == Some(Square { file, rank }),
            !(file < 8 && rank < 8) ==> r is None,
    {
        if file < 8 && rank < 8 {
            Some(Square { file, rank })
        } else {
            None
        }
    }
}

} // verus!
