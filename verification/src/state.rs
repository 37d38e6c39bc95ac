use vstd::prelude::*;

use crate::board::{initial_board, BoardMatrix};
use crate::selection::{moves_from_engine, squares_from_engine, SelectionState};

verus! {

/// One board's whole visual state: the piece matrix and the transient
/// highlight. The rule engine that answers legal-move queries is an
/// outside collaborator; its replies reach this state through
/// `apply_engine_reply` as plain coordinate pairs.
pub struct Board {
    pub matrix: BoardMatrix,
    pub selection: SelectionState,
}

impl Board {
    pub open spec fn wf(self) -> bool {
        self.matrix.wf() && self.selection.wf()
    }

    /// A fresh board: the fixed standard starting layout, nothing
    /// highlighted.
    pub fn new() -> (r: Board)
        ensures
            r.wf(),
            r.matrix@ == initial_board(),
            r.selection is Idle,
    {
        Board { matrix: BoardMatrix::initial(), selection: SelectionState::new_idle() }
    }

    /// Applies the rule engine's reply to a click that landed on the
    /// board: the highlight is replaced wholesale by the reply's
    /// destinations — never merged with the previous highlight — and an
    /// empty reply clears it to `Idle`. The piece matrix is untouched.
    pub fn apply_engine_reply(&mut self, raw: Vec<(u8, u8)>)
        requires
            old(self).wf(),
        ensures
            final(self).wf(),
            final(self).matrix == old(self).matrix,
            final(self).selection.dests() == squares_from_engine(raw@),
            squares_from_engine(raw@).len() == 0 ==> final(self).selection is Idle,
            squares_from_engine(raw@).len() > 0 ==> final(self).selection is Showing,
    {
        let moves = moves_from_engine(&raw);
        self.selection.update_from_moves(moves);
    }
}

} // verus!
