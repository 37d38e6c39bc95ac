use vstd::prelude::*;

use crate::square::Square;

verus! {

/// The transient highlight: either nothing is highlighted, or the
/// destinations returned by the rule engine for the last useful click.
#[derive(Clone, Debug)]
pub enum SelectionState {
    Idle,
    Showing(Vec<Square>),
}

/// The board square denoted by one engine reply entry `(x, y)`: `x` is
/// the file, `y` counts ranks from white's side, the complement of this
/// crate's top-down rank. An entry off the 8x8 grid denotes no square.
pub open spec fn engine_square(p: (u8, u8)) -> Option<Square> {
    if p.0 < 8 && p.1 < 8 {
        Some(Square { file: p.0, rank: (7 - p.1) as u8 })
    } else {
        None
    }
}

/// The squares denoted by an engine reply, in reply order, entries off
/// the grid dropped.
pub open spec fn squares_from_engine(raw: Seq<(u8, u8)>) -> Seq<Square>
    decreases raw.len(),
{
    if raw.len() == 0 {
        Seq::empty()
    } else {
        squares_from_engine(raw.drop_last()) + match engine_square(raw.last()) {
            Some(s) => seq![s],
            None => Seq::empty(),
        }
    }
}

/// Converts an engine reply to board squares, in order, dropping entries
/// off the grid.
pub fn moves_from_engine(raw: &Vec<(u8, u8)>) -> (r: Vec<Square>)
    ensures
        r@ == squares_from_engine(raw@),
        forall|i: int| 0 <= i < r@.len() ==> (#[trigger] r@[i]).wf(),
{
    let mut out: Vec<Square> = Vec::new();
    let mut i: usize = 0;
    while i < raw.len()
        invariant
            i <= raw.len(),
            out@ == squares_from_engine(raw@.subrange(0, i as int)),
            forall|j: int| 0 <= j < out@.len() ==> (#[trigger] out@[j]).wf(),
        decreases raw.len() - i,
    {
        let (x, y) = raw[i];
        if x < 8 && y < 8 {
            out.push(Square { file: x, rank: 7 - y });
        }
        proof {
            let pre = raw@.subrange(0, i as int);
            let post = raw@.subrange(0, i as int + 1);
            assert(post.drop_last() =~= pre);
            assert(post.last() == raw@[i as int]);
        }
        i = i + 1;
    }
    proof {
        assert(raw@.subrange(0, raw@.len() as int) =~= raw@);
    }
    out
}

/// The engine-side coordinates of a board square: the file unchanged,
/// the rank counted from white's side instead of from the top.
pub fn engine_coords(s: Square) -> (r: (u8, u8))
    requires
        s.wf(),
    ensures
        r.0 == s.file,
        r.1 == 7 - s.rank,
        engine_square(r) == Some(s),
{
    (s.file, 7 - s.rank)
}

impl SelectionState {
    /// A highlight is never empty: an empty engine reply leaves `Idle`,
    /// and every highlighted destination lies on the board.
    pub open spec fn wf(self) -> bool {
        match self {
            SelectionState::Idle => true,
            SelectionState::Showing(v) => v@.len() > 0 && forall|i: int|
                0 <= i < v@.len() ==> (#[trigger] v@[i]).wf(),
        }
    }

    /// The highlighted destinations, in engine reply order; empty when idle.
    pub open spec fn dests(self) -> Seq<Square> {
        match self {
            SelectionState::Idle => Seq::empty(),
            SelectionState::Showing(v) => v@,
        }
    }

    /// True when the square is a highlighted destination.
    pub open spec fn highlights(self, s: Square) -> bool {
        self.dests().contains(s)
    }

    /// No selection.
    pub fn new_idle() -> (r: SelectionState)
        ensures
            r is Idle,
            r.wf(),
    {
        SelectionState::Idle
    }

    /// True when the state is `Idle`.
    pub fn is_idle(&self) -> (r: bool)
        ensures
            r == (*self is Idle),
    {
        match self {
            SelectionState::Idle => true,
            SelectionState::Showing(_) => false,
        }
    }

    /// How many destinations are highlighted.
    pub fn destination_count(&self) -> (r: usize)
        ensures
            r == self.dests().len(),
    {
        match self {
            SelectionState::Idle => 0,
            SelectionState::Showing(v) => v.len(),
        }
    }

    /// The `i`th highlighted destination, if there is one.
    pub fn destination_at(&self, i: usize) -> (r: Option<Square>)
        ensures
            i < self.dests().len() ==> r == Some(self.dests()[i as int]),
            i >= self.dests().len() ==> r is None,
    {
        match self {
            SelectionState::Idle => None,
            SelectionState::Showing(v) => {
                if i < v.len() {
                    Some(v[i])
                } else {
                    None
                }
            },
        }
    }

    /// Linear-scan membership test against the highlighted destinations.
    pub fn is_highlighted(&self, s: Square) -> (r: bool)
        ensures
            r == self.highlights(s),
    {
        match self {
            SelectionState::Idle => false,
            SelectionState::Showing(v) => {
                let mut i: usize = 0;
                while i < v.len()
                    invariant
                        i <= v.len(),
                        forall|j: int| 0 <= j < i ==> v@[j] != s,
                        self is Showing,
                        self->Showing_0@ == v@,
                    decreases v.len() - i,
                {
                    if v[i] == s {
                        return true;
                    }
                    i = i + 1;
                }
                proof {
                    assert(forall|j: int| 0 <= j < v@.len() ==> v@[j] != s);
                    assert(!v@.contains(s));
                }
                false
            },
        }
    }

    /// Replaces the highlight wholesale with the given destination list:
    /// an empty list clears any prior highlight to `Idle`, a non-empty
    /// list is shown exactly as given, whatever was shown before.
    pub fn update_from_moves(&mut self, moves: Vec<Square>)
        requires
            forall|i: int| 0 <= i < moves@.len() ==> (#[trigger] moves@[i]).wf(),
        ensures
            final(self).wf(),
            moves@.len() == 0 ==> *final(self) is Idle,
            moves@.len() > 0 ==> *final(self) == SelectionState::Showing(moves),
            final(self).dests() == moves@,
    {
        if moves.len() == 0 {
            *self = SelectionState::Idle;
            proof {
                assert(self.dests() =~= moves@);
            }
        } else {
            *self = SelectionState::Showing(moves);
        }
    }
}

} // verus!
