//! The grid puzzle: a square grid whose current state differs from the
//! ground truth in a few cells, and the rule that decides whether a list of
//! proposed corrections repairs it.

use vstd::prelude::*;

verus! {

/// Side of the square grid.
pub const GRID_SIDE: usize = 4;

/// Number of cells in a grid.
pub const GRID_CELLS: usize = 16;

/// Number of corrections that a valid solution holds.
pub const CORRECTIONS_REQUIRED: usize = 1;

/// A square grid in row-major order: cell `(x, y)` is `cells[x * 4 + y]`.
#[derive(Clone, Copy, Debug, PartialEq, Eq)]
pub struct Grid {
    pub cells: [u8; 16],
}

/// A proposal to write `value` into cell `(x, y)`.
#[derive(Clone, Copy, Debug, PartialEq, Eq)]
pub struct Correction {
    pub x: u8,
    pub y: u8,
    pub value: u8,
}

impl View for Grid {
    type V = Seq<u8>;

    open spec fn view(&self) -> Seq<u8> {
        self.cells@
    }
}

/// Position of cell `(x, y)` in the row-major cell sequence.
pub open spec fn cell_index(x: int, y: int) -> int {
    x * 4 + y
}

/// The correction names a cell inside the grid.
pub open spec fn in_bounds(c: Correction) -> bool {
    c.x < 4 && c.y < 4
}

/// The rule for one correction against the grid as it stands: the cell lies
/// inside the grid, it still differs from the truth, and the proposed value
/// is the true one. The bounds come first, so a correction that changes
/// nothing is never accepted.
pub open spec fn correction_accepted(truth: Seq<u8>, cells: Seq<u8>, c: Correction) -> bool {
    &&& in_bounds(c)
    &&& cells[cell_index(c.x as int, c.y as int)] != truth[cell_index(c.x as int, c.y as int)]
    &&& c.value == truth[cell_index(c.x as int, c.y as int)]
}

/// The grid after writing the correction's value into its cell.
pub open spec fn corrected(cells: Seq<u8>, c: Correction) -> Seq<u8> {
    cells.update(cell_index(c.x as int, c.y as int), c.value)
}

/// The grid after the corrections were taken one by one, in order, or `None`
/// as soon as one of them is refused.
pub open spec fn replay(truth: Seq<u8>, cells: Seq<u8>, corrections: Seq<Correction>) -> Option<
    Seq<u8>,
>
    decreases corrections.len(),
{
    if corrections.len() == 0 {
        Some(cells)
    } else {
        match replay(truth, cells, corrections.drop_last()) {
            None => None,
            Some(before) => if correction_accepted(truth, before, corrections.last()) {
                Some(corrected(before, corrections.last()))
            } else {
                None
            },
        }
    }
}

/// The verdict of the grid puzzle: exactly the required number of
/// corrections, each accepted in turn, and a grid equal to the truth after
/// the last one.
pub open spec fn corrections_valid(
    truth: Seq<u8>,
    current: Seq<u8>,
    corrections: Seq<Correction>,
) -> bool {
    &&& truth.len() == GRID_CELLS
    &&& current.len() == GRID_CELLS
    &&& corrections.len() == CORRECTIONS_REQUIRED
    &&& replay(truth, current, corrections) == Some(truth)
}

/// Once a prefix of the corrections has been refused, the whole list is.
pub proof fn replay_refusal_is_final(
    truth: Seq<u8>,
    cells: Seq<u8>,
    corrections: Seq<Correction>,
    n: int,
)
    requires
        0 <= n <= corrections.len(),
        replay(truth, cells, corrections.take(n)) is None,
    ensures
        replay(truth, cells, corrections) is None,
    decreases corrections.len() - n,
{
    if n == corrections.len() {
        assert(corrections.take(n) =~= corrections);
    } else {
        assert(corrections.take(n + 1).drop_last() =~= corrections.take(n));
        replay_refusal_is_final(truth, cells, corrections, n + 1);
    }
}

impl Grid {
    /// The value of cell `(x, y)`.
    pub fn cell(&self, x: u8, y: u8) -> (value: u8)
        requires
            x < 4,
            y < 4,
        ensures
            value == self@[cell_index(x as int, y as int)],
    {
        self.cells[x as usize * GRID_SIDE + y as usize]
    }

    /// Whether two grids hold the same values in every cell.
    pub fn same_cells(&self, other: &Grid) -> (same: bool)
        ensures
            same == (self@ == other@),
    {
        let mut i: usize = 0;
        while i < GRID_CELLS
            invariant
                i <= GRID_CELLS,
                forall|k: int| 0 <= k < i ==> self@[k] == other@[k],
            decreases GRID_CELLS - i,
        {
            if self.cells[i] != other.cells[i] {
                return false;
            }
            i += 1;
        }
        assert(self@ =~= other@);
        true
    }
}

/// Decides the grid puzzle. The corrections are taken in the order given and
/// the first one that is refused ends the run with `false`.
pub fn verify_corrections(truth: &Grid, current: &Grid, corrections: &Vec<Correction>) -> (valid:
    bool)
    ensures
        valid == corrections_valid(truth@, current@, corrections@),
{
    if corrections.len() != CORRECTIONS_REQUIRED {
        return false;
    }
    let mut work: Grid = *current;
    let mut i: usize = 0;
    assert(corrections@.take(0) =~= Seq::<Correction>::empty());
    while i < corrections.len()
        invariant
            i <= corrections.len(),
            replay(truth@, current@, corrections@.take(i as int)) == Some(work@),
        decreases corrections.len() - i,
    {
        let c: Correction = corrections[i];
        proof {
            assert(corrections@.take(i + 1).drop_last() =~= corrections@.take(i as int));
            assert(corrections@.take(i + 1).last() == c);
        }
        if c.x >= 4 || c.y >= 4 {
            proof {
                replay_refusal_is_final(truth@, current@, corrections@, i + 1);
            }
            return false;
        }
        let at: usize = c.x as usize * GRID_SIDE + c.y as usize;
        if work.cells[at] == truth.cells[at] || c.value != truth.cells[at] {
            proof {
                replay_refusal_is_final(truth@, current@, corrections@, i + 1);
            }
            return false;
        }
        work.cells[at] = c.value;
        i += 1;
    }
    assert(corrections@.take(i as int) =~= corrections@);
    work.same_cells(truth)
}

/// With exactly one cell of the current grid differing from the truth, the
/// one correction that names that cell and carries its true value is valid,
/// and every other single correction is not: a wrong cell, a wrong value and
/// a coordinate outside the grid are all refused.
pub proof fn single_mismatch_has_one_solution(
    truth: Seq<u8>,
    current: Seq<u8>,
    x0: int,
    y0: int,
    c: Correction,
)
    requires
        truth.len() == GRID_CELLS,
        current.len() == GRID_CELLS,
        0 <= x0 < 4,
        0 <= y0 < 4,
        forall|k: int| 0 <= k < 16 ==> (current[k] != truth[k] <==> k == cell_index(x0, y0)),
    ensures
        corrections_valid(truth, current, seq![c]) <==> (c.x == x0 && c.y == y0 && c.value
            == truth[cell_index(x0, y0)]),
{
    let cs = seq![c];
    assert(cs.drop_last() =~= Seq::<Correction>::empty());
    assert(cs.last() == c);
    assert(replay(truth, current, cs.drop_last()) == Some(current));
    if c.x == x0 && c.y == y0 && c.value == truth[cell_index(x0, y0)] {
        assert(correction_accepted(truth, current, c));
        assert(corrected(current, c) =~= truth);
    } else {
        if correction_accepted(truth, current, c) {
            assert(cell_index(c.x as int, c.y as int) == cell_index(x0, y0));
        }
    }
}

} // verus!
