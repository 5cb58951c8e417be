//! The request and the response of the grid endpoint.

use vstd::prelude::*;
use crate::grid::{Correction, Grid, CORRECTIONS_REQUIRED, GRID_SIDE};
use crate::submission::SubmissionReceipt;

verus! {

/// A claim on the grid puzzle: the current grid, row by row, and the
/// corrections `(x, y, value)` that are said to repair it.
#[derive(Clone, Debug, PartialEq, Eq)]
pub struct ProofRequest {
    pub grid: Vec<Vec<u8>>,
    pub solution: Vec<(u8, u8, u8)>,
}

/// The answer to a grid claim: whether it was proved valid, and the receipt
/// of the verification service if the proof was accepted there.
#[derive(Clone, Copy, Debug, PartialEq, Eq)]
pub struct ProofResponse {
    pub is_valid: bool,
    pub verification_data: Option<SubmissionReceipt>,
}

impl ProofRequest {
    /// The request has the shape of a claim: a square grid of the right
    /// side and the required number of corrections.
    pub open spec fn well_shaped(&self) -> bool {
        &&& self.grid@.len() == GRID_SIDE
        &&& forall|r: int| 0 <= r < self.grid@.len() ==> (#[trigger] self.grid@[r])@.len() == GRID_SIDE
        &&& self.solution@.len() == CORRECTIONS_REQUIRED
    }

    /// The cells of the request's grid in row-major order.
    pub open spec fn cells(&self) -> Seq<u8> {
        Seq::new(16, |i: int| self.grid@[i / 4]@[i % 4])
    }

    /// The corrections of the request.
    pub open spec fn corrections(&self) -> Seq<Correction> {
        Seq::new(
            self.solution@.len(),
            |i: int|
                Correction {
                    x: self.solution@[i].0,
                    y: self.solution@[i].1,
                    value: self.solution@[i].2,
                },
        )
    }

    /// The grid and the corrections of a well-shaped request, and `None`
    /// for any other.
    pub fn claim(&self) -> (claim: Option<(Grid, Vec<Correction>)>)
        ensures
            match claim {
                Some((grid, corrections)) => {
                    &&& self.well_shaped()
                    &&& grid@ == self.cells()
                    &&& corrections@ == self.corrections()
                },
                None => !self.well_shaped(),
            },
    {
        if self.grid.len() != GRID_SIDE || self.solution.len() != CORRECTIONS_REQUIRED {
            return None;
        }
        let mut grid = Grid { cells: [0u8;16] };
        let mut x: usize = 0;
        while x < 4
            invariant
                x <= 4,
                self.grid@.len() == 4,
                forall|r: int| 0 <= r < x ==> (#[trigger] self.grid@[r])@.len() == 4,
                forall|i: int| 0 <= i < 4 * x ==> grid@[i] == self.grid@[i / 4]@[i % 4],
            decreases 4 - x,
        {
            let row = &self.grid[x];
            if row.len() != GRID_SIDE {
                return None;
            }
            let mut y: usize = 0;
            while y < 4
                invariant
                    y <= 4,
                    x < 4,
                    row@.len() == 4,
                    row@ == self.grid@[x as int]@,
                    forall|i: int| 0 <= i < 4 * x + y ==> grid@[i] == self.grid@[i / 4]@[i % 4],
                decreases 4 - y,
            {
                let value: u8 = row[y];
                let ghost before = grid@;
                grid.cells[4 * x + y] = value;
                assert(grid@ == before.update(4 * x + y, value));
                y += 1;
            }
            x += 1;
        }
        assert(grid@ =~= self.cells());
        let mut corrections: Vec<Correction> = Vec::new();
        let mut i: usize = 0;
        while i < self.solution.len()
            invariant
                i <= self.solution@.len(),
                corrections@.len() == i,
                forall|k: int| 0 <= k < i ==> corrections@[k] == self.corrections()[k],
            decreases self.solution@.len() - i,
        {
            let triple: (u8, u8, u8) = self.solution[i];
            corrections.push(Correction { x: triple.0, y: triple.1, value: triple.2 });
            i += 1;
        }
        assert(corrections@ =~= self.corrections());
        Some((grid, corrections))
    }
}

} // verus!
