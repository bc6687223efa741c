//! The switch-matrix scanner, verified over a plain-value model of the row
//! and column pins.
//!
//! The physical matrix wires every key switch between one row pin (an
//! output, active low) and one column pin (an input with a pull-up, so it
//! reads low exactly when some active row connects to it through a closed
//! switch).  One scan drives each row low in turn, samples every column,
//! and restores the row before moving on; no scan leaves a row active on
//! return.  There is no debouncing and no settling delay beyond the
//! drive/read sequence itself — a known limitation of the design, preserved
//! here.  The closed-switch grid stands for the state of the physical keys;
//! only `set_switch`, the outside world's transition, changes it.

use vstd::prelude::*;
use crate::keyboard_config::{MATRIX_COLS, MATRIX_ROWS};

verus! {

/// The electrical model of the scanner's pins: which rows are driven to
/// the active (low) level, and which key switches are closed.
#[derive(Clone, Copy, Debug)]
pub struct MatrixPins {
    /// Row output pins; `true` means driven to the active low level.
    pub row_driven_low: [bool; MATRIX_ROWS],
    /// Ground truth of the physical keys: `true` means the switch at that
    /// cell is held closed.
    pub switches: [[bool; MATRIX_COLS]; MATRIX_ROWS],
}

impl MatrixPins {
    /// What a column input pin reads: low exactly when some active row
    /// reaches it through a closed switch.
    pub open spec fn spec_col_reads_low(self, col: int) -> bool {
        exists|r: int|
            0 <= r < MATRIX_ROWS && self.row_driven_low[r] && self.switches[r][col]
    }

    /// All pins idle: every row at the inactive high level, every switch
    /// open.
    pub fn new() -> (pins: MatrixPins)
        ensures
            forall|r: int| 0 <= r < MATRIX_ROWS ==> !pins.row_driven_low[r],
            forall|r: int, c: int|
                0 <= r < MATRIX_ROWS && 0 <= c < MATRIX_COLS ==> !pins.switches[r][c],
    {
        MatrixPins {
            row_driven_low: [false, false, false, false, false],
            switches: [
                [false, false, false, false, false, false, false, false, false, false, false,
                    false, false, false, false],
                [false, false, false, false, false, false, false, false, false, false, false,
                    false, false, false, false],
                [false, false, false, false, false, false, false, false, false, false, false,
                    false, false, false, false],
                [false, false, false, false, false, false, false, false, false, false, false,
                    false, false, false, false],
                [false, false, false, false, false, false, false, false, false, false, false,
                    false, false, false, false],
            ],
        }
    }

    /// Drives one row output to the active low level.
    pub fn set_row_low(&mut self, row: usize)
        requires
            row < MATRIX_ROWS,
        ensures
            final(self).row_driven_low@ =~= old(self).row_driven_low@.update(row as int, true),
            final(self).switches == old(self).switches,
    {
        self.row_driven_low[row] = true;
    }

    /// Restores one row output to the inactive high level.
    pub fn set_row_high(&mut self, row: usize)
        requires
            row < MATRIX_ROWS,
        ensures
            final(self).row_driven_low@ =~= old(self).row_driven_low@.update(row as int, false),
            final(self).switches == old(self).switches,
    {
        self.row_driven_low[row] = false;
    }

    /// Samples one column input pin.
    pub fn col_is_low(&self, col: usize) -> (low: bool)
        requires
            col < MATRIX_COLS,
        ensures
            low == self.spec_col_reads_low(col as int),
    {
        let mut r: usize = 0;
        let mut any: bool = false;
        while r < MATRIX_ROWS
            invariant
                r <= MATRIX_ROWS,
                col < MATRIX_COLS,
                any == exists|q: int|
                    0 <= q < r && self.row_driven_low[q] && self.switches[q][col as int],
            decreases MATRIX_ROWS - r,
        {
            if self.row_driven_low[r] && self.switches[r][col] {
                any = true;
            }
            r = r + 1;
        }
        any
    }

    /// Outside-world transition: a physical key at the given cell closes
    /// or opens.
    pub fn set_switch(&mut self, row: usize, col: usize, closed: bool)
        requires
            row < MATRIX_ROWS,
            col < MATRIX_COLS,
        ensures
            final(self).row_driven_low == old(self).row_driven_low,
            forall|r: int, c: int|
                0 <= r < MATRIX_ROWS && 0 <= c < MATRIX_COLS ==> final(self).switches[r][c]
                    == if r == row && c == col {
                    closed
                } else {
                    old(self).switches[r][c]
                },
    {
        self.switches[row][col] = closed;
    }
}

/// The matrix scanner: the pins it drives and the snapshot retained from
/// the previous scan, which the orchestrator diffs against.
pub struct Matrix {
    pub pins: MatrixPins,
    /// The pressed/released grid produced by the previous scan; replaced
    /// wholesale every poll tick, never partially mutated.
    pub last_state: [[bool; MATRIX_COLS]; MATRIX_ROWS],
}

impl Matrix {
    /// A scanner over the given pins with an all-released retained
    /// snapshot.
    pub fn new(pins: MatrixPins) -> (matrix: Matrix)
        ensures
            matrix.pins == pins,
            forall|r: int, c: int|
                0 <= r < MATRIX_ROWS && 0 <= c < MATRIX_COLS ==> !matrix.last_state[r][c],
    {
        Matrix {
            pins,
            last_state: [
                [false, false, false, false, false, false, false, false, false, false, false,
                    false, false, false, false],
                [false, false, false, false, false, false, false, false, false, false, false,
                    false, false, false, false],
                [false, false, false, false, false, false, false, false, false, false, false,
                    false, false, false, false],
                [false, false, false, false, false, false, false, false, false, false, false,
                    false, false, false, false],
                [false, false, false, false, false, false, false, false, false, false, false,
                    false, false, false, false],
            ],
        }
    }

    /// One full sweep: for each row in sequence, drive it low, sample
    /// every column (pressed = reads low), restore the row high.  With all
    /// rows idle at entry the snapshot recovered equals the closed-switch
    /// grid exactly, and no row is left active on return.  The retained
    /// snapshot is not touched; the orchestrator replaces it after
    /// diffing.
    pub fn scan(&mut self) -> (state: [[bool; MATRIX_COLS]; MATRIX_ROWS])
        requires
            forall|r: int| 0 <= r < MATRIX_ROWS ==> !old(self).pins.row_driven_low[r],
        ensures
            forall|r: int, c: int|
                0 <= r < MATRIX_ROWS && 0 <= c < MATRIX_COLS ==> state[r][c] == old(
                    self,
                ).pins.switches[r][c],
            final(self).pins == old(self).pins,
            forall|r: int| 0 <= r < MATRIX_ROWS ==> !final(self).pins.row_driven_low[r],
            final(self).last_state == old(self).last_state,
    {
        let mut state: [[bool; MATRIX_COLS]; MATRIX_ROWS] = [
            [false, false, false, false, false, false, false, false, false, false, false, false,
                false, false, false],
            [false, false, false, false, false, false, false, false, false, false, false, false,
                false, false, false],
            [false, false, false, false, false, false, false, false, false, false, false, false,
                false, false, false],
            [false, false, false, false, false, false, false, false, false, false, false, false,
                false, false, false],
            [false, false, false, false, false, false, false, false, false, false, false, false,
                false, false, false],
        ];

        let mut row: usize = 0;
        while row < MATRIX_ROWS
            invariant
                row <= MATRIX_ROWS,
                self.pins == old(self).pins,
                forall|r: int| 0 <= r < MATRIX_ROWS ==> !self.pins.row_driven_low[r],
                forall|r: int, c: int|
                    0 <= r < row && 0 <= c < MATRIX_COLS ==> state[r][c]
                        == self.pins.switches[r][c],
                self.last_state == old(self).last_state,
            decreases MATRIX_ROWS - row,
        {
            self.pins.set_row_low(row);

            let mut col: usize = 0;
            while col < MATRIX_COLS
                invariant
                    col <= MATRIX_COLS,
                    row < MATRIX_ROWS,
                    self.pins.switches == old(self).pins.switches,
                    forall|r: int|
                        0 <= r < MATRIX_ROWS ==> self.pins.row_driven_low[r] == (r == row),
                    forall|r: int, c: int|
                        0 <= r < row && 0 <= c < MATRIX_COLS ==> state[r][c]
                            == self.pins.switches[r][c],
                    forall|c: int|
                        0 <= c < col ==> state[row as int][c] == self.pins.switches[row as int][c],
                    self.last_state == old(self).last_state,
                decreases MATRIX_COLS - col,
            {
                let low = self.pins.col_is_low(col);
                proof {
                    assert(self.pins.spec_col_reads_low(col as int) == self.pins.switches[row as int][col as int])
                        by {
                        if self.pins.switches[row as int][col as int] {
                            assert(self.pins.row_driven_low[row as int]);
                        }
                    }
                }
                state[row][col] = low;
                col = col + 1;
            }

            self.pins.set_row_high(row);
            proof {
                assert(self.pins.row_driven_low =~= old(self).pins.row_driven_low);
            }
            row = row + 1;
        }

        state
    }
}

} // verus!
