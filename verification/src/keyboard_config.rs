//! Build-time dimensions of the keyboard: the physical switch matrix and the
//! number of keymap layers.

use vstd::prelude::*;

verus! {

/// Number of rows in the physical switch matrix.
pub const MATRIX_ROWS: usize = 5;

/// Number of columns in the physical switch matrix.
pub const MATRIX_COLS: usize = 15;

/// Number of keymap layers, layer 0 being the base layer.
pub const NUM_LAYERS: usize = 3;

} // verus!
