//! The fixed relation between a terminal position (column, row), counted
//! from one, and a cell of the board. Drawing and input both go through it,
//! so the place where a mark is shown and the cell it belongs to cannot
//! drift apart.

use vstd::prelude::*;
use crate::board::CELLS;

verus! {

/// Column of the marks in the left-hand column of the grid.
pub const BASE_COL: u16 = 2;

/// Row of the marks in the top row of the grid.
pub const BASE_ROW: u16 = 2;

/// Columns from one mark to the next on the same row.
pub const STRIDE_COL: u16 = 4;

/// Rows from one mark to the one below it.
pub const STRIDE_ROW: u16 = 2;

/// The position (column, row) at which the mark of cell `i` is drawn.
pub open spec fn anchor(i: int) -> (int, int) {
    (BASE_COL + (i % 3) * STRIDE_COL, BASE_ROW + (i / 3) * STRIDE_ROW)
}

/// True when (col, row) is the anchor of some cell.
pub open spec fn is_anchor(col: int, row: int) -> bool {
    exists|i: int| 0 <= i < CELLS && #[trigger] anchor(i) == (col, row)
}

/// The cell whose anchor is (col, row), if there is one.
pub open spec fn cell_at(col: int, row: int) -> Option<int> {
    if is_anchor(col, row) {
        Some(choose|i: int| 0 <= i < CELLS && #[trigger] anchor(i) == (col, row))
    } else {
        None
    }
}

/// Two different cells never share an anchor.
pub proof fn lemma_anchor_injective(i: int, j: int)
    requires
        0 <= i < CELLS,
        0 <= j < CELLS,
        anchor(i) == anchor(j),
    ensures
        i == j,
{
}

/// Going from a cell to its anchor and back gives the cell again.
pub proof fn lemma_coord_round_trip(i: int)
    requires
        0 <= i < CELLS,
    ensures
        cell_at(anchor(i).0, anchor(i).1) == Some(i),
{
    let (col, row) = anchor(i);
    assert(is_anchor(col, row));
    let j = choose|j: int| 0 <= j < CELLS && #[trigger] anchor(j) == (col, row);
    lemma_anchor_injective(i, j);
}

/// Going from a position to its cell and back gives the position again: the
/// reverse mapping accepts anchors only.
pub proof fn lemma_cell_round_trip(col: int, row: int)
    requires
        cell_at(col, row) is Some,
    ensures
        0 <= cell_at(col, row)->0 < CELLS,
        anchor(cell_at(col, row)->0) == (col, row),
{
}

/// The terminal position of cell `index`.
pub fn cell_to_coord(index: usize) -> (pos: (u16, u16))
    requires
        index < CELLS,
    ensures
        (pos.0 as int, pos.1 as int) == anchor(index as int),
{
    let col: u16 = BASE_COL + ((index % 3) as u16) * STRIDE_COL;
    let row: u16 = BASE_ROW + ((index / 3) as u16) * STRIDE_ROW;
    (col, row)
}

/// The cell whose mark is drawn at (col, row); `None` for every position
/// that is not the anchor of a cell.
pub fn coord_to_cell(col: u16, row: u16) -> (r: Option<usize>)
    ensures
        r is Some <==> is_anchor(col as int, row as int),
        r matches Some(i) ==> i < CELLS && anchor(i as int) == (col as int, row as int),
        r matches Some(i) ==> cell_at(col as int, row as int) == Some(i as int),
        r is None ==> cell_at(col as int, row as int) is None,
{
    if col < BASE_COL || row < BASE_ROW {
        assert(!is_anchor(col as int, row as int));
        return None;
    }
    let dc: u16 = col - BASE_COL;
    let dr: u16 = row - BASE_ROW;
    if dc % STRIDE_COL != 0 || dr % STRIDE_ROW != 0 {
        assert(!is_anchor(col as int, row as int));
        return None;
    }
    let c: u16 = dc / STRIDE_COL;
    let r: u16 = dr / STRIDE_ROW;
    if c >= 3 || r >= 3 {
        assert(!is_anchor(col as int, row as int));
        return None;
    }
    let index: usize = (r * 3 + c) as usize;
    proof {
        assert(anchor(index as int) == (col as int, row as int));
        lemma_coord_round_trip(index as int);
    }
    Some(index)
}

} // verus!
