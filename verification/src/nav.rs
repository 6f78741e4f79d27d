//! Where the cursor goes on a move key. Moving right looks for the next
//! free cell, going round the board; moving left steps back by one cell.

use vstd::prelude::*;
use crate::board::{Game, CELLS};
use crate::player::Player;

verus! {

/// The cell `d` steps after `cur`, continuing at cell 0 after cell 8.
pub open spec fn ahead(cur: int, d: int) -> int {
    (cur + d) % (CELLS as int)
}

/// True when the cell `d` steps after `cur` is free.
pub open spec fn free_at(cells: Seq<Player>, cur: int, d: int) -> bool {
    cells[ahead(cur, d)] == Player::Empty
}

/// The smallest number of steps, from `d` up to 9, that leads from `cur` to
/// a free cell; 10 when there is none. Nine steps lead back to `cur` itself.
pub open spec fn free_distance(cells: Seq<Player>, cur: int, d: int) -> int
    decreases 10 - d,
{
    if d < 1 || d > 9 {
        10
    } else if free_at(cells, cur, d) {
        d
    } else {
        free_distance(cells, cur, d + 1)
    }
}

/// Where a move to the right from `cur` ends: on the nearest free cell after
/// `cur` in circular order, or on cell 0 when the board is full.
pub open spec fn right_target(cells: Seq<Player>, cur: int) -> int {
    let k = free_distance(cells, cur, 1);
    if k <= 9 {
        ahead(cur, k)
    } else {
        0
    }
}

/// Where a move to the left from `cur` ends: one cell back, and from cell 0
/// on the last cell.
pub open spec fn left_target(cur: int) -> int {
    if cur == 0 {
        CELLS - 1
    } else {
        cur - 1
    }
}

/// `free_distance` from step `d` on is the first step at which the cell is
/// free: the cell there is free and no earlier one is.
proof fn lemma_free_distance(cells: Seq<Player>, cur: int, d: int)
    requires
        1 <= d <= 10,
    ensures
        d <= free_distance(cells, cur, d) <= 10,
        free_distance(cells, cur, d) <= 9 ==> free_at(cells, cur, free_distance(cells, cur, d)),
        forall|e: int|
            d <= e < free_distance(cells, cur, d) ==> !#[trigger] free_at(cells, cur, e),
    decreases 10 - d,
{
    if d <= 9 && !free_at(cells, cur, d) {
        lemma_free_distance(cells, cur, d + 1);
    }
}

/// Every cell is reached from `cur` in between one and nine steps.
proof fn lemma_steps_to(cur: int, i: int) -> (e: int)
    requires
        0 <= cur < CELLS,
        0 <= i < CELLS,
    ensures
        1 <= e <= 9,
        ahead(cur, e) == i,
{
    if i > cur {
        i - cur
    } else {
        i - cur + 9
    }
}

/// A move to the right always ends on a cell of the board.
pub proof fn lemma_right_in_range(cells: Seq<Player>, cur: int)
    requires
        0 <= cur < CELLS,
    ensures
        0 <= right_target(cells, cur) < CELLS,
{
    lemma_free_distance(cells, cur, 1);
}

/// If any cell of the board is free, a move to the right from any cell ends
/// on a free cell.
pub proof fn lemma_right_lands_on_free(cells: Seq<Player>, cur: int, free: int)
    requires
        cells.len() == CELLS,
        0 <= cur < CELLS,
        0 <= free < CELLS,
        cells[free] == Player::Empty,
    ensures
        0 <= right_target(cells, cur) < CELLS,
        cells[right_target(cells, cur)] == Player::Empty,
{
    lemma_free_distance(cells, cur, 1);
    let e = lemma_steps_to(cur, free);
    assert(free_at(cells, cur, e));
}

/// The free cell on which a move to the right ends is the nearest one going
/// forward with wrap-around: it lies `k` steps ahead, with `k` between one
/// and nine, and every cell passed on the way is occupied.
pub proof fn lemma_right_is_nearest(cells: Seq<Player>, cur: int, free: int) -> (k: int)
    requires
        cells.len() == CELLS,
        0 <= cur < CELLS,
        0 <= free < CELLS,
        cells[free] == Player::Empty,
    ensures
        1 <= k <= 9,
        right_target(cells, cur) == ahead(cur, k),
        forall|e: int| 1 <= e < k ==> cells[#[trigger] ahead(cur, e)] != Player::Empty,
{
    lemma_free_distance(cells, cur, 1);
    let e0 = lemma_steps_to(cur, free);
    assert(free_at(cells, cur, e0));
    let k = free_distance(cells, cur, 1);
    assert forall|e: int| 1 <= e < k implies cells[#[trigger] ahead(cur, e)]
        != Player::Empty by {
        assert(!free_at(cells, cur, e));
    }
    k
}

/// On a full board a move to the right ends on cell 0.
pub proof fn lemma_right_on_full_board(cells: Seq<Player>, cur: int)
    requires
        cells.len() == CELLS,
        0 <= cur < CELLS,
        forall|i: int| 0 <= i < CELLS ==> cells[i] != Player::Empty,
    ensures
        right_target(cells, cur) == 0,
{
    lemma_free_distance(cells, cur, 1);
    let k = free_distance(cells, cur, 1);
    if k <= 9 {
        assert(free_at(cells, cur, k));
        assert(0 <= ahead(cur, k) < CELLS);
    }
}

/// A move to the left from cell 0 ends on cell 8, and from any other cell on
/// the cell before it, whatever the cells hold.
pub proof fn lemma_left_steps_back(cur: int)
    requires
        0 <= cur < CELLS,
    ensures
        0 <= left_target(cur) < CELLS,
        cur == 0 ==> left_target(cur) == 8,
        cur > 0 ==> left_target(cur) == cur - 1,
{
}

impl Game {
    /// The cell the cursor moves to on a move to the right from `cursor`.
    pub fn move_right(&self, cursor: usize) -> (target: usize)
        requires
            cursor < CELLS,
        ensures
            target == right_target(self@.cells, cursor as int),
            target < CELLS,
    {
        let mut d: usize = 1;
        while d <= 9
            invariant
                1 <= d <= 10,
                cursor < CELLS,
                free_distance(self@.cells, cursor as int, d as int) == free_distance(
                    self@.cells,
                    cursor as int,
                    1,
                ),
            decreases 10 - d,
        {
            let i: usize = (cursor + d) % 9;
            if self.cell(i).is_empty() {
                return i;
            }
            d += 1;
        }
        0
    }
}

/// The cell the cursor moves to on a move to the left from `cursor`.
pub fn move_left(cursor: usize) -> (target: usize)
    requires
        cursor < CELLS,
    ensures
        target == left_target(cursor as int),
        target < CELLS,
{
    if cursor == 0 {
        CELLS - 1
    } else {
        cursor - 1
    }
}

} // verus!
