//! The win predicate over a player's occupancy tracker.

use vstd::prelude::*;

verus! {

/// Number of logical cells on the board.
pub const CELLS: usize = 9;

/// The three cells `first`, `second`, `third` are all marked in `marks`.
pub open spec fn line_held(marks: Seq<bool>, first: int, second: int, third: int) -> bool {
    marks[first] && marks[second] && marks[third]
}

/// A tracker wins when it holds one of the eight lines of the 3x3 grid:
/// three rows, three columns and the two diagonals.
pub open spec fn wins(marks: Seq<bool>) -> bool {
    ||| line_held(marks, 0, 1, 2)
    ||| line_held(marks, 3, 4, 5)
    ||| line_held(marks, 6, 7, 8)
    ||| line_held(marks, 0, 3, 6)
    ||| line_held(marks, 1, 4, 7)
    ||| line_held(marks, 2, 5, 8)
    ||| line_held(marks, 0, 4, 8)
    ||| line_held(marks, 2, 4, 6)
}

/// Decides whether the tracker of one player holds three in a row.
pub fn tic_tac_toe(player_vec: &Vec<bool>) -> (won: bool)
    requires
        player_vec.len() == CELLS,
    ensures
        won == wins(player_vec@),
{
    player_vec[0] && player_vec[1] && player_vec[2]
        || player_vec[3] && player_vec[4] && player_vec[5]
        || player_vec[6] && player_vec[7] && player_vec[8]
        || player_vec[0] && player_vec[3] && player_vec[6]
        || player_vec[1] && player_vec[4] && player_vec[7]
        || player_vec[2] && player_vec[5] && player_vec[8]
        || player_vec[0] && player_vec[4] && player_vec[8]
        || player_vec[2] && player_vec[4] && player_vec[6]
}

/// The cell in row `row` and column `column` of the grid, both counted
/// from 0.
pub open spec fn cell_at(row: int, column: int) -> int {
    3 * row + column
}

/// Every cell of row `row` is marked.
pub open spec fn row_held(marks: Seq<bool>, row: int) -> bool {
    forall|column: int| 0 <= column < 3 ==> marks[#[trigger] cell_at(row, column)]
}

/// Every cell of column `column` is marked.
pub open spec fn column_held(marks: Seq<bool>, column: int) -> bool {
    forall|row: int| 0 <= row < 3 ==> marks[#[trigger] cell_at(row, column)]
}

/// Every cell of the diagonal from the top left is marked.
pub open spec fn diagonal_held(marks: Seq<bool>) -> bool {
    forall|row: int, column: int|
        0 <= row < 3 && column == row ==> marks[#[trigger] cell_at(row, column)]
}

/// Every cell of the diagonal from the top right is marked.
pub open spec fn antidiagonal_held(marks: Seq<bool>) -> bool {
    forall|row: int, column: int|
        0 <= row < 3 && column == 2 - row ==> marks[#[trigger] cell_at(row, column)]
}

/// The eight winning lines are the rows, the columns and the two diagonals
/// of the grid: a tracker wins exactly when it holds one of those in full.
pub proof fn lemma_wins_by_rows_columns_diagonals(marks: Seq<bool>)
    ensures
        wins(marks) <==> {
            ||| exists|row: int| 0 <= row < 3 && #[trigger] row_held(marks, row)
            ||| exists|column: int| 0 <= column < 3 && #[trigger] column_held(marks, column)
            ||| diagonal_held(marks)
            ||| antidiagonal_held(marks)
        },
{
    assert forall|row: int| 0 <= row < 3 implies (#[trigger] row_held(marks, row) <==> line_held(
        marks,
        3 * row,
        3 * row + 1,
        3 * row + 2,
    )) by {
        assert(cell_at(row, 0) == 3 * row && cell_at(row, 1) == 3 * row + 1 && cell_at(row, 2) == 3
            * row + 2);
    }
    assert forall|column: int| 0 <= column < 3 implies (#[trigger] column_held(marks, column)
        <==> line_held(marks, column, column + 3, column + 6)) by {
        assert(cell_at(0, column) == column && cell_at(1, column) == column + 3 && cell_at(
            2,
            column,
        ) == column + 6);
    }
    assert(diagonal_held(marks) <==> line_held(marks, 0, 4, 8)) by {
        assert(cell_at(0, 0) == 0 && cell_at(1, 1) == 4 && cell_at(2, 2) == 8);
    }
    assert(antidiagonal_held(marks) <==> line_held(marks, 2, 4, 6)) by {
        assert(cell_at(0, 2) == 2 && cell_at(1, 1) == 4 && cell_at(2, 0) == 6);
    }
    if wins(marks) {
        if line_held(marks, 0, 1, 2) {
            assert(row_held(marks, 0));
        } else if line_held(marks, 3, 4, 5) {
            assert(row_held(marks, 1));
        } else if line_held(marks, 6, 7, 8) {
            assert(row_held(marks, 2));
        } else if line_held(marks, 0, 3, 6) {
            assert(column_held(marks, 0));
        } else if line_held(marks, 1, 4, 7) {
            assert(column_held(marks, 1));
        } else if line_held(marks, 2, 5, 8) {
            assert(column_held(marks, 2));
        }
    }
}

/// A tracker without any mark does not win.
pub proof fn lemma_empty_does_not_win(marks: Seq<bool>)
    requires
        marks.len() == CELLS,
        forall|k: int| 0 <= k < CELLS ==> !marks[k],
    ensures
        !wins(marks),
{
}

/// A tracker with at most two marks does not win, whichever cells they are.
pub proof fn lemma_two_marks_do_not_win(marks: Seq<bool>, first: int, second: int)
    requires
        marks.len() == CELLS,
        forall|k: int| 0 <= k < CELLS && marks[k] ==> k == first || k == second,
    ensures
        !wins(marks),
{
}

} // verus!
