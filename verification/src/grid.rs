//! The geometry of the button grid: items are laid out row by row, a fixed
//! number to the row, and the last row may be short.

use vstd::prelude::*;

verus! {

/// Number of rows a grid of `n_cols` columns needs to show `n_items` items:
/// the quotient of the two, rounded up.
pub open spec fn rows_needed(n_cols: int, n_items: int) -> int {
    if n_items <= 0 {
        0
    } else {
        (n_items - 1) / n_cols + 1
    }
}

/// The item shown in the cell at `row` and `col`, if the cell shows one:
/// items fill the rows from the left, one row after the other.
pub open spec fn cell_item(row: int, col: int, n_cols: int, n_items: int) -> Option<int> {
    if 0 <= row && 0 <= col < n_cols && row * n_cols + col < n_items {
        Some(row * n_cols + col)
    } else {
        None
    }
}

/// The rows are enough and none is idle: together they have a cell for
/// every item, and without the last row they would not.
pub proof fn lemma_rows_fit(n_cols: int, n_items: int)
    requires
        n_cols > 0,
        n_items >= 0,
    ensures
        rows_needed(n_cols, n_items) >= 0,
        rows_needed(n_cols, n_items) * n_cols >= n_items,
        n_items > 0 ==> (rows_needed(n_cols, n_items) - 1) * n_cols < n_items,
        rows_needed(n_cols, n_items) <= n_items,
{
    if n_items > 0 {
        let q = (n_items - 1) / n_cols;
        let r = (n_items - 1) % n_cols;
        assert(n_items - 1 == q * n_cols + r && 0 <= r < n_cols && q >= 0) by (nonlinear_arith)
            requires
                q == (n_items - 1) / n_cols,
                r == (n_items - 1) % n_cols,
                n_cols > 0,
                n_items - 1 >= 0,
        ;
        assert((q + 1) * n_cols == q * n_cols + n_cols) by (nonlinear_arith);
        assert(q * n_cols >= q) by (nonlinear_arith)
            requires
                q >= 0,
                n_cols > 0,
        ;
    }
}

/// Every item has its cell, in one of the rows, and no other cell shows it.
pub proof fn lemma_every_item_has_one_cell(n_cols: int, n_items: int, i: int)
    requires
        n_cols > 0,
        0 <= i < n_items,
    ensures
        cell_item(i / n_cols, i % n_cols, n_cols, n_items) == Some(i),
        0 <= i / n_cols < rows_needed(n_cols, n_items),
        forall|row: int, col: int|
            cell_item(row, col, n_cols, n_items) == Some(i) ==> row == i / n_cols && col == i
                % n_cols,
{
    let q = i / n_cols;
    let r = i % n_cols;
    assert(i == q * n_cols + r && 0 <= r < n_cols && q >= 0) by (nonlinear_arith)
        requires
            q == i / n_cols,
            r == i % n_cols,
            n_cols > 0,
            i >= 0,
    ;
    lemma_rows_fit(n_cols, n_items);
    let rows = rows_needed(n_cols, n_items);
    assert(q < rows) by (nonlinear_arith)
        requires
            q * n_cols + r < n_items,
            r >= 0,
            rows * n_cols >= n_items,
            n_cols > 0,
    ;
    assert forall|row: int, col: int| cell_item(row, col, n_cols, n_items) == Some(i) implies row
        == q && col == r by {
        assert(row == q && col == r) by (nonlinear_arith)
            requires
                row * n_cols + col == q * n_cols + r,
                0 <= col < n_cols,
                0 <= r < n_cols,
                n_cols > 0,
        ;
    }
}

/// No cell below the last row shows an item.
pub proof fn lemma_no_item_below_the_rows(n_cols: int, n_items: int, row: int, col: int)
    requires
        n_cols > 0,
        n_items >= 0,
        row >= rows_needed(n_cols, n_items),
    ensures
        cell_item(row, col, n_cols, n_items) is None,
{
    lemma_rows_fit(n_cols, n_items);
    let rows = rows_needed(n_cols, n_items);
    if 0 <= col < n_cols {
        assert(row * n_cols >= rows * n_cols) by (nonlinear_arith)
            requires
                row >= rows,
                n_cols > 0,
        ;
    }
}

/// Computes how many rows the button grid has. A grid without columns can
/// hold nothing, so it is only asked about when there is nothing to show.
pub fn compute_n_rows(n_cols: usize, n_items: usize) -> (rows: usize)
    requires
        n_cols > 0 || n_items == 0,
    ensures
        rows == rows_needed(n_cols as int, n_items as int),
{
    if n_items == 0 {
        0
    } else {
        (n_items - 1) / n_cols + 1
    }
}

/// The index of the item that the cell at `row` and `col` shows, or `None`
/// for a cell that stays empty.
pub fn cell_index(row: usize, col: usize, n_cols: usize, n_items: usize) -> (index: Option<usize>)
    ensures
        match index {
            Some(i) => cell_item(row as int, col as int, n_cols as int, n_items as int) == Some(
                i as int,
            ),
            None => cell_item(row as int, col as int, n_cols as int, n_items as int) is None,
        },
{
    if col >= n_cols {
        return None;
    }
    match row.checked_mul(n_cols) {
        Some(start) => match start.checked_add(col) {
            Some(index) => if index < n_items {
                Some(index)
            } else {
                None
            },
            None => None,
        },
        None => None,
    }
}

} // verus!
