//! The cells of a row.
//!
//! Border characters divide a row into cells.  A cell is a stretch of
//! columns that ends with a border or with the row; the border belongs to
//! the cell that it ends.

use vstd::prelude::*;

verus! {

/// Whether a character separates two cells of a row: the vertical bar and
/// the light and the double vertical line of the box drawings.
pub open spec fn is_border(c: char) -> bool {
    c == '|' || c == '\u{2502}' || c == '\u{2551}'
}

/// Whether column `i` of a row holds a border.
pub open spec fn border_at(line: Seq<char>, i: int) -> bool {
    0 <= i < line.len() && is_border(line[i])
}

/// The first column of the cell around column `x`: the column behind the
/// nearest border before `x`, or column zero where there is none.
pub open spec fn cell_first(line: Seq<char>, x: int) -> int
    decreases x,
{
    if x <= 0 {
        0
    } else if border_at(line, x - 1) {
        x
    } else {
        cell_first(line, x - 1)
    }
}

/// The column at which the cell around column `x` stops: the nearest
/// column from `x` on that holds a border or lies behind the row.
pub open spec fn cell_stop(line: Seq<char>, x: int) -> int
    decreases line.len() - x,
{
    if x >= line.len() || border_at(line, x) {
        x
    } else {
        cell_stop(line, x + 1)
    }
}

/// Whether a character is a border.
pub fn border(c: char) -> (found: bool)
    ensures
        found == is_border(c),
{
    c == '|' || c == '\u{2502}' || c == '\u{2551}'
}

/// Whether a column of a row holds a border.
pub fn border_in(line: &Vec<char>, i: usize) -> (found: bool)
    ensures
        found == border_at(line@, i as int),
{
    if i < line.len() {
        border(line[i])
    } else {
        false
    }
}

/// Finds the first column of the cell around column `x`: it walks to the
/// left until a border lies before the column.
pub fn first_of_cell(line: &Vec<char>, x: usize) -> (first: usize)
    ensures
        first == cell_first(line@, x as int),
        first <= x,
        first == 0 || border_at(line@, first - 1),
        forall|i: int| first <= i < x ==> !#[trigger] border_at(line@, i),
{
    proof {
        lemma_cell_first(line@, x as int);
    }
    let mut first = x;
    while first > 0 && !border_in(line, first - 1)
        invariant
            first <= x,
            cell_first(line@, first as int) == cell_first(line@, x as int),
        decreases first,
    {
        first = first - 1;
    }
    first
}

/// Finds the column at which the cell around column `x` stops: it walks to
/// the right until the column holds a border or lies behind the row.
pub fn stop_of_cell(line: &Vec<char>, x: usize) -> (stop: usize)
    ensures
        stop == cell_stop(line@, x as int),
        x <= stop,
        stop == x || stop <= line@.len(),
        stop >= line@.len() || border_at(line@, stop as int),
        forall|i: int| x <= i < stop ==> !#[trigger] border_at(line@, i),
{
    proof {
        lemma_cell_stop(line@, x as int);
    }
    let mut stop = x;
    while stop < line.len() && !border_in(line, stop)
        invariant
            x <= stop,
            stop == x || stop <= line@.len(),
            cell_stop(line@, stop as int) == cell_stop(line@, x as int),
        decreases line@.len() - stop,
    {
        stop = stop + 1;
    }
    stop
}

/// A cell begins in column zero or behind a border, and no border lies
/// between its first column and a column of the cell.
pub proof fn lemma_cell_first(line: Seq<char>, x: int)
    requires
        0 <= x,
    ensures
        0 <= cell_first(line, x) <= x,
        cell_first(line, x) == 0 || border_at(line, cell_first(line, x) - 1),
        forall|i: int| cell_first(line, x) <= i < x ==> !#[trigger] border_at(line, i),
    decreases x,
{
    if x > 0 && !border_at(line, x - 1) {
        lemma_cell_first(line, x - 1);
    }
}

/// A cell stops at a border or behind the row, no later than the row ends
/// unless it starts there, and no border lies between a column of the cell
/// and the column at which it stops.
pub proof fn lemma_cell_stop(line: Seq<char>, x: int)
    ensures
        x <= cell_stop(line, x),
        cell_stop(line, x) >= line.len() || border_at(line, cell_stop(line, x)),
        cell_stop(line, x) == x || cell_stop(line, x) <= line.len(),
        forall|i: int| x <= i < cell_stop(line, x) ==> !#[trigger] border_at(line, i),
    decreases line.len() - x,
{
    if !(x >= line.len() || border_at(line, x)) {
        lemma_cell_stop(line, x + 1);
    }
}

} // verus!
