//! Texts as rows of characters.
//!
//! The rows of a text are the pieces between its line feeds.  Joined with
//! line feeds they give the text back, and they are the only rows without
//! line feeds that do.

use vstd::prelude::*;

verus! {

/// The rows of a text: the pieces between its line feeds, in order.  A text
/// with `n` line feeds has `n + 1` rows, some of them possibly empty.
pub open spec fn rows_of(text: Seq<char>) -> Seq<Seq<char>>
    decreases text.len(),
{
    if text.len() == 0 {
        seq![Seq::empty()]
    } else {
        let before = rows_of(text.drop_last());
        if text.last() == '\n' {
            before.push(Seq::empty())
        } else {
            before.update(before.len() - 1, before.last().push(text.last()))
        }
    }
}

/// The rows joined again, with a line feed between each two.
pub open spec fn joined(rows: Seq<Seq<char>>) -> Seq<char>
    decreases rows.len(),
{
    if rows.len() == 0 {
        Seq::empty()
    } else if rows.len() == 1 {
        rows[0]
    } else {
        joined(rows.drop_last()).push('\n') + rows.last()
    }
}

/// Whether no row holds a line feed.
pub open spec fn free_of_line_feeds(rows: Seq<Seq<char>>) -> bool {
    forall|i: int, j: int|
        0 <= i < rows.len() && 0 <= j < rows[i].len() ==> #[trigger] rows[i][j] != '\n'
}

/// The characters that a grid of vectors holds, row by row.
pub open spec fn grid_of(rows: Seq<Vec<char>>) -> Seq<Seq<char>> {
    rows.map_values(|row: Vec<char>| row@)
}

/// The length of the longest row; zero where there is no row.
pub open spec fn widest(rows: Seq<Seq<char>>) -> nat
    decreases rows.len(),
{
    if rows.len() == 0 {
        0
    } else if rows.last().len() > widest(rows.drop_last()) {
        rows.last().len()
    } else {
        widest(rows.drop_last())
    }
}

/// Splits a text into its rows and measures the longest of them.
pub fn split_rows(text: &str) -> (split: (Vec<Vec<char>>, usize))
    ensures
        grid_of(split.0@) == rows_of(text@),
        1 <= split.0@.len() <= usize::MAX,
        joined(grid_of(split.0@)) == text@,
        free_of_line_feeds(grid_of(split.0@)),
        split.1 == widest(grid_of(split.0@)),
        forall|i: int| 0 <= i < split.0@.len() ==> (#[trigger] split.0@[i])@.len() <= split.1,
{
    proof {
        lemma_rows_exist(text@);
        lemma_rows_join(text@);
        lemma_rows_hold_no_line_feed(text@);
    }
    let mut rows: Vec<Vec<char>> = Vec::new();
    let mut current: Vec<char> = Vec::new();
    let mut width: usize = 0;
    for c in it: text.chars()
        invariant
            it.seq() == text@,
            grid_of(rows@).push(current@) == rows_of(text@.take(it.index())),
            width == widest(grid_of(rows@)),
    {
        proof {
            let read = text@.take(it.index());
            let next = text@.take(it.index() + 1);
            assert(next.drop_last() =~= read);
        }
        if c == '\n' {
            if current.len() > width {
                width = current.len();
            }
            let ghost before = grid_of(rows@);
            rows.push(current);
            current = Vec::new();
            proof {
                assert(grid_of(rows@).drop_last() =~= before);
            }
        } else {
            current.push(c);
        }
    }
    proof {
        assert(text@.take(text@.len() as int) =~= text@);
    }
    if current.len() > width {
        width = current.len();
    }
    let ghost before = grid_of(rows@);
    rows.push(current);
    proof {
        assert(grid_of(rows@) =~= before.push(rows@.last()@));
        assert(grid_of(rows@).drop_last() =~= before);
        assert(rows@.len() == rows.len());
        assert forall|i: int| 0 <= i < rows@.len() implies (#[trigger] rows@[i])@.len()
            <= width by {
            lemma_widest_bounds(grid_of(rows@), i);
        }
    }
    (rows, width)
}

/// Every text has a first row.
pub proof fn lemma_rows_exist(text: Seq<char>)
    ensures
        rows_of(text).len() >= 1,
    decreases text.len(),
{
    if text.len() > 0 {
        lemma_rows_exist(text.drop_last());
    }
}

/// Joining the rows of a text gives the text back.
pub proof fn lemma_rows_join(text: Seq<char>)
    ensures
        joined(rows_of(text)) == text,
    decreases text.len(),
{
    if text.len() > 0 {
        let before = rows_of(text.drop_last());
        let rows = rows_of(text);
        lemma_rows_exist(text.drop_last());
        lemma_rows_join(text.drop_last());
        assert(text =~= text.drop_last().push(text.last()));
        if text.last() == '\n' {
            assert(rows.drop_last() =~= before);
        } else if before.len() > 1 {
            assert(rows.drop_last() =~= before.drop_last());
        }
    }
}

/// No row of a text holds a line feed.
pub proof fn lemma_rows_hold_no_line_feed(text: Seq<char>)
    ensures
        free_of_line_feeds(rows_of(text)),
    decreases text.len(),
{
    if text.len() > 0 {
        lemma_rows_exist(text.drop_last());
        lemma_rows_hold_no_line_feed(text.drop_last());
    }
}

/// The rows of a text are the only rows without line feeds that give the
/// text when they are joined.
pub proof fn lemma_rows_unique(rows: Seq<Seq<char>>, text: Seq<char>)
    requires
        rows.len() >= 1,
        free_of_line_feeds(rows),
        joined(rows) == text,
    ensures
        rows == rows_of(text),
    decreases text.len(),
{
    let last = rows.len() - 1;
    if rows.last().len() == 0 && rows.len() == 1 {
        assert(rows =~~= rows_of(text));
    } else if rows.last().len() == 0 {
        // The text ends with the line feed before the empty last row.
        let front = rows.drop_last();
        assert(text.drop_last() =~= joined(front));
        assert(free_of_line_feeds(front));
        lemma_rows_unique(front, text.drop_last());
        assert(rows =~~= rows_of(text));
    } else {
        // The text ends with the last character of the last row.
        let shorter = rows.update(last, rows.last().drop_last());
        if rows.len() > 1 {
            assert(shorter.drop_last() =~= rows.drop_last());
        }
        assert(joined(shorter) =~= text.drop_last());
        assert(free_of_line_feeds(shorter));
        lemma_rows_unique(shorter, text.drop_last());
        assert(rows =~~= rows_of(text));
    }
}

/// Some row is as long as the longest.
pub proof fn lemma_widest_attained(rows: Seq<Seq<char>>)
    requires
        rows.len() >= 1,
    ensures
        exists|i: int| 0 <= i < rows.len() && #[trigger] rows[i].len() == widest(rows),
    decreases rows.len(),
{
    if rows.len() == 1 {
        assert(rows[0].len() == widest(rows));
    } else if rows.last().len() > widest(rows.drop_last()) {
        assert(rows[rows.len() - 1].len() == widest(rows));
    } else {
        lemma_widest_attained(rows.drop_last());
        let front = rows.drop_last();
        let i = choose|i: int| 0 <= i < front.len() && #[trigger] front[i].len() == widest(front);
        assert(rows[i].len() == widest(rows));
    }
}

/// No row is longer than the longest.
pub proof fn lemma_widest_bounds(rows: Seq<Seq<char>>, i: int)
    requires
        0 <= i < rows.len(),
    ensures
        rows[i].len() <= widest(rows),
    decreases rows.len(),
{
    if i < rows.len() - 1 {
        lemma_widest_bounds(rows.drop_last(), i);
    }
}

} // verus!
