//! The text under the viewport: rows of characters and a cursor on them.
//!
//! The rows are the pieces of the text between line feeds.  The cursor
//! stands on a cell of the rectangle that the rows span, the content
//! region: zero based, as wide as the longest row and as high as the
//! number of rows.  On a short row the cursor may stand behind the row's
//! last character, where it points at no character.
//!
//! Besides single steps the cursor can jump to the ends of its row and to
//! the ends of the cells into which borders divide the row.

use crate::cells::{cell_first, cell_stop, first_of_cell, stop_of_cell};
use crate::region::Region;
use crate::text::{grid_of, lemma_widest_bounds, rows_of, split_rows, widest};
use vstd::prelude::*;

verus! {

broadcast use crate::region::lemma_new_fields;

/// The shape in which the cursor is drawn.
#[derive(Debug, Copy, Clone, PartialEq, Eq, Structural)]
pub enum CursorShape {
    /// A thin line before the character.
    Bar,
    /// A box over the character.
    Block,
    /// A line under the character.
    Underscore,
}

/// What a model holds: the rows of its text, the cell on which the cursor
/// stands, and the cursor's shape.
pub struct ModelView {
    pub rows: Seq<Seq<char>>,
    pub column: int,
    pub row: int,
    pub shape: CursorShape,
}

impl ModelView {
    /// The model of a text that was just loaded: a bar on the first cell.
    pub open spec fn initial(text: Seq<char>) -> ModelView {
        ModelView { rows: rows_of(text), column: 0, row: 0, shape: CursorShape::Bar }
    }

    /// The number of columns of the content region.
    pub open spec fn width(self) -> nat {
        widest(self.rows)
    }

    /// The number of rows of the content region.
    pub open spec fn height(self) -> nat {
        self.rows.len()
    }

    /// The row on which the cursor stands.
    pub open spec fn line(self) -> Seq<char> {
        self.rows[self.row]
    }

    /// There is a row, the content region fits the machine's numbers, and
    /// the cursor stands on one of its cells (on the first cell where the
    /// region has no width).
    pub open spec fn wf(self) -> bool {
        &&& 1 <= self.height() <= usize::MAX
        &&& self.width() <= usize::MAX
        &&& 0 <= self.row < self.height()
        &&& self.column == 0 || 0 < self.column < self.width()
    }

    /// The rectangle that the text spans.
    pub open spec fn region(self) -> Region {
        Region::new(0, 0, self.width() as usize, self.height() as usize)
    }

    /// The character under the cursor, if the row reaches that far.
    pub open spec fn cursor_char(self) -> Option<char> {
        if 0 <= self.column < self.line().len() {
            Some(self.line()[self.column])
        } else {
            None
        }
    }

    /// The same model with the cursor in another column.
    pub open spec fn at_column(self, column: int) -> ModelView {
        ModelView { column, ..self }
    }

    /// The same model with the cursor in another row.
    pub open spec fn at_row(self, row: int) -> ModelView {
        ModelView { row, ..self }
    }

    /// The same model with another shape of the cursor.
    pub open spec fn with_shape(self, shape: CursorShape) -> ModelView {
        ModelView { shape, ..self }
    }

    /// The column to which a step to the left leads: the one before the
    /// cursor, or the cursor's own in column zero.
    pub open spec fn left_column(self) -> int {
        if self.column > 0 {
            self.column - 1
        } else {
            self.column
        }
    }

    /// The column to which a step to the right leads: the one behind the
    /// cursor, or the cursor's own in the last column of the content region.
    pub open spec fn right_column(self) -> int {
        if self.column + 1 < self.width() {
            self.column + 1
        } else {
            self.column
        }
    }

    /// The row to which a step up leads: the one above the cursor, or the
    /// cursor's own in row zero.
    pub open spec fn upper_row(self) -> int {
        if self.row > 0 {
            self.row - 1
        } else {
            self.row
        }
    }

    /// The row to which a step down leads: the one below the cursor, or the
    /// cursor's own in the last row.
    pub open spec fn lower_row(self) -> int {
        if self.row + 1 < self.height() {
            self.row + 1
        } else {
            self.row
        }
    }

    /// The first column of the cursor's cell.
    pub open spec fn cell_start_column(self) -> int {
        cell_first(self.line(), self.column)
    }

    /// The last column of the cursor's cell before the border that ends it,
    /// or the cursor's own column where the cursor stands on that border or
    /// behind the row.
    pub open spec fn cell_end_column(self) -> int {
        let stop = cell_stop(self.line(), self.column);
        if stop > self.column {
            stop - 1
        } else {
            self.column
        }
    }

    /// The first column of the next cell: the column behind the border that
    /// ends the cursor's cell.  Where the row ends with the cursor's cell or
    /// with its border, it is the cursor's own column.
    pub open spec fn cell_next_column(self) -> int {
        let stop = cell_stop(self.line(), self.column);
        if stop + 1 < self.line().len() {
            stop + 1
        } else {
            self.column
        }
    }

    /// The first column of the cell before the cursor's cell, or the
    /// cursor's own column where its cell is the first of the row.
    pub open spec fn cell_prev_column(self) -> int {
        let first = cell_first(self.line(), self.column);
        if first > 0 {
            cell_first(self.line(), first - 1)
        } else {
            self.column
        }
    }

    /// The column of the row's first character: zero.
    pub open spec fn row_start_column(self) -> int {
        0
    }

    /// The column of the row's last character, or zero for an empty row.
    pub open spec fn row_end_column(self) -> int {
        if self.line().len() == 0 {
            0
        } else {
            self.line().len() - 1
        }
    }

    /// The shape that follows the cursor's in the circle bar, block,
    /// underscore.
    pub open spec fn next_shape(self) -> CursorShape {
        match self.shape {
            CursorShape::Bar => CursorShape::Block,
            CursorShape::Block => CursorShape::Underscore,
            CursorShape::Underscore => CursorShape::Bar,
        }
    }

    /// A block for a bar, and a bar for every other shape.
    pub open spec fn bar_or_block(self) -> CursorShape {
        match self.shape {
            CursorShape::Bar => CursorShape::Block,
            _ => CursorShape::Bar,
        }
    }
}

/// The text and the cursor of an editing surface.
pub struct Model {
    rows: Vec<Vec<char>>,
    width: usize,
    column: usize,
    row: usize,
    shape: CursorShape,
}

impl View for Model {
    type V = ModelView;

    closed spec fn view(&self) -> ModelView {
        ModelView {
            rows: grid_of(self.rows@),
            column: self.column as int,
            row: self.row as int,
            shape: self.shape,
        }
    }
}

/// The cursor of a well-formed model stands between the edges of the content
/// region.
pub proof fn lemma_cursor_in_region(model: ModelView)
    requires
        model.wf(),
    ensures
        model.region().spans_column(model.column),
        model.region().spans_row(model.row),
{
}

impl Model {
    #[verifier::type_invariant]
    spec fn inv(&self) -> bool {
        &&& self@.wf()
        &&& self.width == self@.width()
    }

    /// Loads a text and puts a bar cursor on its first cell.
    pub fn new(content: String) -> (model: Model)
        ensures
            model@ == ModelView::initial(content@),
            model@.wf(),
    {
        let (rows, width) = split_rows(content.as_str());
        Model { rows, width, column: 0, row: 0, shape: CursorShape::Bar }
    }

    /// The rows of the text.
    pub fn content(&self) -> (rows: &[Vec<char>])
        ensures
            grid_of(rows@) == self@.rows,
    {
        self.rows.as_slice()
    }

    /// The rectangle that the text spans: it starts at the origin, is as
    /// wide as the longest row and as high as the number of rows.
    pub fn content_region(&self) -> (region: Region)
        ensures
            region == self@.region(),
            self@.wf(),
    {
        proof {
            use_type_invariant(self);
        }
        Region::new(0, 0, self.width, self.rows.len())
    }

    /// The cursor's column and row.
    pub fn cursor_position(&self) -> (position: (usize, usize))
        ensures
            position.0 == self@.column,
            position.1 == self@.row,
            self@.wf(),
    {
        proof {
            use_type_invariant(self);
        }
        (self.column, self.row)
    }

    /// The character under the cursor; none where the cursor stands behind
    /// the last character of its row.
    pub fn cursor_char(&self) -> (found: Option<char>)
        ensures
            found == self@.cursor_char(),
    {
        proof {
            use_type_invariant(self);
        }
        let line = &self.rows[self.row];
        if self.column < line.len() {
            Some(line[self.column])
        } else {
            None
        }
    }

    /// Puts the cursor into another column of its row and says whether that
    /// is a move.
    fn jump(&mut self, column: usize) -> (moved: bool)
        requires
            column == 0 || column < old(self)@.width(),
        ensures
            final(self)@ == old(self)@.at_column(column as int),
            moved == (column != old(self)@.column),
            old(self)@.wf(),
            final(self)@.wf(),
    {
        proof {
            use_type_invariant(&*self);
        }
        let moved = column != self.column;
        self.column = column;
        moved
    }

    /// Puts the cursor into another row and says whether that is a move.
    fn climb(&mut self, row: usize) -> (moved: bool)
        requires
            row < old(self)@.height(),
        ensures
            final(self)@ == old(self)@.at_row(row as int),
            moved == (row != old(self)@.row),
            old(self)@.wf(),
            final(self)@.wf(),
    {
        proof {
            use_type_invariant(&*self);
        }
        let moved = row != self.row;
        self.row = row;
        moved
    }

    /// Moves the cursor one column to the left, unless it stands in column
    /// zero.
    pub fn cursor_move_left(&mut self) -> (moved: bool)
        ensures
            final(self)@ == old(self)@.at_column(old(self)@.left_column()),
            moved == (old(self)@.column > 0),
            old(self)@.wf(),
            final(self)@.wf(),
    {
        proof {
            use_type_invariant(&*self);
        }
        let column = if self.column > 0 {
            self.column - 1
        } else {
            self.column
        };
        self.jump(column)
    }

    /// Moves the cursor one column to the right, unless it stands in the
    /// last column of the content region.
    pub fn cursor_move_right(&mut self) -> (moved: bool)
        ensures
            final(self)@ == old(self)@.at_column(old(self)@.right_column()),
            moved == (old(self)@.column + 1 < old(self)@.width()),
            old(self)@.wf(),
            final(self)@.wf(),
    {
        proof {
            use_type_invariant(&*self);
        }
        let column = if self.column < self.width && self.column + 1 < self.width {
            self.column + 1
        } else {
            self.column
        };
        self.jump(column)
    }

    /// Moves the cursor one row up, unless it stands in row zero.
    pub fn cursor_move_up(&mut self) -> (moved: bool)
        ensures
            final(self)@ == old(self)@.at_row(old(self)@.upper_row()),
            moved == (old(self)@.row > 0),
            old(self)@.wf(),
            final(self)@.wf(),
    {
        proof {
            use_type_invariant(&*self);
        }
        let row = if self.row > 0 {
            self.row - 1
        } else {
            self.row
        };
        self.climb(row)
    }

    /// Moves the cursor one row down, unless it stands in the last row.
    pub fn cursor_move_down(&mut self) -> (moved: bool)
        ensures
            final(self)@ == old(self)@.at_row(old(self)@.lower_row()),
            moved == (old(self)@.row + 1 < old(self)@.height()),
            old(self)@.wf(),
            final(self)@.wf(),
    {
        proof {
            use_type_invariant(&*self);
        }
        let row = if self.row + 1 < self.rows.len() {
            self.row + 1
        } else {
            self.row
        };
        self.climb(row)
    }

    /// Moves the cursor to the first column of its cell, unless it stands
    /// there.
    pub fn cursor_move_cell_start(&mut self) -> (moved: bool)
        ensures
            final(self)@ == old(self)@.at_column(old(self)@.cell_start_column()),
            moved == (old(self)@.cell_start_column() != old(self)@.column),
            old(self)@.wf(),
            final(self)@.wf(),
    {
        proof {
            use_type_invariant(&*self);
        }
        let column = first_of_cell(&self.rows[self.row], self.column);
        self.jump(column)
    }

    /// Moves the cursor to the last column of its cell before the border,
    /// unless it stands there, on the border or behind the row.
    pub fn cursor_move_cell_end(&mut self) -> (moved: bool)
        ensures
            final(self)@ == old(self)@.at_column(old(self)@.cell_end_column()),
            moved == (old(self)@.cell_end_column() != old(self)@.column),
            old(self)@.wf(),
            final(self)@.wf(),
    {
        proof {
            use_type_invariant(&*self);
            lemma_widest_bounds(self@.rows, self@.row);
        }
        let stop = stop_of_cell(&self.rows[self.row], self.column);
        let column = if stop > self.column {
            stop - 1
        } else {
            self.column
        };
        self.jump(column)
    }

    /// Moves the cursor to the first column of the next cell, unless the
    /// cursor's cell is the last of its row.
    pub fn cursor_move_cell_next(&mut self) -> (moved: bool)
        ensures
            final(self)@ == old(self)@.at_column(old(self)@.cell_next_column()),
            moved == (old(self)@.cell_next_column() != old(self)@.column),
            old(self)@.wf(),
            final(self)@.wf(),
    {
        proof {
            use_type_invariant(&*self);
            lemma_widest_bounds(self@.rows, self@.row);
        }
        let line = &self.rows[self.row];
        let stop = stop_of_cell(line, self.column);
        let column = if stop < line.len() && stop + 1 < line.len() {
            stop + 1
        } else {
            self.column
        };
        self.jump(column)
    }

    /// Moves the cursor to the first column of the cell before its own,
    /// unless the cursor's cell is the first of its row.
    pub fn cursor_move_cell_prev(&mut self) -> (moved: bool)
        ensures
            final(self)@ == old(self)@.at_column(old(self)@.cell_prev_column()),
            moved == (old(self)@.cell_prev_column() != old(self)@.column),
            old(self)@.wf(),
            final(self)@.wf(),
    {
        proof {
            use_type_invariant(&*self);
        }
        let line = &self.rows[self.row];
        let first = first_of_cell(line, self.column);
        let column = if first > 0 {
            first_of_cell(line, first - 1)
        } else {
            self.column
        };
        self.jump(column)
    }

    /// Moves the cursor to the first column of its row, unless it stands
    /// there.
    pub fn cursor_move_row_start(&mut self) -> (moved: bool)
        ensures
            final(self)@ == old(self)@.at_column(old(self)@.row_start_column()),
            moved == (old(self)@.column != 0),
            old(self)@.wf(),
            final(self)@.wf(),
    {
        self.jump(0)
    }

    /// Moves the cursor onto the last character of its row, or into column
    /// zero of an empty row, unless it stands there.
    pub fn cursor_move_row_end(&mut self) -> (moved: bool)
        ensures
            final(self)@ == old(self)@.at_column(old(self)@.row_end_column()),
            moved == (old(self)@.row_end_column() != old(self)@.column),
            old(self)@.wf(),
            final(self)@.wf(),
    {
        proof {
            use_type_invariant(&*self);
            lemma_widest_bounds(self@.rows, self@.row);
        }
        let length = self.rows[self.row].len();
        let column = if length == 0 {
            0
        } else {
            length - 1
        };
        self.jump(column)
    }

    /// Gives the cursor the next shape of the circle bar, block, underscore.
    pub fn cursor_toggle(&mut self)
        ensures
            final(self)@ == old(self)@.with_shape(old(self)@.next_shape()),
    {
        proof {
            use_type_invariant(&*self);
        }
        self.shape = match self.shape {
            CursorShape::Bar => CursorShape::Block,
            CursorShape::Block => CursorShape::Underscore,
            CursorShape::Underscore => CursorShape::Bar,
        };
    }

    /// Turns a bar into a block, and every other shape into a bar.
    pub fn cursor_toggle_bar_block(&mut self)
        ensures
            final(self)@ == old(self)@.with_shape(old(self)@.bar_or_block()),
    {
        proof {
            use_type_invariant(&*self);
        }
        self.shape = match self.shape {
            CursorShape::Bar => CursorShape::Block,
            _ => CursorShape::Bar,
        };
    }

    /// Whether the cursor is a bar.
    pub fn cursor_is_bar(&self) -> (bar: bool)
        ensures
            bar == (self@.shape == CursorShape::Bar),
    {
        self.shape == CursorShape::Bar
    }

    /// Whether the cursor is a block.
    pub fn cursor_is_block(&self) -> (block: bool)
        ensures
            block == (self@.shape == CursorShape::Block),
    {
        self.shape == CursorShape::Block
    }

    /// Whether the cursor is an underscore.
    pub fn cursor_is_underscore(&self) -> (underscore: bool)
        ensures
            underscore == (self@.shape == CursorShape::Underscore),
    {
        self.shape == CursorShape::Underscore
    }
}

} // verus!
