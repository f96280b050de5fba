//! The controller of an editing surface: a text with its cursor, and the
//! viewport through which the text is seen.
//!
//! The viewport's size changes only when the surface is resized.  Its
//! offset changes only when the cursor steps to a neighbouring cell that
//! lies outside the viewport: then the viewport follows by one cell,
//! provided that its edge on that side has not yet reached the edge of the
//! content region.

use crate::model::{CursorShape, Model, ModelView};
use crate::movement::Movement;
use crate::region::Region;
use crate::text::grid_of;
use vstd::prelude::*;

verus! {

broadcast use crate::region::lemma_new_fields;

/// What a controller holds: the text with its cursor, and the viewport.
pub struct ControllerView {
    pub model: ModelView,
    pub viewport: Region,
}

impl ControllerView {
    /// The controller of a text that was just loaded, with a viewport of
    /// the given size at the origin.
    pub open spec fn initial(text: Seq<char>, width: usize, height: usize) -> ControllerView {
        ControllerView {
            model: ModelView::initial(text),
            viewport: Region::new(0, 0, width, height),
        }
    }

    /// Whether the cursor stands between the edges of the viewport.
    pub open spec fn cursor_visible(self) -> bool {
        self.viewport.spans_column(self.model.column) && self.viewport.spans_row(self.model.row)
    }

    /// The same controller with the cursor elsewhere in its row.
    pub open spec fn at_column(self, column: int) -> ControllerView {
        ControllerView { model: self.model.at_column(column), ..self }
    }

    /// The strip that a resize to the given size exposes at the right of
    /// the old viewport, over the new height; nothing unless the viewport
    /// gets wider.
    pub open spec fn exposed_right(self, width: usize, height: usize) -> Seq<Region> {
        let old_width = self.viewport.width();
        if width > old_width {
            seq![Region::new(old_width, 0, (width - old_width) as usize, height)]
        } else {
            Seq::empty()
        }
    }

    /// The strip that a resize to the given size exposes below the old
    /// viewport, over the new width; nothing unless the viewport gets
    /// higher.
    pub open spec fn exposed_below(self, width: usize, height: usize) -> Seq<Region> {
        let old_height = self.viewport.height();
        if height > old_height {
            seq![Region::new(0, old_height, width, (height - old_height) as usize)]
        } else {
            Seq::empty()
        }
    }

    /// The parts of the screen that a resize to the given size exposes: the
    /// strip at the right, if any, and then the strip below, if any.
    pub open spec fn exposed(self, width: usize, height: usize) -> Seq<Region> {
        self.exposed_right(width, height) + self.exposed_below(width, height)
    }

    /// Whether the viewport follows a cursor that steps to the left: its
    /// left edge lies to the right of the content region's, and the cursor
    /// comes to stand before it.
    pub open spec fn scrolls_left(self) -> bool {
        &&& self.viewport.left() > self.model.region().left()
        &&& self.model.left_column() < self.viewport.left()
    }

    /// Whether the viewport follows a cursor that steps to the right: its
    /// right edge lies to the left of the content region's, and the cursor
    /// comes to stand behind it.
    pub open spec fn scrolls_right(self) -> bool {
        &&& self.viewport.right() < self.model.region().right()
        &&& self.model.right_column() > self.viewport.right()
    }

    /// Whether the viewport follows a cursor that steps up: its top edge
    /// lies below the content region's, and the cursor comes to stand above
    /// it.
    pub open spec fn scrolls_up(self) -> bool {
        &&& self.viewport.top() > self.model.region().top()
        &&& self.model.upper_row() < self.viewport.top()
    }

    /// Whether the viewport follows a cursor that steps down: its bottom
    /// edge lies above the content region's, and the cursor comes to stand
    /// below it.
    pub open spec fn scrolls_down(self) -> bool {
        &&& self.viewport.bottom() < self.model.region().bottom()
        &&& self.model.lower_row() > self.viewport.bottom()
    }

    /// What a step to the left does: nothing in column zero; else it moves
    /// the cursor, and the viewport where that follows.
    pub open spec fn left_movement(self) -> Movement {
        Movement::of(self.model.column > 0, self.scrolls_left())
    }

    /// What a step to the right does: nothing in the last column of the
    /// content region; else it moves the cursor, and the viewport where
    /// that follows.
    pub open spec fn right_movement(self) -> Movement {
        Movement::of(self.model.column + 1 < self.model.width(), self.scrolls_right())
    }

    /// What a step up does: nothing in row zero; else it moves the cursor,
    /// and the viewport where that follows.
    pub open spec fn up_movement(self) -> Movement {
        Movement::of(self.model.row > 0, self.scrolls_up())
    }

    /// What a step down does: nothing in the last row; else it moves the
    /// cursor, and the viewport where that follows.
    pub open spec fn down_movement(self) -> Movement {
        Movement::of(self.model.row + 1 < self.model.height(), self.scrolls_down())
    }

    /// The controller after a step to the left: the cursor stands one
    /// column further left if there is one, and the viewport too if it
    /// follows.
    pub open spec fn stepped_left(self) -> ControllerView {
        ControllerView {
            model: self.model.at_column(self.model.left_column()),
            viewport: if self.left_movement() == Movement::MovedAndScrolled {
                self.viewport.shifted_left(1)
            } else {
                self.viewport
            },
        }
    }

    /// The controller after a step to the right: the cursor stands one
    /// column further right if there is one, and the viewport too if it
    /// follows.
    pub open spec fn stepped_right(self) -> ControllerView {
        ControllerView {
            model: self.model.at_column(self.model.right_column()),
            viewport: if self.right_movement() == Movement::MovedAndScrolled {
                self.viewport.shifted_right(1)
            } else {
                self.viewport
            },
        }
    }

    /// The controller after a step up: the cursor stands one row higher if
    /// there is one, and the viewport too if it follows.
    pub open spec fn stepped_up(self) -> ControllerView {
        ControllerView {
            model: self.model.at_row(self.model.upper_row()),
            viewport: if self.up_movement() == Movement::MovedAndScrolled {
                self.viewport.shifted_up(1)
            } else {
                self.viewport
            },
        }
    }

    /// The controller after a step down: the cursor stands one row lower
    /// if there is one, and the viewport too if it follows.
    pub open spec fn stepped_down(self) -> ControllerView {
        ControllerView {
            model: self.model.at_row(self.model.lower_row()),
            viewport: if self.down_movement() == Movement::MovedAndScrolled {
                self.viewport.shifted_down(1)
            } else {
                self.viewport
            },
        }
    }

    /// What a jump to a column of the cursor's row does: nothing where the
    /// cursor stands in that column already; else it moves the cursor, and
    /// never the viewport.
    pub open spec fn jump_movement(self, column: int) -> Movement {
        Movement::of(column != self.model.column, false)
    }
}

/// A text with its cursor under a viewport.
pub struct Controller {
    /// The text and its cursor.
    model: Model,
    /// The part of the text that is seen.
    viewport: Region,
}

impl View for Controller {
    type V = ControllerView;

    closed spec fn view(&self) -> ControllerView {
        ControllerView { model: self.model@, viewport: self.viewport }
    }
}

impl Controller {
    /// Loads a text and opens a viewport of the given size at the origin.
    pub fn new(content: String, width: usize, height: usize) -> (controller: Self)
        ensures
            controller@ == ControllerView::initial(content@, width, height),
            controller@.model.wf(),
    {
        let model = Model::new(content);
        let viewport = Region::new(0, 0, width, height);
        Self { model, viewport }
    }

    /// The viewport.
    pub fn viewport(&self) -> (viewport: &Region)
        ensures
            *viewport == self@.viewport,
    {
        &self.viewport
    }

    /// Gives the viewport another size at the same offset and returns the
    /// parts of the screen that the change has exposed: first the strip at
    /// the right, then the strip below.  A direction in which the viewport
    /// does not grow adds nothing.
    pub fn resize(&mut self, width: usize, height: usize) -> (dirties: Vec<Region>)
        ensures
            final(self)@.model == old(self)@.model,
            final(self)@.viewport == old(self)@.viewport.resized(width, height),
            final(self)@.viewport.offset() == old(self)@.viewport.offset(),
            final(self)@.viewport.size() == (width, height),
            dirties@ == old(self)@.exposed(width, height),
            width <= old(self)@.viewport.width() ==> dirties@ == old(self)@.exposed_below(
                width,
                height,
            ),
            height <= old(self)@.viewport.height() ==> dirties@ == old(self)@.exposed_right(
                width,
                height,
            ),
            width <= old(self)@.viewport.width() && height <= old(self)@.viewport.height()
                ==> dirties@.len() == 0,
    {
        let mut dirties = Vec::new();
        if width > self.viewport.width() {
            dirties.push(
                Region::new(
                    self.viewport.width(),
                    0,
                    width.saturating_sub(self.viewport.width()),
                    height,
                ),
            );
        }
        if height > self.viewport.height() {
            dirties.push(
                Region::new(
                    0,
                    self.viewport.height(),
                    width,
                    height.saturating_sub(self.viewport.height()),
                ),
            );
        }
        self.viewport.resize(width, height);
        dirties
    }

    /// The cursor's column and row in the text.
    pub fn cursor_position(&self) -> (position: (usize, usize))
        ensures
            position.0 == self@.model.column,
            position.1 == self@.model.row,
            self@.model.wf(),
    {
        self.model.cursor_position()
    }

    /// The rows of the text.
    pub fn content(&self) -> (rows: &[Vec<char>])
        ensures
            grid_of(rows@) == self@.model.rows,
    {
        self.model.content()
    }

    /// The rectangle that the text spans: it starts at the origin, is as
    /// wide as the longest row and as high as the number of rows.
    pub fn content_region(&mut self) -> (region: Region)
        ensures
            region == old(self)@.model.region(),
            final(self)@ == old(self)@,
            old(self)@.model.wf(),
    {
        self.model.content_region()
    }

    /// Moves the cursor one column to the left and lets the viewport follow
    /// it.  Returns nothing where the cursor could not move, and else
    /// whether the viewport has scrolled.
    pub fn cursor_move_left(&mut self) -> (outcome: Option<bool>)
        ensures
            outcome == old(self)@.left_movement().to_option(),
            final(self)@ == old(self)@.stepped_left(),
            final(self)@.model.wf(),
            outcome is None <==> final(self)@ == old(self)@,
            outcome == Some(true) <==> final(self)@.viewport != old(self)@.viewport,
            final(self)@.viewport.size() == old(self)@.viewport.size(),
            old(self)@.cursor_visible() ==> final(self)@.cursor_visible(),
    {
        if self.model.cursor_move_left() {
            let (x, _) = self.cursor_position();
            if self.viewport.left() > self.content_region().left() {
                if self.viewport.adjust_left(x, 1) {
                    return Some(true);
                }
            }
            return Some(false);
        }
        None
    }

    /// Moves the cursor one column to the right and lets the viewport
    /// follow it.  Returns nothing where the cursor could not move, and
    /// else whether the viewport has scrolled.  A viewport that scrolls
    /// does not pass the right edge of the content region.
    pub fn cursor_move_right(&mut self) -> (outcome: Option<bool>)
        ensures
            outcome == old(self)@.right_movement().to_option(),
            final(self)@ == old(self)@.stepped_right(),
            final(self)@.model.wf(),
            outcome is None <==> final(self)@ == old(self)@,
            outcome == Some(true) <==> final(self)@.viewport != old(self)@.viewport,
            final(self)@.viewport.size() == old(self)@.viewport.size(),
            old(self)@.cursor_visible() ==> final(self)@.cursor_visible(),
            outcome == Some(true) ==> final(self)@.viewport.right()
                <= final(self)@.model.region().right(),
    {
        if self.model.cursor_move_right() {
            let (x, _) = self.cursor_position();
            if self.viewport.right() < self.content_region().right() {
                if self.viewport.adjust_right(x, 1) {
                    return Some(true);
                }
            }
            return Some(false);
        }
        None
    }

    /// Moves the cursor one row up and lets the viewport follow it.
    /// Returns nothing where the cursor could not move, and else whether
    /// the viewport has scrolled.
    pub fn cursor_move_up(&mut self) -> (outcome: Option<bool>)
        ensures
            outcome == old(self)@.up_movement().to_option(),
            final(self)@ == old(self)@.stepped_up(),
            final(self)@.model.wf(),
            outcome is None <==> final(self)@ == old(self)@,
            outcome == Some(true) <==> final(self)@.viewport != old(self)@.viewport,
            final(self)@.viewport.size() == old(self)@.viewport.size(),
            old(self)@.cursor_visible() ==> final(self)@.cursor_visible(),
    {
        if self.model.cursor_move_up() {
            let (_, y) = self.cursor_position();
            if self.viewport.top() > self.content_region().top() {
                if self.viewport.adjust_up(y, 1) {
                    return Some(true);
                }
            }
            return Some(false);
        }
        None
    }

    /// Moves the cursor one row down and lets the viewport follow it.
    /// Returns nothing where the cursor could not move, and else whether
    /// the viewport has scrolled.  A viewport that scrolls does not pass
    /// the bottom edge of the content region.
    pub fn cursor_move_down(&mut self) -> (outcome: Option<bool>)
        ensures
            outcome == old(self)@.down_movement().to_option(),
            final(self)@ == old(self)@.stepped_down(),
            final(self)@.model.wf(),
            outcome is None <==> final(self)@ == old(self)@,
            outcome == Some(true) <==> final(self)@.viewport != old(self)@.viewport,
            final(self)@.viewport.size() == old(self)@.viewport.size(),
            old(self)@.cursor_visible() ==> final(self)@.cursor_visible(),
            outcome == Some(true) ==> final(self)@.viewport.bottom()
                <= final(self)@.model.region().bottom(),
    {
        if self.model.cursor_move_down() {
            let (_, y) = self.cursor_position();
            if self.viewport.bottom() < self.content_region().bottom() {
                if self.viewport.adjust_down(y, 1) {
                    return Some(true);
                }
            }
            return Some(false);
        }
        None
    }

    /// Moves the cursor to the first column of its cell.  Returns nothing
    /// where the cursor stands there already, and else that the viewport
    /// has not scrolled.
    pub fn cursor_move_cell_start(&mut self) -> (outcome: Option<bool>)
        ensures
            outcome == old(self)@.jump_movement(old(self)@.model.cell_start_column()).to_option(),
            final(self)@ == old(self)@.at_column(old(self)@.model.cell_start_column()),
            final(self)@.model.wf(),
            outcome is None <==> final(self)@ == old(self)@,
            outcome != Some(true),
    {
        if self.model.cursor_move_cell_start() {
            return Some(false);
        }
        None
    }

    /// Moves the cursor to the last column of its cell before the border.
    /// Returns nothing where the cursor could not move, and else that the
    /// viewport has not scrolled.
    pub fn cursor_move_cell_end(&mut self) -> (outcome: Option<bool>)
        ensures
            outcome == old(self)@.jump_movement(old(self)@.model.cell_end_column()).to_option(),
            final(self)@ == old(self)@.at_column(old(self)@.model.cell_end_column()),
            final(self)@.model.wf(),
            outcome is None <==> final(self)@ == old(self)@,
            outcome != Some(true),
    {
        if self.model.cursor_move_cell_end() {
            return Some(false);
        }
        None
    }

    /// Moves the cursor to the first column of the next cell.  Returns
    /// nothing where the cursor's cell is the last of its row, and else
    /// that the viewport has not scrolled.
    pub fn cursor_move_cell_next(&mut self) -> (outcome: Option<bool>)
        ensures
            outcome == old(self)@.jump_movement(old(self)@.model.cell_next_column()).to_option(),
            final(self)@ == old(self)@.at_column(old(self)@.model.cell_next_column()),
            final(self)@.model.wf(),
            outcome is None <==> final(self)@ == old(self)@,
            outcome != Some(true),
    {
        if self.model.cursor_move_cell_next() {
            return Some(false);
        }
        None
    }

    /// Moves the cursor to the first column of the cell before its own.
    /// Returns nothing where the cursor's cell is the first of its row, and
    /// else that the viewport has not scrolled.
    pub fn cursor_move_cell_prev(&mut self) -> (outcome: Option<bool>)
        ensures
            outcome == old(self)@.jump_movement(old(self)@.model.cell_prev_column()).to_option(),
            final(self)@ == old(self)@.at_column(old(self)@.model.cell_prev_column()),
            final(self)@.model.wf(),
            outcome is None <==> final(self)@ == old(self)@,
            outcome != Some(true),
    {
        if self.model.cursor_move_cell_prev() {
            return Some(false);
        }
        None
    }

    /// Moves the cursor to the first column of its row.  Returns nothing
    /// where the cursor stands there already, and else that the viewport
    /// has not scrolled.
    pub fn cursor_move_row_start(&mut self) -> (outcome: Option<bool>)
        ensures
            outcome == old(self)@.jump_movement(old(self)@.model.row_start_column()).to_option(),
            final(self)@ == old(self)@.at_column(old(self)@.model.row_start_column()),
            final(self)@.model.wf(),
            outcome is None <==> final(self)@ == old(self)@,
            outcome != Some(true),
    {
        if self.model.cursor_move_row_start() {
            return Some(false);
        }
        None
    }

    /// Moves the cursor onto the last character of its row.  Returns
    /// nothing where the cursor stands there already, and else that the
    /// viewport has not scrolled.
    pub fn cursor_move_row_end(&mut self) -> (outcome: Option<bool>)
        ensures
            outcome == old(self)@.jump_movement(old(self)@.model.row_end_column()).to_option(),
            final(self)@ == old(self)@.at_column(old(self)@.model.row_end_column()),
            final(self)@.model.wf(),
            outcome is None <==> final(self)@ == old(self)@,
            outcome != Some(true),
    {
        if self.model.cursor_move_row_end() {
            return Some(false);
        }
        None
    }

    /// Gives the cursor the next shape of the circle bar, block, underscore.
    pub fn cursor_toggle(&mut self)
        ensures
            final(self)@.model == old(self)@.model.with_shape(old(self)@.model.next_shape()),
            final(self)@.viewport == old(self)@.viewport,
    {
        self.model.cursor_toggle();
    }

    /// Turns a bar cursor into a block, and every other cursor into a bar.
    pub fn cursor_toggle_bar_block(&mut self)
        ensures
            final(self)@.model == old(self)@.model.with_shape(old(self)@.model.bar_or_block()),
            final(self)@.viewport == old(self)@.viewport,
    {
        self.model.cursor_toggle_bar_block();
    }

    /// Whether the cursor is a bar.
    pub fn cursor_is_bar(&self) -> (bar: bool)
        ensures
            bar == (self@.model.shape == CursorShape::Bar),
    {
        self.model.cursor_is_bar()
    }

    /// Whether the cursor is a block.
    pub fn cursor_is_block(&self) -> (block: bool)
        ensures
            block == (self@.model.shape == CursorShape::Block),
    {
        self.model.cursor_is_block()
    }

    /// Whether the cursor is an underscore.
    pub fn cursor_is_underscore(&self) -> (underscore: bool)
        ensures
            underscore == (self@.model.shape == CursorShape::Underscore),
    {
        self.model.cursor_is_underscore()
    }

    /// The character under the cursor; none where the cursor stands behind
    /// the last character of its row.
    pub fn cursor_char(&self) -> (found: Option<char>)
        ensures
            found == self@.model.cursor_char(),
    {
        self.model.cursor_char()
    }
}

} // verus!
