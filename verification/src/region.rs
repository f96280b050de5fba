//! Axis-aligned rectangles on a grid of cells.
//!
//! A [`Region`] is an offset (`left`, `top`) and a size (`width`, `height`),
//! all of them unsigned.  Every derived quantity saturates instead of
//! wrapping: the far edges stop at `usize::MAX`, and the edges of a region
//! without extent fall onto its offset.

use crate::digits::{decimal, to_decimal};
use vstd::prelude::*;
use vstd::string::StringExecFns;

verus! {

/// A rectangle given by the cell of its top-left corner and by its extents.
#[derive(Debug, Copy, Clone, PartialEq, Eq, Structural)]
pub struct Region {
    left: usize,
    top: usize,
    width: usize,
    height: usize,
}

/// The larger of two coordinates.
pub open spec fn larger(a: usize, b: usize) -> usize {
    if b > a {
        b
    } else {
        a
    }
}

/// The smaller of two coordinates.
pub open spec fn smaller(a: usize, b: usize) -> usize {
    if b < a {
        b
    } else {
        a
    }
}

/// The number of cells from `first` to `last`, both included: zero when
/// `last` lies before `first`, and never more than `usize::MAX`.
pub open spec fn span(first: usize, last: usize) -> usize {
    if last < first {
        0
    } else if last - first + 1 > usize::MAX {
        usize::MAX
    } else {
        (last - first + 1) as usize
    }
}

impl Region {
    /// The region with the given offset and size.
    pub closed spec fn spec_new(left: usize, top: usize, width: usize, height: usize) -> Region {
        Region { left, top, width, height }
    }

    /// The column of the leftmost cells.
    pub closed spec fn spec_left(&self) -> usize {
        self.left
    }

    /// The row of the topmost cells.
    pub closed spec fn spec_top(&self) -> usize {
        self.top
    }

    /// The number of columns.
    pub closed spec fn spec_width(&self) -> usize {
        self.width
    }

    /// The number of rows.
    pub closed spec fn spec_height(&self) -> usize {
        self.height
    }

    /// The column of the rightmost cells, `left + (width - 1)` with both
    /// operations saturating.
    pub open spec fn spec_right(&self) -> usize {
        self.left().saturating_add(self.width().saturating_sub(1))
    }

    /// The row of the bottommost cells, `top + (height - 1)` with both
    /// operations saturating.
    pub open spec fn spec_bottom(&self) -> usize {
        self.top().saturating_add(self.height().saturating_sub(1))
    }

    /// The pair `(left, top)`.
    pub open spec fn spec_offset(&self) -> (usize, usize) {
        (self.left(), self.top())
    }

    /// The pair `(width, height)`.
    pub open spec fn spec_size(&self) -> (usize, usize) {
        (self.width(), self.height())
    }

    /// This region with another size at the same offset.
    pub open spec fn resized(&self, width: usize, height: usize) -> Region {
        Region::new(self.left(), self.top(), width, height)
    }

    /// This region moved `step` columns to the left, as far as column zero.
    pub open spec fn shifted_left(&self, step: usize) -> Region {
        Region::new(self.left().saturating_sub(step), self.top(), self.width(), self.height())
    }

    /// This region moved `step` columns to the right, as far as `usize::MAX`.
    pub open spec fn shifted_right(&self, step: usize) -> Region {
        Region::new(self.left().saturating_add(step), self.top(), self.width(), self.height())
    }

    /// This region moved `step` rows up, as far as row zero.
    pub open spec fn shifted_up(&self, step: usize) -> Region {
        Region::new(self.left(), self.top().saturating_sub(step), self.width(), self.height())
    }

    /// This region moved `step` rows down, as far as `usize::MAX`.
    pub open spec fn shifted_down(&self, step: usize) -> Region {
        Region::new(self.left(), self.top().saturating_add(step), self.width(), self.height())
    }

    /// Whether column `x` lies between the left and the right edge.
    pub open spec fn spans_column(&self, x: int) -> bool {
        self.left() <= x <= self.right()
    }

    /// Whether row `y` lies between the top and the bottom edge.
    pub open spec fn spans_row(&self, y: int) -> bool {
        self.top() <= y <= self.bottom()
    }

    /// The region written as `(left, top, width, height)`.
    pub open spec fn text(&self) -> Seq<char> {
        seq!['('] + decimal(self.left() as nat) + seq![',', ' '] + decimal(self.top() as nat)
            + seq![',', ' '] + decimal(self.width() as nat) + seq![',', ' '] + decimal(
            self.height() as nat,
        ) + seq![')']
    }

    /// The intersection of two regions, taken between their edges.
    pub open spec fn spec_clip(&self, other: &Region) -> Region {
        let left = larger(self.left(), other.left());
        let top = larger(self.top(), other.top());
        let right = smaller(self.right(), other.right());
        let bottom = smaller(self.bottom(), other.bottom());
        Region::new(left, top, span(left, right), span(top, bottom))
    }

    /// Whether the cell in column `x` of row `y` belongs to the region.
    pub open spec fn contains(&self, x: int, y: int) -> bool {
        &&& self.left() <= x < self.left() + self.width()
        &&& self.top() <= y < self.top() + self.height()
    }

    /// Whether two regions have a cell in common.
    pub open spec fn overlaps(&self, other: &Region) -> bool {
        exists|x: int, y: int| #[trigger] self.contains(x, y) && other.contains(x, y)
    }

    /// Whether the region has at least one cell.
    pub open spec fn is_occupied(&self) -> bool {
        self.width() >= 1 && self.height() >= 1
    }

    /// Whether the far edges are the true `left + width - 1` and
    /// `top + height - 1`, neither cut off at `usize::MAX`.
    pub open spec fn is_exact(&self) -> bool {
        &&& self.left() + self.width() - 1 <= usize::MAX
        &&& self.top() + self.height() - 1 <= usize::MAX
    }

    /// Creates a region; any offset and any size is accepted.
    #[verifier::when_used_as_spec(spec_new)]
    pub fn new(left: usize, top: usize, width: usize, height: usize) -> (region: Self)
        ensures
            region == Region::new(left, top, width, height),
            region.left() == left,
            region.top() == top,
            region.width() == width,
            region.height() == height,
    {
        Self { left, top, width, height }
    }

    /// The left edge.
    #[verifier::when_used_as_spec(spec_left)]
    pub fn left(&self) -> (left: usize)
        ensures
            left == self.left(),
    {
        self.left
    }

    /// The right edge.  It never lies before the left edge, and coincides
    /// with it when the region has no width.
    #[verifier::when_used_as_spec(spec_right)]
    pub fn right(&self) -> (right: usize)
        ensures
            right == self.right(),
            right >= self.left(),
            self.width() == 0 ==> right == self.left(),
            self.left() + self.width() - 1 <= usize::MAX && self.width() >= 1 ==> right
                == self.left() + self.width() - 1,
    {
        self.left.saturating_add(self.width.saturating_sub(1))
    }

    /// The top edge.
    #[verifier::when_used_as_spec(spec_top)]
    pub fn top(&self) -> (top: usize)
        ensures
            top == self.top(),
    {
        self.top
    }

    /// The bottom edge.  It never lies above the top edge, and coincides
    /// with it when the region has no height.
    #[verifier::when_used_as_spec(spec_bottom)]
    pub fn bottom(&self) -> (bottom: usize)
        ensures
            bottom == self.bottom(),
            bottom >= self.top(),
            self.height() == 0 ==> bottom == self.top(),
            self.top() + self.height() - 1 <= usize::MAX && self.height() >= 1 ==> bottom
                == self.top() + self.height() - 1,
    {
        self.top.saturating_add(self.height.saturating_sub(1))
    }

    /// The number of columns.
    #[verifier::when_used_as_spec(spec_width)]
    pub fn width(&self) -> (width: usize)
        ensures
            width == self.width(),
    {
        self.width
    }

    /// The number of rows.
    #[verifier::when_used_as_spec(spec_height)]
    pub fn height(&self) -> (height: usize)
        ensures
            height == self.height(),
    {
        self.height
    }

    /// The left and the top edge.
    #[verifier::when_used_as_spec(spec_offset)]
    pub fn offset(&self) -> (offset: (usize, usize))
        ensures
            offset == self.offset(),
            offset.0 == self.left(),
            offset.1 == self.top(),
    {
        (self.left, self.top)
    }

    /// The width and the height.
    #[verifier::when_used_as_spec(spec_size)]
    pub fn size(&self) -> (size: (usize, usize))
        ensures
            size == self.size(),
            size.0 == self.width(),
            size.1 == self.height(),
    {
        (self.width, self.height)
    }

    /// Gives the region another size and leaves its offset alone.
    pub fn resize(&mut self, width: usize, height: usize)
        ensures
            *final(self) == old(self).resized(width, height),
            final(self).offset() == old(self).offset(),
            final(self).size() == (width, height),
    {
        self.width = width;
        self.height = height;
    }

    /// Intersects two regions.  The result starts at the larger of the two
    /// left and top edges and reaches to the smaller of the two right and
    /// bottom edges; where these cross, the extent is zero.
    #[verifier::when_used_as_spec(spec_clip)]
    pub fn clip(&self, other: &Region) -> (clipped: Region)
        ensures
            clipped == self.clip(other),
            clipped.left() == larger(self.left(), other.left()),
            clipped.top() == larger(self.top(), other.top()),
            clipped.width() == span(clipped.left(), smaller(self.right(), other.right())),
            clipped.height() == span(clipped.top(), smaller(self.bottom(), other.bottom())),
    {
        let left = if other.left() > self.left() {
            other.left()
        } else {
            self.left()
        };
        let top = if other.top() > self.top() {
            other.top()
        } else {
            self.top()
        };
        let right = if other.right() < self.right() {
            other.right()
        } else {
            self.right()
        };
        let bottom = if other.bottom() < self.bottom() {
            other.bottom()
        } else {
            self.bottom()
        };
        let width = if right < left {
            0
        } else {
            (right - left).saturating_add(1)
        };
        let height = if bottom < top {
            0
        } else {
            (bottom - top).saturating_add(1)
        };
        Region { left, top, width, height }
    }

    /// Moves the region `step` columns to the left if column `x` lies before
    /// its left edge, and says whether the region moved.
    pub fn adjust_left(&mut self, x: usize, step: usize) -> (moved: bool)
        ensures
            moved == (x < old(self).left() && step > 0),
            *final(self) == if x < old(self).left() {
                old(self).shifted_left(step)
            } else {
                *old(self)
            },
            moved <==> *final(self) != *old(self),
    {
        if x < self.left && step > 0 {
            self.left = self.left.saturating_sub(step);
            true
        } else {
            false
        }
    }

    /// Moves the region `step` columns to the right if column `x` lies
    /// behind its right edge, and says whether the region moved.
    pub fn adjust_right(&mut self, x: usize, step: usize) -> (moved: bool)
        ensures
            moved == (x > old(self).right() && step > 0),
            *final(self) == if x > old(self).right() {
                old(self).shifted_right(step)
            } else {
                *old(self)
            },
            moved <==> *final(self) != *old(self),
    {
        if x > self.right() && step > 0 {
            self.left = self.left.saturating_add(step);
            true
        } else {
            false
        }
    }

    /// Moves the region `step` rows up if row `y` lies above its top edge,
    /// and says whether the region moved.
    pub fn adjust_up(&mut self, y: usize, step: usize) -> (moved: bool)
        ensures
            moved == (y < old(self).top() && step > 0),
            *final(self) == if y < old(self).top() {
                old(self).shifted_up(step)
            } else {
                *old(self)
            },
            moved <==> *final(self) != *old(self),
    {
        if y < self.top && step > 0 {
            self.top = self.top.saturating_sub(step);
            true
        } else {
            false
        }
    }

    /// Moves the region `step` rows down if row `y` lies below its bottom
    /// edge, and says whether the region moved.
    pub fn adjust_down(&mut self, y: usize, step: usize) -> (moved: bool)
        ensures
            moved == (y > old(self).bottom() && step > 0),
            *final(self) == if y > old(self).bottom() {
                old(self).shifted_down(step)
            } else {
                *old(self)
            },
            moved <==> *final(self) != *old(self),
    {
        if y > self.bottom() && step > 0 {
            self.top = self.top.saturating_add(step);
            true
        } else {
            false
        }
    }

    /// Writes the region as `(left, top, width, height)`, each number in
    /// decimal notation.
    pub fn to_string(&self) -> (text: String)
        ensures
            text@ == self.text(),
    {
        proof {
            reveal_strlit("(");
            reveal_strlit(", ");
            reveal_strlit(")");
        }
        let mut text = String::from_str("(");
        text.append(to_decimal(self.left).as_str());
        text.append(", ");
        text.append(to_decimal(self.top).as_str());
        text.append(", ");
        text.append(to_decimal(self.width).as_str());
        text.append(", ");
        text.append(to_decimal(self.height).as_str());
        text.append(")");
        text
    }
}

/// A region built from four numbers reports these numbers.
pub broadcast proof fn lemma_new_fields(left: usize, top: usize, width: usize, height: usize)
    ensures
        (#[trigger] Region::new(left, top, width, height)).left() == left,
        Region::new(left, top, width, height).top() == top,
        Region::new(left, top, width, height).width() == width,
        Region::new(left, top, width, height).height() == height,
{
}

/// A region is determined by its offset and its size.
pub proof fn lemma_same_fields(a: Region, b: Region)
    requires
        a.offset() == b.offset(),
        a.size() == b.size(),
    ensures
        a == b,
{
}

/// Clipping is symmetric: either order of the operands gives the same region.
pub proof fn lemma_clip_symmetric(a: Region, b: Region)
    ensures
        a.clip(&b) == b.clip(&a),
{
}

/// Clipping a region by itself gives the region back exactly when it has a
/// cell and its far edges are not cut off at `usize::MAX`.
pub proof fn lemma_clip_idempotent(a: Region)
    ensures
        a.clip(&a) == a <==> a.is_occupied() && a.is_exact(),
{
}

/// The intersection has no width or no height exactly when the spans between
/// the operands' edges miss each other in that direction, and then the
/// operands have no cell in common.
pub proof fn lemma_clip_empty(a: Region, b: Region)
    ensures
        a.clip(&b).width() == 0 <==> a.right() < b.left() || b.right() < a.left(),
        a.clip(&b).height() == 0 <==> a.bottom() < b.top() || b.bottom() < a.top(),
        a.clip(&b).width() == 0 || a.clip(&b).height() == 0 ==> !a.overlaps(&b),
{
}

/// Two regions that each have a cell and have no cell in common are clipped
/// to a region without width or without height.
pub proof fn lemma_clip_disjoint(a: Region, b: Region)
    requires
        a.is_occupied(),
        b.is_occupied(),
        !a.overlaps(&b),
    ensures
        a.clip(&b).width() == 0 || a.clip(&b).height() == 0,
{
    let c = a.clip(&b);
    if c.width() != 0 && c.height() != 0 {
        assert(a.contains(c.left() as int, c.top() as int));
    }
}

} // verus!
