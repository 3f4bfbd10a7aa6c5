//! Sizes and rectangles in cell coordinates.

use vstd::prelude::*;

verus! {

/// A width and a height, counted in cells. Either may be zero.
#[derive(Debug, Clone, Copy, PartialEq, Eq, PartialOrd, Ord, Structural)]
pub struct Size {
    pub width: usize,
    pub height: usize,
}

/// The rectangle between `left` and `right`, `top` and `bottom`.
///
/// A rectangle is well formed when no edge has passed its opposite, see
/// [`Rectangle::wf`]. The fields are public, so nothing forces that: each
/// function says what it does to the four edges, and when the result is well
/// formed.
#[derive(Debug, Clone, Copy, PartialEq, Eq, PartialOrd, Ord, Structural)]
pub struct Rectangle {
    pub left: usize,
    pub top: usize,
    pub right: usize,
    pub bottom: usize,
}

impl Size {
    pub fn from_sizes(width: usize, height: usize) -> (size: Self)
        ensures
            size.width == width,
            size.height == height,
    {
        Self { width, height }
    }

    pub fn get_width(&self) -> (width: usize)
        ensures
            width == self.width,
    {
        self.width
    }

    pub fn set_width(&mut self, width: usize)
        ensures
            *final(self) == (Size { width, height: old(self).height }),
    {
        self.width = width;
    }

    pub fn get_height(&self) -> (height: usize)
        ensures
            height == self.height,
    {
        self.height
    }

    pub fn set_height(&mut self, height: usize)
        ensures
            *final(self) == (Size { width: old(self).width, height }),
    {
        self.height = height;
    }

    /// The rectangle of this size whose top left corner is the origin.
    pub fn to_rectangle(&self) -> (rect: Rectangle)
        ensures
            rect.left == 0,
            rect.top == 0,
            rect.right == self.width,
            rect.bottom == self.height,
            rect.wf(),
    {
        Rectangle { left: 0, top: 0, right: self.width, bottom: self.height }
    }
}

impl Rectangle {
    /// No edge has passed its opposite.
    pub open spec fn wf(&self) -> bool {
        self.left <= self.right && self.top <= self.bottom
    }

    /// Whether all four edges, each moved outward by its offset, are still
    /// coordinates: none below zero, none above `usize::MAX`.
    pub open spec fn can_expand(
        &self,
        left_offset: isize,
        top_offset: isize,
        right_offset: isize,
        bottom_offset: isize,
    ) -> bool {
        &&& 0 <= self.left - left_offset <= usize::MAX
        &&& 0 <= self.top - top_offset <= usize::MAX
        &&& 0 <= self.right + right_offset <= usize::MAX
        &&& 0 <= self.bottom + bottom_offset <= usize::MAX
    }

    pub fn from_sizes(left: usize, top: usize, right: usize, bottom: usize) -> (rect: Self)
        ensures
            rect.left == left,
            rect.top == top,
            rect.right == right,
            rect.bottom == bottom,
            rect.wf() <==> left <= right && top <= bottom,
    {
        Self { left, top, right, bottom }
    }

    pub fn get_left(&self) -> (left: usize)
        ensures
            left == self.left,
    {
        self.left
    }

    pub fn set_left(&mut self, left: usize)
        ensures
            *final(self) == (Rectangle {
                left,
                top: old(self).top,
                right: old(self).right,
                bottom: old(self).bottom,
            }),
    {
        self.left = left;
    }

    pub fn get_top(&self) -> (top: usize)
        ensures
            top == self.top,
    {
        self.top
    }

    pub fn set_top(&mut self, top: usize)
        ensures
            *final(self) == (Rectangle {
                left: old(self).left,
                top,
                right: old(self).right,
                bottom: old(self).bottom,
            }),
    {
        self.top = top;
    }

    pub fn get_right(&self) -> (right: usize)
        ensures
            right == self.right,
    {
        self.right
    }

    pub fn set_right(&mut self, right: usize)
        ensures
            *final(self) == (Rectangle {
                left: old(self).left,
                top: old(self).top,
                right,
                bottom: old(self).bottom,
            }),
    {
        self.right = right;
    }

    pub fn get_bottom(&self) -> (bottom: usize)
        ensures
            bottom == self.bottom,
    {
        self.bottom
    }

    pub fn set_bottom(&mut self, bottom: usize)
        ensures
            *final(self) == (Rectangle {
                left: old(self).left,
                top: old(self).top,
                right: old(self).right,
                bottom,
            }),
    {
        self.bottom = bottom;
    }

    /// Moves each edge outward by its offset: `left` and `top` go down by
    /// theirs, `right` and `bottom` go up. A negative offset moves the edge
    /// inward.
    ///
    /// The caller guards against an edge leaving the coordinates.
    pub fn expand(
        &self,
        left_offset: isize,
        top_offset: isize,
        right_offset: isize,
        bottom_offset: isize,
    ) -> (rect: Rectangle)
        requires
            self.can_expand(left_offset, top_offset, right_offset, bottom_offset),
        ensures
            rect.left == self.left - left_offset,
            rect.top == self.top - top_offset,
            rect.right == self.right + right_offset,
            rect.bottom == self.bottom + bottom_offset,
            rect.wf() <==> self.right - self.left + left_offset + right_offset >= 0 && self.bottom
                - self.top + top_offset + bottom_offset >= 0,
    {
        Rectangle {
            left: (self.left as i128 - left_offset as i128) as usize,
            top: (self.top as i128 - top_offset as i128) as usize,
            right: (self.right as i128 + right_offset as i128) as usize,
            bottom: (self.bottom as i128 + bottom_offset as i128) as usize,
        }
    }
}

} // verus!
