//! Axis-aligned rectangles, stored as a position and an extent.

use vstd::prelude::*;

verus! {

/// A rectangle given by its top-left corner `(x, y)` and its width and
/// height, all in the same unit the caller chose.
#[derive(Debug, Copy, Clone)]
pub struct Rectangle<T> {
    position: [T; 2],
    wh: [T; 2],
}

impl<T> Rectangle<T> where T: Copy {
    /// The horizontal coordinate of the top-left corner.
    pub closed spec fn spec_x(self) -> T {
        self.position[0]
    }

    /// The vertical coordinate of the top-left corner.
    pub closed spec fn spec_y(self) -> T {
        self.position[1]
    }

    /// The width.
    pub closed spec fn spec_w(self) -> T {
        self.wh[0]
    }

    /// The height.
    pub closed spec fn spec_h(self) -> T {
        self.wh[1]
    }

    pub fn new(x: T, y: T, w: T, h: T) -> (r: Rectangle<T>)
        ensures
            r.spec_x() == x,
            r.spec_y() == y,
            r.spec_w() == w,
            r.spec_h() == h,
    {
        Rectangle { position: [x, y], wh: [w, h] }
    }

    pub fn x(self) -> (r: T)
        ensures
            r == self.spec_x(),
    {
        self.position[0]
    }

    pub fn y(self) -> (r: T)
        ensures
            r == self.spec_y(),
    {
        self.position[1]
    }

    pub fn w(self) -> (r: T)
        ensures
            r == self.spec_w(),
    {
        self.wh[0]
    }

    pub fn h(self) -> (r: T)
        ensures
            r == self.spec_h(),
    {
        self.wh[1]
    }
}

} // verus!
